//! The layout of a flattened value, stated on the value itself: which items
//! a walk emits and at which paths, which values can be walked at all, and
//! the proof that the visitor does exactly that.

use crate::error::RecorderError;
use crate::flatten::{lemma_visited_all_unfolds, visited, visited_all};
use crate::sub_index::{narrow, path_fits, sub_index_of, SubIndex};
use crate::traced_value::{SimpleValue, ValueItem};
use crate::values::Value;
use crate::visitor::{bumped, completed, container_step, counters, enter_step, initial_state, lemma_fits_with_open_level, LevelState, VisitState};
use vstd::prelude::*;

verus! {

/// The path that the child numbers `q` stand for.
pub open spec fn node_index(q: Seq<usize>) -> SubIndex {
    sub_index_of(narrow(q))
}

/// The items that a walk of `value` emits when `value` stands at the child
/// numbers `q`: a leaf for a scalar; for a struct or a vector its header with
/// the declared length, followed by the items of its children in order,
/// child `i` standing at `q` followed by `i + 1`.
pub open spec fn raw_items(value: Value, q: Seq<usize>) -> Seq<ValueItem>
    decreases value, 0nat,
{
    match value {
        Value::Struct { fields, .. } => seq![
            ValueItem {
                sub_index: node_index(q),
                header: true,
                value: SimpleValue::U64(fields@.len() as u64),
            },
        ] + raw_children(fields@, q, 0),
        Value::Vector { elements, .. } => seq![
            ValueItem {
                sub_index: node_index(q),
                header: true,
                value: SimpleValue::U64(elements@.len() as u64),
            },
        ] + raw_children(elements@, q, 0),
        Value::ContainerRef { .. } => Seq::empty(),
        Value::IndexedRef { .. } => Seq::empty(),
        _ => seq![
            ValueItem { sub_index: node_index(q), header: false, value: value.leaf().unwrap() },
        ],
    }
}

/// The items of the children from position `from` on, of a container that
/// stands at `q`.
pub open spec fn raw_children(children: Seq<Value>, q: Seq<usize>, from: nat) -> Seq<ValueItem>
    decreases children, children.len() - from,
{
    if from >= children.len() {
        Seq::empty()
    } else {
        raw_items(children[from as int], q.push((from + 1) as usize)) + raw_children(
            children,
            q,
            from + 1,
        )
    }
}

/// The container paths after a walk of `value` at `q` has added its own to
/// `paths`: each container it passes is put at its path, a later one in
/// place of an earlier one with the same address.
pub open spec fn paths_after(paths: Map<usize, SubIndex>, value: Value, q: Seq<usize>) -> Map<
    usize,
    SubIndex,
>
    decreases value, 0nat,
{
    match value {
        Value::Struct { address, fields } => children_paths_after(
            paths.insert(address, node_index(q)),
            fields@,
            q,
            0,
        ),
        Value::Vector { address, elements } => children_paths_after(
            paths.insert(address, node_index(q)),
            elements@,
            q,
            0,
        ),
        _ => paths,
    }
}

/// The container paths after the children from position `from` on were
/// walked.
pub open spec fn children_paths_after(
    paths: Map<usize, SubIndex>,
    children: Seq<Value>,
    q: Seq<usize>,
    from: nat,
) -> Map<usize, SubIndex>
    decreases children, children.len() - from,
{
    if from >= children.len() {
        paths
    } else {
        children_paths_after(
            paths_after(paths, children[from as int], q.push((from + 1) as usize)),
            children,
            q,
            from + 1,
        )
    }
}

/// The walk of `value` ends on an aggregate without children: on `value`
/// itself, or on the last of its descendants.
pub open spec fn ends_open(value: Value) -> bool
    decreases value,
{
    match value {
        Value::Struct { fields, .. } => fields@.len() == 0 || ends_open(fields@.last()),
        Value::Vector { elements, .. } => elements@.len() == 0 || ends_open(elements@.last()),
        _ => false,
    }
}

/// `value` can be walked when it stands at the child numbers `q`: no
/// reference stands in it, the path of each of its nodes fits in eight
/// 16-bit slots, and an aggregate without children is followed by nothing.
pub open spec fn walkable(value: Value, q: Seq<usize>) -> bool
    decreases value, 0nat,
{
    match value {
        Value::Struct { fields, .. } => path_fits(q) && children_walkable(fields@, q, 0),
        Value::Vector { elements, .. } => path_fits(q) && children_walkable(elements@, q, 0),
        Value::ContainerRef { .. } => false,
        Value::IndexedRef { .. } => false,
        _ => path_fits(q),
    }
}

/// The children from position `from` on can be walked: each of them can,
/// and none but the last ends on an aggregate without children.
pub open spec fn children_walkable(children: Seq<Value>, q: Seq<usize>, from: nat) -> bool
    decreases children, children.len() - from,
{
    from >= children.len() || {
        &&& walkable(children[from as int], q.push((from + 1) as usize))
        &&& (from + 1 < children.len() ==> !ends_open(children[from as int]))
        &&& children_walkable(children, q, from + 1)
    }
}

/// The levels that stay open after a walk of `value` at depth `depth`, where
/// the walk ends on an aggregate without children: the levels from `value`
/// down to that aggregate, each with all its children entered.
pub open spec fn residue(value: Value, depth: nat) -> Seq<LevelState>
    decreases value,
{
    match value {
        Value::Struct { fields, .. } => if fields@.len() == 0 {
            seq![LevelState { depth: depth as usize, len: 0, counter: 0 }]
        } else {
            seq![
                LevelState {
                    depth: depth as usize,
                    len: fields@.len() as usize,
                    counter: fields@.len() as usize,
                },
            ] + residue(fields@.last(), depth + 1)
        },
        Value::Vector { elements, .. } => if elements@.len() == 0 {
            seq![LevelState { depth: depth as usize, len: 0, counter: 0 }]
        } else {
            seq![
                LevelState {
                    depth: depth as usize,
                    len: elements@.len() as usize,
                    counter: elements@.len() as usize,
                },
            ] + residue(elements@.last(), depth + 1)
        },
        _ => Seq::empty(),
    }
}

/// The stack after a walk of `value` at depth `depth` that began with the
/// stack `stack`.
pub open spec fn stack_after(stack: Seq<LevelState>, value: Value, depth: nat) -> Seq<LevelState> {
    if ends_open(value) {
        bumped(stack) + residue(value, depth)
    } else {
        completed(bumped(stack))
    }
}

/// The stack `stack` stands ready for a node at depth `depth` that will
/// stand at the child numbers `q`.
pub open spec fn positioned(stack: Seq<LevelState>, depth: usize, q: Seq<usize>) -> bool {
    &&& depth == stack.len()
    &&& q == counters(bumped(stack))
    &&& stack.len() > 0 ==> stack.last().depth + 1 == depth && stack.last().counter
        < stack.last().len
}

/// The counters of a stack with one more level.
pub proof fn lemma_counters_push(stack: Seq<LevelState>, level: LevelState)
    ensures
        counters(stack.push(level)) == counters(stack).push(level.counter),
{
    assert(counters(stack.push(level)) =~= counters(stack).push(level.counter));
}

/// Entering a child changes the top level only.
pub proof fn lemma_bumped_push(below: Seq<LevelState>, level: LevelState)
    ensures
        bumped(below.push(level)) == below.push(
            LevelState { counter: (level.counter + 1) as usize, ..level },
        ),
{
    assert(bumped(below.push(level)) =~= below.push(
        LevelState { counter: (level.counter + 1) as usize, ..level },
    ));
}

/// Dropping the complete levels looks at the top level first.
pub proof fn lemma_completed_push(below: Seq<LevelState>, level: LevelState)
    ensures
        completed(below.push(level)) == if level.counter == level.len {
            completed(below)
        } else {
            below.push(level)
        },
{
    assert(below.push(level).drop_last() =~= below);
}

/// Levels that are all complete are all dropped.
pub proof fn lemma_completed_tail(below: Seq<LevelState>, tail: Seq<LevelState>)
    requires
        forall|k: int| 0 <= k < tail.len() ==> (#[trigger] tail[k]).counter == tail[k].len,
    ensures
        completed(below + tail) == completed(below),
    decreases tail.len(),
{
    if tail.len() == 0 {
        assert(below + tail =~= below);
    } else {
        assert(below + tail =~= (below + tail.drop_last()).push(tail.last()));
        lemma_completed_push(below + tail.drop_last(), tail.last());
        lemma_completed_tail(below, tail.drop_last());
    }
}

/// A path that fits and does not end in zero has at most eight numbers.
pub proof fn lemma_fitting_length(q: Seq<usize>)
    requires
        path_fits(q),
        q.len() > 0 ==> q.last() != 0,
    ensures
        q.len() <= 8,
{
    if q.len() > 8 {
        assert(q[q.len() - 1] == 0);
    }
}

/// A node that is no child of the top level is refused.
pub proof fn lemma_blocked(s: VisitState, value: Value, depth: usize)
    requires
        s.stack.len() > 0,
        s.stack.last().depth + 1 != depth,
    ensures
        visited(s, value, depth) == Err::<VisitState, RecorderError>(
            RecorderError::InvalidVisitorState,
        ),
{
    reveal(visited);
}

/// The levels that a walk leaves open are complete, and none of them is
/// above the depth of the value walked.
pub proof fn lemma_residue(value: Value, q: Seq<usize>)
    requires
        walkable(value, q),
        ends_open(value),
        q.len() > 0 ==> q.last() != 0,
    ensures
        residue(value, q.len()).len() > 0,
        forall|k: int|
            0 <= k < residue(value, q.len()).len() ==> {
                &&& (#[trigger] residue(value, q.len())[k]).counter == residue(
                    value,
                    q.len(),
                )[k].len
                &&& residue(value, q.len())[k].depth >= q.len()
            },
    decreases value,
{
    lemma_fitting_length(q);
    match value {
        Value::Struct { fields, .. } => {
            assert(fields.len() == fields@.len());
            lemma_residue_children(fields@, q);
        },
        Value::Vector { elements, .. } => {
            assert(elements.len() == elements@.len());
            lemma_residue_children(elements@, q);
        },
        _ => {},
    }
}

/// As [`lemma_residue`], for the last child of a container at `q`.
pub proof fn lemma_residue_children(children: Seq<Value>, q: Seq<usize>)
    requires
        path_fits(q),
        q.len() <= 8,
        children.len() <= usize::MAX,
        children_walkable(children, q, 0),
        children.len() > 0 ==> ends_open(children.last()),
    ensures
        children.len() > 0 ==> {
            let r = residue(children.last(), q.len() + 1);
            &&& r.len() > 0
            &&& forall|k: int|
                0 <= k < r.len() ==> (#[trigger] r[k]).counter == r[k].len && r[k].depth
                    >= q.len() + 1
        },
    decreases children, 0nat,
{
    if children.len() > 0 {
        let n = children.len();
        lemma_last_child_walkable(children, q, 0);
        let last_q = q.push(n as usize);
        lemma_residue(children.last(), last_q);
    }
}

/// Where the children can be walked, the last of them can.
pub proof fn lemma_last_child_walkable(children: Seq<Value>, q: Seq<usize>, from: nat)
    requires
        from < children.len(),
        children_walkable(children, q, from),
    ensures
        walkable(children.last(), q.push(children.len() as usize)),
    decreases children.len() - from,
{
    if from + 1 < children.len() {
        lemma_last_child_walkable(children, q, from + 1);
    }
}

/// The walk of one value: where the value can be walked, the visitor emits
/// its items, adds its container paths, and leaves the stack as
/// [`stack_after`] says; where it cannot, the walk is refused.
#[verifier::rlimit(40)]
pub proof fn lemma_walk(s: VisitState, value: Value, depth: usize, q: Seq<usize>)
    requires
        positioned(s.stack, depth, q),
        q.len() > 0 ==> q.last() != 0,
    ensures
        walkable(value, q) ==> visited(s, value, depth) == Ok::<VisitState, RecorderError>(
            VisitState {
                stack: stack_after(s.stack, value, depth as nat),
                items: s.items + raw_items(value, q),
                containers: paths_after(s.containers, value, q),
            },
        ),
        !walkable(value, q) ==> visited(s, value, depth) == Err::<VisitState, RecorderError>(
            RecorderError::InvalidVisitorState,
        ),
    decreases value, 1nat,
{
    reveal(visited);
    match value {
        Value::Struct { address, fields } => {
            assert(fields.len() == fields@.len());
            lemma_walk_container(s, address, fields@, depth, q);
            lemma_stack_after_container(s.stack, value, fields@, depth);
        },
        Value::Vector { address, elements } => {
            assert(elements.len() == elements@.len());
            lemma_walk_container(s, address, elements@, depth, q);
            lemma_stack_after_container(s.stack, value, elements@, depth);
        },
        Value::ContainerRef { .. } => {},
        Value::IndexedRef { .. } => {},
        _ => {
            let leaf = value.leaf().unwrap();
            if path_fits(q) {
                let item = ValueItem { sub_index: node_index(q), header: false, value: leaf };
                assert(s.items.push(item) =~= s.items + seq![item]);
            }
        },
    }
}

/// The stack after the walk of a container, by its children.
pub proof fn lemma_stack_after_container(
    stack: Seq<LevelState>,
    value: Value,
    children: Seq<Value>,
    depth: usize,
)
    requires
        value.is_container(),
        children == value.children(),
    ensures
        stack_after(stack, value, depth as nat) == if children.len() == 0 {
            bumped(stack).push(LevelState { depth, len: 0, counter: 0 })
        } else if ends_open(children.last()) {
            bumped(stack).push(
                LevelState {
                    depth,
                    len: children.len() as usize,
                    counter: children.len() as usize,
                },
            ) + residue(children.last(), (depth + 1) as nat)
        } else {
            completed(bumped(stack))
        },
{
    let below = bumped(stack);
    if children.len() == 0 {
        assert(below + seq![LevelState { depth, len: 0, counter: 0 }] =~= below.push(
            LevelState { depth, len: 0, counter: 0 },
        ));
    } else if ends_open(children.last()) {
        let level = LevelState {
            depth,
            len: children.len() as usize,
            counter: children.len() as usize,
        };
        let tail = residue(children.last(), (depth + 1) as nat);
        assert(below + (seq![level] + tail) =~= below.push(level) + tail);
    }
}

/// The state inside a container that was entered and crossed into.
pub open spec fn inside(s: VisitState, address: usize, len: usize, depth: usize) -> Result<
    VisitState,
    RecorderError,
> {
    match enter_step(s, depth, len) {
        Ok(entered) => container_step(entered, address),
        Err(e) => Err(e),
    }
}

/// The walk of a container with the children `children`.
#[verifier::rlimit(40)]
pub proof fn lemma_walk_container(
    s: VisitState,
    address: usize,
    children: Seq<Value>,
    depth: usize,
    q: Seq<usize>,
)
    requires
        positioned(s.stack, depth, q),
        q.len() > 0 ==> q.last() != 0,
        children.len() <= usize::MAX,
    ensures
        ({
            let walked = match inside(s, address, children.len() as usize, depth) {
                Ok(state) => if depth == usize::MAX {
                    Err(RecorderError::InvalidVisitorState)
                } else {
                    visited_all(state, children, 0, (depth + 1) as usize)
                },
                Err(e) => Err(e),
            };
            let header = ValueItem {
                sub_index: node_index(q),
                header: true,
                value: SimpleValue::U64(children.len() as u64),
            };
            let level = LevelState {
                depth,
                len: children.len() as usize,
                counter: children.len() as usize,
            };
            if path_fits(q) && children_walkable(children, q, 0) {
                walked == Ok::<VisitState, RecorderError>(
                    VisitState {
                        stack: if children.len() == 0 {
                            bumped(s.stack).push(level)
                        } else if ends_open(children.last()) {
                            bumped(s.stack).push(level) + residue(
                                children.last(),
                                (depth + 1) as nat,
                            )
                        } else {
                            completed(bumped(s.stack))
                        },
                        items: s.items + (seq![header] + raw_children(children, q, 0)),
                        containers: children_paths_after(
                            s.containers.insert(address, node_index(q)),
                            children,
                            q,
                            0,
                        ),
                    },
                )
            } else {
                walked == Err::<VisitState, RecorderError>(RecorderError::InvalidVisitorState)
            }
        }),
    decreases children, children.len() + 1,
{
    let len = children.len() as usize;
    let below = bumped(s.stack);
    let open = LevelState { depth, len, counter: 0 };
    lemma_fits_with_open_level(below, open);
    if path_fits(q) {
        lemma_fitting_length(q);
        let header = ValueItem {
            sub_index: node_index(q),
            header: true,
            value: SimpleValue::U64(children.len() as u64),
        };
        let entered = VisitState {
            stack: below.push(open),
            items: s.items.push(header),
            containers: s.containers,
        };
        assert(enter_step(s, depth, len) == Ok::<VisitState, RecorderError>(entered));
        let state = VisitState {
            stack: below.push(open),
            items: s.items.push(header),
            containers: s.containers.insert(address, node_index(q)),
        };
        assert(inside(s, address, len, depth) == Ok::<VisitState, RecorderError>(state));
        lemma_walk_children(state, children, 0, depth, q, below);
        lemma_completed_push(
            below,
            LevelState { depth, len, counter: len },
        );
        assert(s.items.push(header) + raw_children(children, q, 0) =~= s.items + (seq![header]
            + raw_children(children, q, 0)));
    }
}

/// The walk of the children of a container from position `from` on, where
/// the container's level is on top of `below` and has entered `from`
/// children.
#[verifier::rlimit(40)]
pub proof fn lemma_walk_children(
    s: VisitState,
    children: Seq<Value>,
    from: nat,
    depth: usize,
    q: Seq<usize>,
    below: Seq<LevelState>,
)
    requires
        from <= children.len() <= usize::MAX,
        below.len() == depth,
        depth <= 8,
        q == counters(below),
        s.stack == below.push(
            LevelState { depth, len: children.len() as usize, counter: from as usize },
        ),
    ensures
        ({
            let level = LevelState {
                depth,
                len: children.len() as usize,
                counter: children.len() as usize,
            };
            if children_walkable(children, q, from) {
                visited_all(s, children, from, (depth + 1) as usize) == Ok::<
                    VisitState,
                    RecorderError,
                >(
                    VisitState {
                        stack: if from == children.len() {
                            s.stack
                        } else if ends_open(children.last()) {
                            below.push(level) + residue(children.last(), (depth + 1) as nat)
                        } else {
                            completed(below.push(level))
                        },
                        items: s.items + raw_children(children, q, from),
                        containers: children_paths_after(s.containers, children, q, from),
                    },
                )
            } else {
                visited_all(s, children, from, (depth + 1) as usize) == Err::<
                    VisitState,
                    RecorderError,
                >(RecorderError::InvalidVisitorState)
            }
        }),
    decreases children, children.len() - from,
{
    let n = children.len();
    let len = n as usize;
    let child_depth = (depth + 1) as usize;
    lemma_visited_all_unfolds(s, children, from, child_depth);
    if from >= n {
        assert(s.items + raw_children(children, q, from) =~= s.items);
    } else {
        let child = children[from as int];
        let child_q = q.push((from + 1) as usize);
        let current = LevelState { depth, len, counter: from as usize };
        let next = LevelState { depth, len, counter: (from + 1) as usize };
        lemma_bumped_push(below, current);
        lemma_counters_push(below, next);
        assert(positioned(s.stack, child_depth, child_q));
        lemma_walk(s, child, child_depth, child_q);
        if walkable(child, child_q) {
            let after = VisitState {
                stack: stack_after(s.stack, child, child_depth as nat),
                items: s.items + raw_items(child, child_q),
                containers: paths_after(s.containers, child, child_q),
            };
            assert(visited(s, child, child_depth) == Ok::<VisitState, RecorderError>(after));
            lemma_completed_push(below, next);
            lemma_visited_all_unfolds(after, children, from + 1, child_depth);
            if from + 1 == n {
                assert(visited_all(after, children, from + 1, child_depth) == Ok::<
                    VisitState,
                    RecorderError,
                >(after));
                assert(raw_children(children, q, from + 1) =~= Seq::<ValueItem>::empty());
                assert(children_paths_after(after.containers, children, q, from + 1)
                    == after.containers);
                assert(children_walkable(children, q, from + 1));
            }
            if ends_open(child) {
                lemma_residue(child, child_q);
                if from + 1 < n {
                    let blocked = children[(from + 1) as int];
                    assert(after.stack.last() == residue(child, child_q.len()).last());
                    lemma_blocked(after, blocked, child_depth);
                } else {
                    assert(children.last() == child);
                    assert(after.items + raw_children(children, q, from + 1) =~= s.items
                        + raw_children(children, q, from));
                }
            } else {
                if from + 1 < n {
                    lemma_walk_children(after, children, from + 1, depth, q, below);
                    assert(after.items + raw_children(children, q, from + 1) =~= s.items
                        + raw_children(children, q, from));
                } else {
                    assert(children.last() == child);
                    assert(after.items + raw_children(children, q, from + 1) =~= s.items
                        + raw_children(children, q, from));
                }
            }
        }
    }
}

/// The walk of a whole value from the root: where the value can be walked,
/// the visitor ends with the items and the container paths of the layout and
/// with no level left incomplete; where it cannot, the walk is refused.
pub proof fn lemma_walk_from_root(value: Value)
    ensures
        walkable(value, Seq::empty()) ==> {
            &&& visited(initial_state(), value, 0) matches Ok(s)
            &&& completed(s.stack).len() == 0
            &&& s.items == raw_items(value, Seq::empty())
            &&& s.containers == paths_after(Map::empty(), value, Seq::empty())
        },
        !walkable(value, Seq::empty()) ==> visited(initial_state(), value, 0) == Err::<
            VisitState,
            RecorderError,
        >(RecorderError::InvalidVisitorState),
{
    let s = initial_state();
    let q = Seq::<usize>::empty();
    assert(counters(bumped(s.stack)) =~= q);
    lemma_walk(s, value, 0, q);
    if walkable(value, q) {
        assert(s.items + raw_items(value, q) =~= raw_items(value, q));
        assert(bumped(s.stack) =~= Seq::<LevelState>::empty());
        if ends_open(value) {
            lemma_residue(value, q);
            lemma_completed_tail(Seq::<LevelState>::empty(), residue(value, 0));
        }
    }
}

/// Every header of a layout holds its declared length as a 64-bit integer.
pub proof fn lemma_raw_headers(value: Value, q: Seq<usize>)
    ensures
        forall|k: int|
            0 <= k < raw_items(value, q).len() && (#[trigger] raw_items(value, q)[k]).header
                ==> raw_items(value, q)[k].value is U64,
    decreases value, 1nat,
{
    match value {
        Value::Struct { fields, .. } => {
            lemma_raw_children_headers(fields@, q, 0);
        },
        Value::Vector { elements, .. } => {
            lemma_raw_children_headers(elements@, q, 0);
        },
        _ => {},
    }
}

/// As [`lemma_raw_headers`], for the children from position `from` on.
pub proof fn lemma_raw_children_headers(children: Seq<Value>, q: Seq<usize>, from: nat)
    ensures
        forall|k: int|
            0 <= k < raw_children(children, q, from).len() && (#[trigger] raw_children(
                children,
                q,
                from,
            )[k]).header ==> raw_children(children, q, from)[k].value is U64,
    decreases children, children.len() - from,
{
    if from < children.len() {
        lemma_raw_headers(children[from as int], q.push((from + 1) as usize));
        lemma_raw_children_headers(children, q, from + 1);
    }
}

} // verus!
