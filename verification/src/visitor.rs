//! The flattening visitor: a level stack and an item accumulator, moved on
//! by one callback for each node of the value that is walked.

use crate::error::RecorderError;
use crate::finalize::{add_flen, finalized};
use crate::sub_index::{narrow, path_fits, sub_index_of, SubIndex};
use crate::traced_value::{SimpleValue, TracedValue, ValueItem};
use std::collections::BTreeMap;
use vstd::prelude::*;

verus! {

/// One open aggregate on the way from the root to the current node.
#[derive(Clone, Copy, Debug, PartialEq, Eq)]
pub struct LevelState {
    /// Nesting depth of the aggregate; the root has depth zero.
    pub depth: usize,
    /// Declared number of children.
    pub len: usize,
    /// Number of children entered so far.
    pub counter: usize,
}

/// What a flattening visitor has gathered so far.
pub struct VisitState {
    /// The open levels, the outermost first.
    pub stack: Seq<LevelState>,
    /// The items emitted, in order.
    pub items: Seq<ValueItem>,
    /// The path of each container passed, by its raw address.
    pub containers: Map<usize, SubIndex>,
}

/// The state before anything is visited.
pub open spec fn initial_state() -> VisitState {
    VisitState { stack: Seq::empty(), items: Seq::empty(), containers: Map::empty() }
}

/// The counters along the stack: the current path.
pub open spec fn counters(stack: Seq<LevelState>) -> Seq<usize> {
    stack.map_values(|level: LevelState| level.counter)
}

/// The stack after its top level has entered one more child.
pub open spec fn bumped(stack: Seq<LevelState>) -> Seq<LevelState> {
    if stack.len() == 0 {
        stack
    } else {
        stack.update(
            stack.len() - 1,
            LevelState { counter: (stack.last().counter + 1) as usize, ..stack.last() },
        )
    }
}

/// A node at depth `depth` may come next: the stack is empty, or the node
/// is a child of the top level and the top level's counter can still grow.
pub open spec fn may_descend(stack: Seq<LevelState>, depth: usize) -> bool {
    stack.len() == 0 || (stack.last().counter < usize::MAX && stack.last().depth + 1 == depth)
}

/// The stack without the levels at its top that have entered all their
/// children.
pub open spec fn completed(stack: Seq<LevelState>) -> Seq<LevelState>
    decreases stack.len(),
{
    if stack.len() > 0 && stack.last().counter == stack.last().len {
        completed(stack.drop_last())
    } else {
        stack
    }
}

/// The path that the counters of `stack` stand for.
pub open spec fn path_of(stack: Seq<LevelState>) -> SubIndex {
    sub_index_of(narrow(counters(stack)))
}

/// The state after a leaf was visited at depth `depth`.
pub open spec fn leaf_step(s: VisitState, depth: usize, value: SimpleValue) -> Result<
    VisitState,
    RecorderError,
> {
    let stack = bumped(s.stack);
    if (s.stack.len() == 0 && depth != 0) || !may_descend(s.stack, depth) || !path_fits(
        counters(stack),
    ) {
        Err(RecorderError::InvalidVisitorState)
    } else {
        Ok(
            VisitState {
                stack: completed(stack),
                items: s.items.push(
                    ValueItem { sub_index: path_of(stack), header: false, value },
                ),
                containers: s.containers,
            },
        )
    }
}

/// The state after a struct or a vector of `len` children was entered at
/// depth `depth`.
pub open spec fn enter_step(s: VisitState, depth: usize, len: usize) -> Result<
    VisitState,
    RecorderError,
> {
    let stack = bumped(s.stack).push(LevelState { depth, len, counter: 0 });
    if !may_descend(s.stack, depth) || !path_fits(counters(stack)) {
        Err(RecorderError::InvalidVisitorState)
    } else {
        Ok(
            VisitState {
                stack,
                items: s.items.push(
                    ValueItem {
                        sub_index: path_of(stack),
                        header: true,
                        value: SimpleValue::U64(len as u64),
                    },
                ),
                containers: s.containers,
            },
        )
    }
}

/// The state after the container at `raw_address` was crossed into.
pub open spec fn container_step(s: VisitState, raw_address: usize) -> Result<
    VisitState,
    RecorderError,
> {
    if !path_fits(counters(s.stack)) {
        Err(RecorderError::InvalidVisitorState)
    } else {
        Ok(
            VisitState {
                stack: s.stack,
                items: s.items,
                containers: s.containers.insert(raw_address, path_of(s.stack)),
            },
        )
    }
}

/// The visitor that flattens a plain value.
pub struct PlainValueVisitor {
    visit_stack: Vec<LevelState>,
    items: Vec<ValueItem>,
    container_sub_indexes: BTreeMap<usize, SubIndex>,
}

impl View for PlainValueVisitor {
    type V = VisitState;

    closed spec fn view(&self) -> VisitState {
        VisitState {
            stack: self.visit_stack@,
            items: self.items@,
            containers: self.container_sub_indexes@,
        }
    }
}

impl PlainValueVisitor {
    /// A visitor that has seen nothing.
    pub fn new() -> (r: Self)
        ensures
            r@ == initial_state(),
    {
        PlainValueVisitor {
            visit_stack: Vec::new(),
            items: Vec::new(),
            container_sub_indexes: BTreeMap::new(),
        }
    }

    /// The counters along the stack.
    pub fn current_sub_index(&self) -> (r: Vec<usize>)
        ensures
            r@ == counters(self@.stack),
    {
        let mut r: Vec<usize> = Vec::new();
        let mut i: usize = 0;
        while i < self.visit_stack.len()
            invariant
                i <= self.visit_stack.len(),
                r@ == counters(self.visit_stack@.take(i as int)),
            decreases self.visit_stack.len() - i,
        {
            r.push(self.visit_stack[i].counter);
            proof {
                assert(r@ =~= counters(self.visit_stack@.take(i + 1)));
            }
            i += 1;
        }
        proof {
            assert(self.visit_stack@.take(i as int) =~= self.visit_stack@);
        }
        r
    }

    /// Drops the levels at the top of the stack that are complete.
    fn pop_completed(&mut self)
        ensures
            final(self)@.stack == completed(old(self)@.stack),
            final(self)@.items == old(self)@.items,
            final(self)@.containers == old(self)@.containers,
    {
        while self.visit_stack.len() > 0 && self.visit_stack[self.visit_stack.len() - 1].counter
            == self.visit_stack[self.visit_stack.len() - 1].len
            invariant
                completed(self.visit_stack@) == completed(old(self).visit_stack@),
                self.items == old(self).items,
                self.container_sub_indexes == old(self).container_sub_indexes,
            decreases self.visit_stack.len(),
        {
            self.visit_stack.pop();
        }
    }

    /// The path of the node at depth `depth` that comes next, where one may
    /// come and its path can be held.
    fn next_sub_index(&self, depth: usize) -> (r: Option<SubIndex>)
        ensures
            r is Some <==> may_descend(self@.stack, depth) && path_fits(
                counters(bumped(self@.stack)),
            ),
            r matches Some(path) ==> path == path_of(bumped(self@.stack)),
    {
        let n = self.visit_stack.len();
        let mut path = self.current_sub_index();
        if n > 0 {
            let top = self.visit_stack[n - 1];
            if top.counter == usize::MAX || top.depth == usize::MAX || top.depth + 1 != depth {
                return None;
            }
            path.set(n - 1, top.counter + 1);
        }
        proof {
            assert(path@ =~= counters(bumped(self.visit_stack@)));
        }
        SubIndex::from_path(&path)
    }

    /// Lets the top level enter one more child.
    fn enter_child(&mut self)
        requires
            old(self)@.stack.len() > 0 ==> old(self)@.stack.last().counter < usize::MAX,
        ensures
            final(self)@.stack == bumped(old(self)@.stack),
            final(self)@.items == old(self)@.items,
            final(self)@.containers == old(self)@.containers,
    {
        let n = self.visit_stack.len();
        if n > 0 {
            let top = self.visit_stack[n - 1];
            self.visit_stack.set(
                n - 1,
                LevelState { depth: top.depth, len: top.len, counter: top.counter + 1 },
            );
        }
        proof {
            assert(self.visit_stack@ =~= bumped(old(self).visit_stack@));
        }
    }

    /// Visits a leaf at depth `depth`: the top level enters one more child,
    /// the leaf is emitted at the current path, and the levels that are
    /// complete are dropped.
    pub fn visit_simple(&mut self, depth: usize, value: SimpleValue) -> (r: Result<
        (),
        RecorderError,
    >)
        ensures
            match r {
                Ok(()) => leaf_step(old(self)@, depth, value) == Ok::<VisitState, RecorderError>(
                    final(self)@,
                ),
                Err(e) => leaf_step(old(self)@, depth, value) == Err::<VisitState, RecorderError>(e)
                    && final(self)@ == old(self)@,
            },
    {
        if self.visit_stack.len() == 0 && depth != 0 {
            return Err(RecorderError::InvalidVisitorState);
        }
        match self.next_sub_index(depth) {
            None => Err(RecorderError::InvalidVisitorState),
            Some(sub_index) => {
                self.enter_child();
                self.items.push(ValueItem { sub_index, header: false, value });
                // trace-up to the top un-finished frame
                self.pop_completed();
                Ok(())
            },
        }
    }

    /// Records the path of the container at `raw_address`: the current path.
    /// The depth of the container is not read.
    pub fn visit_container(&mut self, raw_address: usize, depth: usize) -> (r: Result<
        (),
        RecorderError,
    >)
        ensures
            match r {
                Ok(()) => container_step(old(self)@, raw_address) == Ok::<
                    VisitState,
                    RecorderError,
                >(final(self)@),
                Err(e) => container_step(old(self)@, raw_address) == Err::<
                    VisitState,
                    RecorderError,
                >(e) && final(self)@ == old(self)@,
            },
    {
        let path = self.current_sub_index();
        match SubIndex::from_path(&path) {
            Some(sub_index) => {
                self.container_sub_indexes.insert(raw_address, sub_index);
                Ok(())
            },
            None => Err(RecorderError::InvalidVisitorState),
        }
    }

    /// Enters an aggregate of `len` children at depth `depth`: the top level
    /// enters one more child, a new level is opened, and the header is
    /// emitted at the current path with the declared length as its value.
    fn enter(&mut self, depth: usize, len: usize) -> (r: Result<(), RecorderError>)
        ensures
            match r {
                Ok(()) => enter_step(old(self)@, depth, len) == Ok::<VisitState, RecorderError>(
                    final(self)@,
                ),
                Err(e) => enter_step(old(self)@, depth, len) == Err::<VisitState, RecorderError>(e)
                    && final(self)@ == old(self)@,
            },
    {
        match self.next_sub_index(depth) {
            None => {
                proof {
                    lemma_fits_with_open_level(
                        bumped(self.visit_stack@),
                        LevelState { depth, len, counter: 0 },
                    );
                }
                Err(RecorderError::InvalidVisitorState)
            },
            Some(sub_index) => {
                proof {
                    lemma_fits_with_open_level(
                        bumped(self.visit_stack@),
                        LevelState { depth, len, counter: 0 },
                    );
                }
                self.enter_child();
                self.visit_stack.push(LevelState { depth, len, counter: 0 });
                self.items.push(
                    ValueItem { sub_index, header: true, value: SimpleValue::U64(len as u64) },
                );
                Ok(())
            },
        }
    }

    /// Enters a struct of `len` fields at depth `depth`.
    pub fn visit_struct(&mut self, depth: usize, len: usize) -> (r: Result<(), RecorderError>)
        ensures
            match r {
                Ok(()) => enter_step(old(self)@, depth, len) == Ok::<VisitState, RecorderError>(
                    final(self)@,
                ),
                Err(e) => enter_step(old(self)@, depth, len) == Err::<VisitState, RecorderError>(e)
                    && final(self)@ == old(self)@,
            },
    {
        self.enter(depth, len)
    }

    /// Enters a vector of `len` elements at depth `depth`.
    pub fn visit_vec(&mut self, depth: usize, len: usize) -> (r: Result<(), RecorderError>)
        ensures
            match r {
                Ok(()) => enter_step(old(self)@, depth, len) == Ok::<VisitState, RecorderError>(
                    final(self)@,
                ),
                Err(e) => enter_step(old(self)@, depth, len) == Err::<VisitState, RecorderError>(e)
                    && final(self)@ == old(self)@,
            },
    {
        self.enter(depth, len)
    }

    /// Refuses a reference: none may stand where a plain value is flattened.
    pub fn visit_ref(&mut self, depth: usize, is_global: bool) -> (r: Result<bool, RecorderError>)
        ensures
            r == Err::<bool, RecorderError>(RecorderError::InvalidVisitorState),
            final(self)@ == old(self)@,
    {
        Err(RecorderError::InvalidVisitorState)
    }

    /// Ends the walk: drops the levels that are complete and, where none is
    /// left open, hands out the items with their headers made final.
    pub fn get_trace_value(self) -> (r: Result<TracedValue, RecorderError>)
        ensures
            match r {
                Ok(traced) => {
                    &&& completed(self@.stack).len() == 0
                    &&& traced.items@ == finalized(self@.items)
                    &&& traced.container_sub_indexes@ == self@.containers
                },
                Err(e) => e == RecorderError::InvalidVisitorState && completed(self@.stack).len()
                    != 0,
            },
    {
        let mut this = self;
        this.pop_completed();
        if this.visit_stack.len() != 0 {
            return Err(RecorderError::InvalidVisitorState);
        }
        let mut items = this.items;
        add_flen(&mut items);
        Ok(TracedValue { items, container_sub_indexes: this.container_sub_indexes })
    }
}

/// A level that has entered no child does not change whether a path fits,
/// nor the path itself.
pub proof fn lemma_fits_with_open_level(stack: Seq<LevelState>, level: LevelState)
    requires
        level.counter == 0,
    ensures
        path_fits(counters(stack.push(level))) == path_fits(counters(stack)),
        path_fits(counters(stack)) ==> path_of(stack.push(level)) == path_of(stack),
{
    let a = counters(stack);
    let b = counters(stack.push(level));
    assert(b =~= a.push(0usize));
    if path_fits(a) {
        assert(path_fits(b));
        crate::sub_index::lemma_sub_index_of(narrow(a));
        crate::sub_index::lemma_sub_index_of(narrow(b));
        crate::sub_index::lemma_trim_padded(narrow(b), narrow(a));
    }
    if path_fits(b) {
        assert forall|i: int| 8 <= i < a.len() implies a[i] == 0 by {
            assert(b[i] == a[i]);
        }
        assert forall|i: int| 0 <= i < a.len() && i < 8 implies a[i] <= u16::MAX by {
            assert(b[i] == a[i]);
        }
    }
}

} // verus!
