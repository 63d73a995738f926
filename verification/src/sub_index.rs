//! Bounded-depth paths into a flattened aggregate.
//!
//! A [`SubIndex`] names a position by the child numbers met on the way down
//! from the root. It is stored in eight 16-bit slots; zeros at the tail mark
//! unused slots, so the path that a value stands for is its slots without
//! the trailing zeros, and the empty path is the root.

use vstd::prelude::*;

verus! {

/// Number of slots in a [`SubIndex`].
pub const MAX_DEPTH: usize = 8;

/// `s` without the zeros at its tail.
pub open spec fn trim(s: Seq<u16>) -> Seq<u16>
    decreases s.len(),
{
    if s.len() == 0 {
        s
    } else if s.last() != 0 {
        s
    } else {
        trim(s.drop_last())
    }
}

/// `p` is an initial segment of `q`, possibly all of it.
pub open spec fn is_prefix(p: Seq<u16>, q: Seq<u16>) -> bool {
    &&& p.len() <= q.len()
    &&& forall|i: int| 0 <= i < p.len() ==> p[i] == q[i]
}

/// `p` is an initial segment of `q` and shorter than `q`.
pub open spec fn is_strict_prefix(p: Seq<u16>, q: Seq<u16>) -> bool {
    &&& p.len() < q.len()
    &&& forall|i: int| 0 <= i < p.len() ==> p[i] == q[i]
}

/// `p` comes before `q` in dictionary order: either `p` is a strict prefix
/// of `q`, or at the first slot where they differ `p` holds the smaller number.
pub open spec fn lex_less(p: Seq<u16>, q: Seq<u16>) -> bool {
    exists|k: int|
        {
            &&& 0 <= k <= p.len()
            &&& k <= q.len()
            &&& (forall|i: int| 0 <= i < k ==> p[i] == q[i])
            &&& #[trigger] lex_less_at(p, q, k)
        }
}

/// `p` drops below `q` at slot `k`: `p` ends there and `q` goes on, or both
/// go on and `p` holds the smaller number.
pub open spec fn lex_less_at(p: Seq<u16>, q: Seq<u16>, k: int) -> bool {
    ||| (k == p.len() && k < q.len())
    ||| (k < p.len() && k < q.len() && p[k] < q[k])
}

/// The slot of `x` that occupies bits `16 * i` to `16 * i + 15`.
pub open spec fn slot_of(x: u128, i: nat) -> u16 {
    ((x >> ((16 * i) as u128)) & 0xffff) as u16
}

/// The eight slots packed into one number, slot `i` in bits `16 * i` to
/// `16 * i + 15`.
pub open spec fn pack(s: Seq<u16>) -> u128 {
    (s[0] as u128) | ((s[1] as u128) << 16) | ((s[2] as u128) << 32) | ((s[3] as u128) << 48) | ((
    s[4] as u128) << 64) | ((s[5] as u128) << 80) | ((s[6] as u128) << 96) | ((s[7] as u128) << 112)
}

/// What `trim` keeps and what it drops.
pub proof fn lemma_trim(s: Seq<u16>)
    ensures
        trim(s).len() <= s.len(),
        forall|i: int| 0 <= i < trim(s).len() ==> trim(s)[i] == s[i],
        forall|i: int| trim(s).len() <= i < s.len() ==> s[i] == 0,
        trim(s).len() > 0 ==> trim(s).last() != 0,
        trim(trim(s)) == trim(s),
    decreases s.len(),
{
    if s.len() != 0 && s.last() == 0 {
        let t = s.drop_last();
        lemma_trim(t);
        assert forall|i: int| 0 <= i < trim(s).len() implies trim(s)[i] == s[i] by {
            assert(trim(t)[i] == t[i]);
        }
        assert forall|i: int| trim(s).len() <= i < s.len() implies s[i] == 0 by {
            if i < t.len() {
                assert(t[i] == 0);
            }
        }
    }
}

/// A sequence that agrees with `q` on `q`'s length and holds zeros after it
/// trims to what `q` trims to.
pub proof fn lemma_trim_padded(s: Seq<u16>, q: Seq<u16>)
    requires
        q.len() <= s.len(),
        forall|i: int| 0 <= i < q.len() ==> s[i] == q[i],
        forall|i: int| q.len() <= i < s.len() ==> s[i] == 0,
    ensures
        trim(s) == trim(q),
    decreases s.len(),
{
    if s.len() == q.len() {
        assert(s =~= q);
    } else {
        lemma_trim_padded(s.drop_last(), q);
    }
}

/// Two slot sequences of one length that trim to the same path are equal.
pub proof fn lemma_trim_injective(a: Seq<u16>, b: Seq<u16>)
    requires
        a.len() == b.len(),
        trim(a) == trim(b),
    ensures
        a == b,
{
    lemma_trim(a);
    lemma_trim(b);
    assert(a =~= b);
}

/// A sequence whose last number is not zero is its own trimmed form.
pub proof fn lemma_trim_nonzero_last(s: Seq<u16>)
    requires
        s.len() == 0 || s.last() != 0,
    ensures
        trim(s) == s,
{
}

/// A position inside a flattened aggregate: eight small unsigned slots, where
/// zeros at the tail mark unused positions.
#[derive(Clone, Copy, Debug, PartialEq, Eq, Hash)]
pub struct SubIndex {
    pub slots: [u16; 8],
}

impl View for SubIndex {
    type V = Seq<u16>;

    /// The path: the slots without the zeros at the tail.
    open spec fn view(&self) -> Seq<u16> {
        trim(self.slots@)
    }
}

impl SubIndex {
    /// The slots that stand for the path `q`: `q` followed by zeros.
    pub open spec fn holds(self, q: Seq<u16>) -> bool {
        &&& q.len() <= 8
        &&& forall|i: int| 0 <= i < q.len() ==> self.slots@[i] == q[i]
        &&& forall|i: int| q.len() <= i < 8 ==> self.slots@[i] == 0
    }

    /// The slots hold their own path, and the path fits in eight slots.
    pub proof fn lemma_holds_view(self)
        ensures
            self.holds(self@),
            self@.len() <= 8,
            self@.len() > 0 ==> self@.last() != 0,
    {
        lemma_trim(self.slots@);
    }

    /// Slots that hold `q` stand for the path `trim(q)`.
    pub proof fn lemma_view_of_holds(self, q: Seq<u16>)
        requires
            self.holds(q),
        ensures
            self@ == trim(q),
    {
        lemma_trim_padded(self.slots@, q);
    }

    /// Two values with the same path are the same value.
    pub proof fn lemma_view_injective(self, other: SubIndex)
        requires
            self@ == other@,
        ensures
            self == other,
    {
        lemma_trim_injective(self.slots@, other.slots@);
        assert(self.slots =~= other.slots);
    }

    /// The root: the empty path.
    pub fn root() -> (r: Self)
        ensures
            r@ == Seq::<u16>::empty(),
    {
        let r = SubIndex { slots: [0u16; 8] };
        proof {
            r.lemma_view_of_holds(Seq::<u16>::empty());
        }
        r
    }

    /// Number of slots in use: the highest slot that is not zero, plus one.
    pub fn depth(&self) -> (d: usize)
        ensures
            d == self@.len(),
            d <= 8,
    {
        let mut d: usize = 8;
        while d > 0 && self.slots[d - 1] == 0
            invariant
                d <= 8,
                forall|i: int| d <= i < 8 ==> self.slots@[i] == 0,
            decreases d,
        {
            d -= 1;
        }
        proof {
            let q = self.slots@.take(d as int);
            lemma_trim_padded(self.slots@, q);
            lemma_trim_nonzero_last(q);
        }
        d
    }

    /// True for the root.
    pub fn is_root(&self) -> (b: bool)
        ensures
            b == (self@.len() == 0),
    {
        self.depth() == 0
    }

    /// The slot at `i`; zero from the depth on.
    pub fn get(&self, i: usize) -> (k: u16)
        requires
            i < 8,
        ensures
            k == if i < self@.len() { self@[i as int] } else { 0 },
    {
        proof {
            self.lemma_holds_view();
        }
        self.slots[i]
    }

    /// Appends `k` to the path. Appending zero leaves the path as it is.
    pub fn push(&mut self, k: u16)
        requires
            old(self)@.len() < 8,
        ensures
            final(self)@ == trim(old(self)@.push(k)),
            k != 0 ==> final(self)@ == old(self)@.push(k),
    {
        let d = self.depth();
        proof {
            self.lemma_holds_view();
        }
        self.slots[d] = k;
        proof {
            self.lemma_view_of_holds(old(self)@.push(k));
            if k != 0 {
                lemma_trim_nonzero_last(old(self)@.push(k));
            }
        }
    }

    /// Appends `k` where the path has room for it and `k` fits in a slot.
    pub fn checked_push(&self, k: usize) -> (r: Option<SubIndex>)
        ensures
            (k == 0 || (self@.len() < 8 && k <= u16::MAX)) <==> r is Some,
            r matches Some(s) ==> s@ == trim(self@.push(k as u16)),
    {
        if k == 0 {
            proof {
                lemma_trim(self.slots@);
                assert(self@.push(0u16).drop_last() =~= self@);
            }
            Some(*self)
        } else if self.depth() < 8 && k <= 0xffff {
            let mut s = *self;
            s.push(k as u16);
            Some(s)
        } else {
            None
        }
    }

    /// Puts `k` at position `i` and moves what stood there, and after it, one
    /// slot up.
    pub fn insert(&mut self, i: usize, k: u16)
        requires
            old(self)@.len() < 8,
            i <= old(self)@.len(),
        ensures
            final(self)@ == trim(old(self)@.insert(i as int, k)),
    {
        let d = self.depth();
        proof {
            self.lemma_holds_view();
        }
        let ghost q = old(self)@.insert(i as int, k);
        let mut j: usize = d;
        while j > i
            invariant
                i <= j <= d,
                d == old(self)@.len(),
                d < 8,
                old(self).holds(old(self)@),
                q == old(self)@.insert(i as int, k),
                forall|m: int| 0 <= m <= j ==> self.slots@[m] == old(self).slots@[m],
                forall|m: int| j < m <= d ==> self.slots@[m] == q[m],
                forall|m: int| d < m < 8 ==> self.slots@[m] == 0,
            decreases j,
        {
            self.slots[j] = self.slots[j - 1];
            j -= 1;
        }
        self.slots[i] = k;
        proof {
            self.lemma_view_of_holds(q);
        }
    }

    /// Takes the slot at position `i` out, moves what stood after it one slot
    /// down, and returns what was taken.
    pub fn remove(&mut self, i: usize) -> (k: u16)
        requires
            i < old(self)@.len(),
        ensures
            k == old(self)@[i as int],
            final(self)@ == trim(old(self)@.remove(i as int)),
    {
        let d = self.depth();
        proof {
            self.lemma_holds_view();
        }
        let k = self.slots[i];
        let ghost q = old(self)@.remove(i as int);
        let mut j: usize = i;
        while j + 1 < d
            invariant
                i <= j < d,
                d == old(self)@.len(),
                d <= 8,
                old(self).holds(old(self)@),
                q == old(self)@.remove(i as int),
                forall|m: int| 0 <= m < j ==> self.slots@[m] == q[m],
                forall|m: int| j <= m < 8 ==> self.slots@[m] == old(self).slots@[m],
            decreases d - j,
        {
            self.slots[j] = self.slots[j + 1];
            j += 1;
        }
        self.slots[d - 1] = 0;
        proof {
            self.lemma_view_of_holds(q);
        }
        k
    }

    /// All strict ancestors of the path, the nearest first and the root last.
    pub fn parents(&self) -> (r: Vec<SubIndex>)
        ensures
            r.len() == self@.len(),
            forall|j: int|
                0 <= j < r.len() ==> (#[trigger] r[j])@ == trim(
                    self@.take(self@.len() - 1 - j),
                ),
    {
        let d = self.depth();
        proof {
            self.lemma_holds_view();
        }
        let mut r: Vec<SubIndex> = Vec::new();
        let mut cur = *self;
        let mut j: usize = 0;
        while j < d
            invariant
                j <= d,
                d == self@.len(),
                d <= 8,
                self.holds(self@),
                cur.holds(self@.take(d - j)),
                r.len() == j,
                forall|m: int|
                    0 <= m < j ==> (#[trigger] r[m])@ == trim(self@.take(self@.len() - 1 - m)),
            decreases d - j,
        {
            cur.slots[d - 1 - j] = 0;
            proof {
                cur.lemma_view_of_holds(self@.take(d - 1 - j));
            }
            r.push(cur);
            j += 1;
        }
        r
    }

    /// The path of `self` followed by the path of `other`.
    pub fn concat(&self, other: &SubIndex) -> (r: SubIndex)
        requires
            self@.len() + other@.len() <= 8,
        ensures
            r@ == self@ + other@,
            r@.len() == self@.len() + other@.len(),
    {
        let d = self.depth();
        let e = other.depth();
        proof {
            self.lemma_holds_view();
            other.lemma_holds_view();
        }
        let mut r = *self;
        let mut j: usize = 0;
        while j < e
            invariant
                j <= e,
                d + e <= 8,
                d == self@.len(),
                e == other@.len(),
                other.holds(other@),
                r.holds(self@ + other@.take(j as int)),
            decreases e - j,
        {
            r.slots[d + j] = other.slots[j];
            proof {
                let q0 = self@ + other@.take(j as int);
                let q1 = self@ + other@.take(j + 1);
                assert forall|i: int| 0 <= i < q1.len() implies r.slots@[i] == q1[i] by {
                    if i < d + j {
                        assert(q0[i] == q1[i]);
                    }
                }
            }
            j += 1;
        }
        proof {
            assert(other@.take(e as int) =~= other@);
            r.lemma_view_of_holds(self@ + other@);
            lemma_trim_nonzero_last(self@ + other@);
        }
        r
    }

    /// The slots as one number: slot `i` in bits `16 * i` to `16 * i + 15`.
    pub fn to_u128(&self) -> (x: u128)
        ensures
            x == pack(self.slots@),
    {
        (self.slots[0] as u128) | ((self.slots[1] as u128) << 16) | ((self.slots[2] as u128) << 32)
            | ((self.slots[3] as u128) << 48) | ((self.slots[4] as u128) << 64) | ((
        self.slots[5] as u128) << 80) | ((self.slots[6] as u128) << 96) | ((self.slots[7] as u128)
            << 112)
    }

    /// The value whose slot `i` is bits `16 * i` to `16 * i + 15` of `x`.
    pub fn from_u128(x: u128) -> (r: SubIndex)
        ensures
            r.slots@ == slots_of(x),
    {
        let r = SubIndex {
            slots: [
                (x & 0xffff) as u16,
                ((x >> 16) & 0xffff) as u16,
                ((x >> 32) & 0xffff) as u16,
                ((x >> 48) & 0xffff) as u16,
                ((x >> 64) & 0xffff) as u16,
                ((x >> 80) & 0xffff) as u16,
                ((x >> 96) & 0xffff) as u16,
                ((x >> 112) & 0xffff) as u16,
            ],
        };
        proof {
            assert(x >> 0 == x) by (bit_vector);
            assert(r.slots@ =~= slots_of(x));
        }
        r
    }

    /// The value that stands for `path`, where its trimmed form has at most
    /// eight numbers and each of them fits in a slot.
    pub fn from_path(path: &Vec<usize>) -> (r: Option<SubIndex>)
        ensures
            r == if path_fits(path@) {
                Some(sub_index_of(narrow(path@)))
            } else {
                None::<SubIndex>
            },
            r matches Some(s) ==> s@ == trim(narrow(path@)),
    {
        let mut n: usize = path.len();
        while n > 0 && path[n - 1] == 0
            invariant
                n <= path.len(),
                forall|i: int| n <= i < path.len() ==> path@[i] == 0,
            decreases n,
        {
            n -= 1;
        }
        let ghost q = path@.map_values(|k: usize| k as u16);
        if n > 8 {
            proof {
                assert(path@[n - 1] != 0);
            }
            return None;
        }
        let mut r = SubIndex { slots: [0u16; 8] };
        let mut j: usize = 0;
        while j < n
            invariant
                j <= n <= 8,
                n <= path.len(),
                q == path@.map_values(|k: usize| k as u16),
                forall|i: int| 0 <= i < j ==> path@[i] <= u16::MAX,
                r.holds(q.take(j as int)),
            decreases n - j,
        {
            if path[j] > 0xffff {
                return None;
            }
            r.slots[j] = path[j] as u16;
            j += 1;
        }
        proof {
            r.lemma_view_of_holds(q.take(n as int));
            lemma_trim_padded(q, q.take(n as int));
            lemma_sub_index_of(q);
        }
        Some(r)
    }

    /// The path as a vector, without the unused slots.
    pub fn to_path(&self) -> (r: Vec<u16>)
        ensures
            r@ == self@,
    {
        let d = self.depth();
        proof {
            self.lemma_holds_view();
        }
        let mut r: Vec<u16> = Vec::new();
        let mut j: usize = 0;
        while j < d
            invariant
                j <= d,
                d == self@.len(),
                d <= 8,
                self.holds(self@),
                r@ == self@.take(j as int),
            decreases d - j,
        {
            r.push(self.slots[j]);
            proof {
                assert(r@ =~= self@.take(j + 1));
            }
            j += 1;
        }
        proof {
            assert(self@.take(d as int) =~= self@);
        }
        r
    }

    /// True where the path of `prefix` is an initial segment of this path and
    /// shorter than it.
    pub fn is_strictly_under(&self, prefix: &SubIndex) -> (b: bool)
        ensures
            b == is_strict_prefix(prefix@, self@),
    {
        let d = self.depth();
        let e = prefix.depth();
        proof {
            self.lemma_holds_view();
            prefix.lemma_holds_view();
        }
        if e >= d {
            return false;
        }
        let mut j: usize = 0;
        while j < e
            invariant
                j <= e < d <= 8,
                d == self@.len(),
                e == prefix@.len(),
                self.holds(self@),
                prefix.holds(prefix@),
                forall|i: int| 0 <= i < j ==> prefix@[i] == self@[i],
            decreases e - j,
        {
            if self.slots[j] != prefix.slots[j] {
                proof {
                    assert(prefix@[j as int] != self@[j as int]);
                }
                return false;
            }
            j += 1;
        }
        true
    }
}

/// `path` with each number cut to sixteen bits.
pub open spec fn narrow(path: Seq<usize>) -> Seq<u16> {
    path.map_values(|k: usize| k as u16)
}

/// The number at position `i` of `path`, and zero past its end.
pub open spec fn slot_at(path: Seq<u16>, i: int) -> u16 {
    if 0 <= i < path.len() {
        path[i]
    } else {
        0
    }
}

/// The value whose slots hold the first eight numbers of `path`.
pub open spec fn sub_index_of(path: Seq<u16>) -> SubIndex {
    SubIndex {
        slots: [
            slot_at(path, 0),
            slot_at(path, 1),
            slot_at(path, 2),
            slot_at(path, 3),
            slot_at(path, 4),
            slot_at(path, 5),
            slot_at(path, 6),
            slot_at(path, 7),
        ],
    }
}

/// The value made from a path of at most eight numbers stands for that
/// path, and it is the only value that does.
pub proof fn lemma_sub_index_of(path: Seq<u16>)
    requires
        forall|i: int| 8 <= i < path.len() ==> path[i] == 0,
    ensures
        sub_index_of(path)@ == trim(path),
        forall|s: SubIndex| s@ == trim(path) ==> s == sub_index_of(path),
{
    let r = sub_index_of(path);
    let head = if path.len() <= 8 {
        path
    } else {
        path.take(8)
    };
    lemma_trim_padded(path, head);
    assert(r.slots@[0] == slot_at(path, 0));
    assert(r.slots@[1] == slot_at(path, 1));
    assert(r.slots@[2] == slot_at(path, 2));
    assert(r.slots@[3] == slot_at(path, 3));
    assert(r.slots@[4] == slot_at(path, 4));
    assert(r.slots@[5] == slot_at(path, 5));
    assert(r.slots@[6] == slot_at(path, 6));
    assert(r.slots@[7] == slot_at(path, 7));
    assert(r.holds(head));
    r.lemma_view_of_holds(head);
    assert forall|s: SubIndex| s@ == trim(path) implies s == sub_index_of(path) by {
        s.lemma_view_injective(r);
    }
}

/// `path` can be held: without its trailing zeros it has at most eight
/// numbers, and each of them fits in sixteen bits.
pub open spec fn path_fits(path: Seq<usize>) -> bool {
    &&& forall|i: int| 8 <= i < path.len() ==> path[i] == 0
    &&& forall|i: int| 0 <= i < path.len() && i < 8 ==> path[i] <= u16::MAX
}

/// The eight slots of `x`, lowest first.
pub open spec fn slots_of(x: u128) -> Seq<u16> {
    Seq::new(8, |i: int| slot_of(x, i as nat))
}

/// Packing the slots of a number gives the number back.
pub proof fn lemma_pack_of_slots(x: u128)
    ensures
        pack(slots_of(x)) == x,
{
    let s = slots_of(x);
    assert(s[0] == ((x >> 0) & 0xffff) as u16);
    assert(s[1] == ((x >> 16) & 0xffff) as u16);
    assert(s[2] == ((x >> 32) & 0xffff) as u16);
    assert(s[3] == ((x >> 48) & 0xffff) as u16);
    assert(s[4] == ((x >> 64) & 0xffff) as u16);
    assert(s[5] == ((x >> 80) & 0xffff) as u16);
    assert(s[6] == ((x >> 96) & 0xffff) as u16);
    assert(s[7] == ((x >> 112) & 0xffff) as u16);
    assert((((x >> 0) & 0xffff) as u16 as u128) | ((((x >> 16) & 0xffff) as u16 as u128) << 16) | ((((x
        >> 32) & 0xffff) as u16 as u128) << 32) | ((((x >> 48) & 0xffff) as u16 as u128) << 48) | ((((x
        >> 64) & 0xffff) as u16 as u128) << 64) | ((((x >> 80) & 0xffff) as u16 as u128) << 80) | ((((x
        >> 96) & 0xffff) as u16 as u128) << 96) | ((((x >> 112) & 0xffff) as u16 as u128) << 112)
        == x) by (bit_vector);
}

/// The slots of a packed number are the slots that were packed.
pub proof fn lemma_slots_of_pack(s: Seq<u16>)
    requires
        s.len() == 8,
    ensures
        slots_of(pack(s)) == s,
{
    let a0 = s[0];
    let a1 = s[1];
    let a2 = s[2];
    let a3 = s[3];
    let a4 = s[4];
    let a5 = s[5];
    let a6 = s[6];
    let a7 = s[7];
    let x = pack(s);
    assert(((((a0 as u128) | ((a1 as u128) << 16) | ((a2 as u128) << 32) | ((a3 as u128) << 48) | ((
    a4 as u128) << 64) | ((a5 as u128) << 80) | ((a6 as u128) << 96) | ((a7 as u128) << 112)) >> 0)
        & 0xffff) as u16 == a0) by (bit_vector);
    assert(((((a0 as u128) | ((a1 as u128) << 16) | ((a2 as u128) << 32) | ((a3 as u128) << 48) | ((
    a4 as u128) << 64) | ((a5 as u128) << 80) | ((a6 as u128) << 96) | ((a7 as u128) << 112)) >> 16)
        & 0xffff) as u16 == a1) by (bit_vector);
    assert(((((a0 as u128) | ((a1 as u128) << 16) | ((a2 as u128) << 32) | ((a3 as u128) << 48) | ((
    a4 as u128) << 64) | ((a5 as u128) << 80) | ((a6 as u128) << 96) | ((a7 as u128) << 112)) >> 32)
        & 0xffff) as u16 == a2) by (bit_vector);
    assert(((((a0 as u128) | ((a1 as u128) << 16) | ((a2 as u128) << 32) | ((a3 as u128) << 48) | ((
    a4 as u128) << 64) | ((a5 as u128) << 80) | ((a6 as u128) << 96) | ((a7 as u128) << 112)) >> 48)
        & 0xffff) as u16 == a3) by (bit_vector);
    assert(((((a0 as u128) | ((a1 as u128) << 16) | ((a2 as u128) << 32) | ((a3 as u128) << 48) | ((
    a4 as u128) << 64) | ((a5 as u128) << 80) | ((a6 as u128) << 96) | ((a7 as u128) << 112)) >> 64)
        & 0xffff) as u16 == a4) by (bit_vector);
    assert(((((a0 as u128) | ((a1 as u128) << 16) | ((a2 as u128) << 32) | ((a3 as u128) << 48) | ((
    a4 as u128) << 64) | ((a5 as u128) << 80) | ((a6 as u128) << 96) | ((a7 as u128) << 112)) >> 80)
        & 0xffff) as u16 == a5) by (bit_vector);
    assert(((((a0 as u128) | ((a1 as u128) << 16) | ((a2 as u128) << 32) | ((a3 as u128) << 48) | ((
    a4 as u128) << 64) | ((a5 as u128) << 80) | ((a6 as u128) << 96) | ((a7 as u128) << 112)) >> 96)
        & 0xffff) as u16 == a6) by (bit_vector);
    assert(((((a0 as u128) | ((a1 as u128) << 16) | ((a2 as u128) << 32) | ((a3 as u128) << 48) | ((
    a4 as u128) << 64) | ((a5 as u128) << 80) | ((a6 as u128) << 96) | ((a7 as u128) << 112)) >> 112)
        & 0xffff) as u16 == a7) by (bit_vector);
    assert(slots_of(x) =~= s);
}

/// Turning a path into its number and the number back into slots gives the
/// slots of the path.
pub proof fn law_sub_index_round_trip(a: SubIndex)
    ensures
        slots_of(pack(a.slots@)) == a.slots@,
{
    lemma_slots_of_pack(a.slots@);
}

/// Turning a number into slots and the slots back into a number gives the
/// number.
pub proof fn law_number_round_trip(x: u128)
    ensures
        pack(slots_of(x)) == x,
{
    lemma_pack_of_slots(x);
}

/// A path made of the path of `a` followed by the path of `b` is as deep as
/// `a` without its trailing zeros and `b` together.
pub proof fn law_concat_depth(a: SubIndex, b: SubIndex, c: SubIndex)
    requires
        c@ == a@ + b@,
    ensures
        c@.len() == trim(a.slots@).len() + b@.len(),
{
}

} // verus!
