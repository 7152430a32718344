use vstd::prelude::*;

verus! {

/// An unsigned integer that can back a set of bit flags. Its value is seen
/// through `bits`, widened to 64 bits.
pub trait SuitableNumber: Sized + Copy {
    spec fn bits(self) -> u64;

    fn zero() -> (r: Self)
        ensures
            r.bits() == 0,
    ;

    fn bit_or(self, o: Self) -> (r: Self)
        ensures
            r.bits() == self.bits() | o.bits(),
    ;

    fn bit_and_not(self, o: Self) -> (r: Self)
        ensures
            r.bits() == self.bits() & !o.bits(),
    ;

    fn overlaps(self, o: Self) -> (r: bool)
        ensures
            r == (self.bits() & o.bits() != 0),
    ;
}

impl SuitableNumber for u16 {
    open spec fn bits(self) -> u64 {
        self as u64
    }

    fn zero() -> (r: u16) {
        0
    }

    fn bit_or(self, o: u16) -> (r: u16) {
        let r = self | o;
        assert(r as u64 == (self as u64) | (o as u64)) by (bit_vector)
            requires
                r == self | o,
        ;
        r
    }

    fn bit_and_not(self, o: u16) -> (r: u16) {
        let r = self & !o;
        assert(r as u64 == (self as u64) & !(o as u64)) by (bit_vector)
            requires
                r == self & !o,
        ;
        r
    }

    fn overlaps(self, o: u16) -> (r: bool) {
        let r = self & o;
        assert((r == 0) == ((self as u64) & (o as u64) == 0)) by (bit_vector)
            requires
                r == self & o,
        ;
        r != 0
    }
}

impl SuitableNumber for u32 {
    open spec fn bits(self) -> u64 {
        self as u64
    }

    fn zero() -> (r: u32) {
        0
    }

    fn bit_or(self, o: u32) -> (r: u32) {
        let r = self | o;
        assert(r as u64 == (self as u64) | (o as u64)) by (bit_vector)
            requires
                r == self | o,
        ;
        r
    }

    fn bit_and_not(self, o: u32) -> (r: u32) {
        let r = self & !o;
        assert(r as u64 == (self as u64) & !(o as u64)) by (bit_vector)
            requires
                r == self & !o,
        ;
        r
    }

    fn overlaps(self, o: u32) -> (r: bool) {
        let r = self & o;
        assert((r == 0) == ((self as u64) & (o as u64) == 0)) by (bit_vector)
            requires
                r == self & o,
        ;
        r != 0
    }
}

/// A closed enumeration of flags, each standing for a non-zero pattern of
/// bits in `T`.
pub trait SuitableEnum<T: SuitableNumber>: Sized + Copy {
    /// The bits of this flag.
    spec fn spec_into(self) -> T;

    /// Every variant, once each, in declaration order.
    spec fn declared() -> Seq<Self>;

    fn into_repr(self) -> (r: T)
        ensures
            r == self.spec_into(),
    ;

    fn variants() -> (r: Vec<Self>)
        ensures
            r@ == Self::declared(),
    ;

    proof fn lemma_declared(k: Self)
        ensures
            Self::declared().contains(k),
            k.spec_into().bits() != 0,
    ;

    proof fn lemma_declared_distinct()
        ensures
            Self::declared().no_duplicates(),
    ;
}

/// A set of flags of the enumeration `K`, stored as the raw bits `T`.
/// Bits that no variant of `K` names are kept but never listed.
#[derive(Debug)]
pub struct EnumSet<K, T> {
    data: T,
    _kind: core::marker::PhantomData<K>,
}

impl<K: SuitableEnum<T>, T: SuitableNumber> EnumSet<K, T> {
    pub closed spec fn raw(self) -> T {
        self.data
    }

    /// The flag `k` is in the set: its bits meet the stored bits.
    pub open spec fn has(self, k: K) -> bool {
        self.raw().bits() & k.spec_into().bits() != 0
    }

    /// The declared flags present, in declaration order.
    pub open spec fn members(self) -> Seq<K> {
        K::declared().filter(|k: K| self.has(k))
    }

    pub fn new() -> (r: Self)
        ensures
            r.raw().bits() == 0,
    {
        EnumSet { data: T::zero(), _kind: core::marker::PhantomData }
    }

    /// Wraps any raw value, unnamed bits included.
    pub fn from_raw(value: T) -> (r: Self)
        ensures
            r.raw() == value,
    {
        EnumSet { data: value, _kind: core::marker::PhantomData }
    }

    pub fn contains(&self, x: K) -> (r: bool)
        ensures
            r == self.has(x),
    {
        self.data.overlaps(x.into_repr())
    }

    pub fn insert(&mut self, x: K)
        ensures
            final(self).raw().bits() == old(self).raw().bits() | x.spec_into().bits(),
    {
        self.data = self.data.bit_or(x.into_repr());
    }

    pub fn remove(&mut self, x: K)
        ensures
            final(self).raw().bits() == old(self).raw().bits() & !x.spec_into().bits(),
    {
        self.data = self.data.bit_and_not(x.into_repr());
    }

    pub fn repr(&self) -> (r: T)
        ensures
            r == self.raw(),
    {
        self.data
    }

    /// The declared flags present, in declaration order.
    pub fn iter(&self) -> (r: Vec<K>)
        ensures
            r@ == self.members(),
    {
        let all = K::variants();
        let mut out: Vec<K> = Vec::new();
        let mut i: usize = 0;
        while i < all.len()
            invariant
                all@ == K::declared(),
                0 <= i <= all.len(),
                out@ == all@.subrange(0, i as int).filter(|k: K| self.has(k)),
            decreases all.len() - i,
        {
            let k = all[i];
            if self.contains(k) {
                out.push(k);
            }
            proof {
                let p = all@.subrange(0, i as int);
                assert(all@.subrange(0, i + 1) == p.push(k));
                p.lemma_filter_push(k, |k: K| self.has(k));
            }
            i = i + 1;
        }
        assert(all@.subrange(0, all.len() as int) == all@);
        out
    }

    /// A cursor over the members, from the first.
    pub fn cursor(&self) -> (r: EnumSetIter<K>)
        ensures
            r.rest() == self.members(),
            r.wf(),
    {
        let items = self.iter();
        let r = EnumSetIter { items, pos: 0 };
        assert(r.rest() =~= self.members());
        r
    }

    /// The union of two sets: every bit of either. Neither input changes.
    pub fn union(&self, other: &Self) -> (r: Self)
        ensures
            r.raw().bits() == self.raw().bits() | other.raw().bits(),
    {
        EnumSet { data: self.data.bit_or(other.data), _kind: core::marker::PhantomData }
    }
}

/// A walk over the members of an `EnumSet`, one call of `next` at a time.
pub struct EnumSetIter<K> {
    items: Vec<K>,
    pos: usize,
}

impl<K: Copy> EnumSetIter<K> {
    /// What the walk has still to yield, in order.
    pub closed spec fn rest(self) -> Seq<K> {
        self.items@.subrange(self.pos as int, self.items@.len() as int)
    }

    pub closed spec fn wf(self) -> bool {
        self.pos <= self.items.len()
    }

    pub fn next(&mut self) -> (r: Option<K>)
        requires
            old(self).wf(),
        ensures
            final(self).wf(),
            old(self).rest().len() == 0 ==> r is None && final(self).rest() == old(self).rest(),
            old(self).rest().len() > 0 ==> r == Some(old(self).rest()[0]) && final(self).rest()
                == old(self).rest().drop_first(),
    {
        if self.pos < self.items.len() {
            let k = self.items[self.pos];
            self.pos = self.pos + 1;
            proof {
                assert(self.rest() =~= old(self).rest().drop_first());
            }
            Some(k)
        } else {
            None
        }
    }
}

/// After `insert(f)`, the set contains `f`.
pub proof fn lemma_insert_contains<K: SuitableEnum<T>, T: SuitableNumber>(
    before: EnumSet<K, T>,
    after: EnumSet<K, T>,
    f: K,
)
    requires
        after.raw().bits() == before.raw().bits() | f.spec_into().bits(),
    ensures
        after.has(f),
{
    K::lemma_declared(f);
    let a = before.raw().bits();
    let x = f.spec_into().bits();
    assert((a | x) & x != 0) by (bit_vector)
        requires
            x != 0,
    ;
}

/// After `remove(f)`, the set does not contain `f`.
pub proof fn lemma_remove_not_contains<K: SuitableEnum<T>, T: SuitableNumber>(
    before: EnumSet<K, T>,
    after: EnumSet<K, T>,
    f: K,
)
    requires
        after.raw().bits() == before.raw().bits() & !f.spec_into().bits(),
    ensures
        !after.has(f),
{
    let a = before.raw().bits();
    let x = f.spec_into().bits();
    assert((a & !x) & x == 0) by (bit_vector);
}

/// The listed members are exactly the declared flags that the set contains,
/// each once; they come in declaration order, being a filter of it.
pub proof fn lemma_members<K: SuitableEnum<T>, T: SuitableNumber>(s: EnumSet<K, T>)
    ensures
        forall|k: K| s.members().contains(k) <==> s.has(k),
        s.members().no_duplicates(),
        s.members() == K::declared().filter(|k: K| s.has(k)),
{
    let pred = |k: K| s.has(k);
    let d = K::declared();
    broadcast use vstd::seq_lib::group_filter_ensures;

    assert forall|k: K| s.members().contains(k) <==> s.has(k) by {
        K::lemma_declared(k);
        if s.has(k) {
            let i = choose|i: int| 0 <= i < d.len() && d[i] == k;
            assert(pred(d[i]));
        }
        if s.members().contains(k) {
            let i = choose|i: int| 0 <= i < s.members().len() && s.members()[i] == k;
            assert(pred(s.members()[i]));
        }
    }
    K::lemma_declared_distinct();
    lemma_filter_no_duplicates(d, pred);
}

proof fn lemma_filter_no_duplicates<A>(s: Seq<A>, p: spec_fn(A) -> bool)
    requires
        s.no_duplicates(),
    ensures
        s.filter(p).no_duplicates(),
    decreases s.len(),
{
    if s.len() > 0 {
        let r = s.drop_last();
        let x = s.last();
        assert(s == r.push(x));
        assert(r.no_duplicates());
        lemma_filter_no_duplicates(r, p);
        r.lemma_filter_push(x, p);
        if p(x) {
            if r.filter(p).contains(x) {
                r.lemma_filter_contains_rev(p, x);
            }
            let f = r.filter(p).push(x);
            assert forall|i: int, j: int| 0 <= i < f.len() && 0 <= j < f.len() && i != j implies f[i]
                != f[j] by {
                if j == f.len() - 1 {
                    if f[i] == f[j] {
                        assert(r.filter(p)[i] == x);
                    }
                } else if i == f.len() - 1 {
                    if f[i] == f[j] {
                        assert(r.filter(p)[j] == x);
                    }
                }
            }
        }
    }
}

/// The union holds a flag exactly when one of its two inputs does.
pub proof fn lemma_union_members<K: SuitableEnum<T>, T: SuitableNumber>(
    a: EnumSet<K, T>,
    b: EnumSet<K, T>,
    u: EnumSet<K, T>,
)
    requires
        u.raw().bits() == a.raw().bits() | b.raw().bits(),
    ensures
        forall|k: K| u.has(k) <==> (a.has(k) || b.has(k)),
{
    assert forall|k: K| u.has(k) <==> (a.has(k) || b.has(k)) by {
        let x = a.raw().bits();
        let y = b.raw().bits();
        let m = k.spec_into().bits();
        assert(((x | y) & m != 0) == (x & m != 0 || y & m != 0)) by (bit_vector);
    }
}

} // verus!
