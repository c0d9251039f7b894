//! Hit records and the ordered collection of them.
//!
//! `hit` picks the first intersection with the smallest non-negative time:
//! the first surface the ray actually reaches. `sort` orders records by
//! non-decreasing time with a stable insertion sort, specified as a function
//! so that everything downstream of it is a function of the scene too.

use crate::primitives::PrimitiveShape;
use vstd::prelude::*;

verus! {

/// One crossing of a ray with a shape, at parameter `time`.
#[derive(Clone, Copy, Debug, PartialEq, Eq, Structural)]
pub struct Intersection {
    pub time: crate::fx::Fx,
    pub object: PrimitiveShape,
}

impl Intersection {
    pub fn new(time: crate::fx::Fx, object: PrimitiveShape) -> (r: Intersection)
        ensures
            r == (Intersection { time, object }),
    {
        Intersection { time, object }
    }
}

/// The sequence `s` is ordered by non-decreasing time.
pub open spec fn sorted_by_time(s: Seq<Intersection>) -> bool {
    forall|i: int, j: int| 0 <= i <= j < s.len() ==> s[i].time@ <= s[j].time@
}

/// `x` placed after every element whose time is at most its own: the stable
/// insertion step.
pub open spec fn insert_sorted(s: Seq<Intersection>, x: Intersection) -> Seq<Intersection>
    decreases s.len(),
{
    if s.len() == 0 {
        seq![x]
    } else if s.last().time@ <= x.time@ {
        s.push(x)
    } else {
        insert_sorted(s.drop_last(), x).push(s.last())
    }
}

/// Stable insertion sort by time.
pub open spec fn sort_spec(s: Seq<Intersection>) -> Seq<Intersection>
    decreases s.len(),
{
    if s.len() == 0 {
        Seq::empty()
    } else {
        insert_sorted(sort_spec(s.drop_last()), s.last())
    }
}

/// The first intersection with the smallest non-negative time, if any.
pub open spec fn hit_spec(s: Seq<Intersection>) -> Option<Intersection>
    decreases s.len(),
{
    if s.len() == 0 {
        Option::None
    } else {
        let rest = hit_spec(s.drop_first());
        if s[0].time@ >= 0 && (rest is None || s[0].time@ <= rest->0.time@) {
            Option::Some(s[0])
        } else {
            rest
        }
    }
}

/// What the hit is: non-negative, minimal among the non-negative times, and
/// the earliest record that attains that minimum; `None` exactly when every
/// time is negative.
pub proof fn lemma_hit_properties(s: Seq<Intersection>)
    ensures
        match hit_spec(s) {
            Option::Some(h) => {
                &&& h.time@ >= 0
                &&& exists|k: int|
                    {
                        &&& 0 <= k < s.len()
                        &&& s[k] == h
                        &&& forall|j: int| 0 <= j < k ==> s[j].time@ < 0 || s[j].time@ > h.time@
                    }
                &&& forall|j: int| 0 <= j < s.len() && s[j].time@ >= 0 ==> h.time@ <= s[j].time@
            },
            Option::None => forall|j: int| 0 <= j < s.len() ==> s[j].time@ < 0,
        },
    decreases s.len(),
{
    if s.len() > 0 {
        lemma_hit_properties(s.drop_first());
        let rest = hit_spec(s.drop_first());
        assert(forall|j: int| 1 <= j < s.len() ==> s[j] == s.drop_first()[j - 1]);
        match hit_spec(s) {
            Option::Some(h) => {
                if s[0].time@ >= 0 && (rest is None || s[0].time@ <= rest->0.time@) {
                    assert(s[0] == h);
                } else {
                    let k0 = choose|k: int|
                        {
                            &&& 0 <= k < s.drop_first().len()
                            &&& s.drop_first()[k] == h
                            &&& forall|j: int|
                                0 <= j < k ==> s.drop_first()[j].time@ < 0
                                    || s.drop_first()[j].time@ > h.time@
                        };
                    assert(s[k0 + 1] == h);
                    assert(s[0].time@ < 0 || s[0].time@ > h.time@);
                    assert(forall|j: int|
                        0 <= j < k0 + 1 ==> s[j].time@ < 0 || s[j].time@ > h.time@);
                }
            },
            Option::None => {},
        }
    }
}

#[derive(Clone, Debug, PartialEq)]
pub struct Intersections {
    pub intersections: Vec<Intersection>,
}

impl View for Intersections {
    type V = Seq<Intersection>;

    open spec fn view(&self) -> Seq<Intersection> {
        self.intersections@
    }
}

impl Intersections {
    pub fn new() -> (r: Intersections)
        ensures
            r@ == Seq::<Intersection>::empty(),
    {
        Intersections { intersections: Vec::new() }
    }

    /// Replace the contents with the given records.
    pub fn with(self, intersections: Vec<Intersection>) -> (r: Intersections)
        ensures
            r@ == intersections@,
    {
        Intersections { intersections }
    }

    pub fn is_empty(&self) -> (r: bool)
        ensures
            r == (self@.len() == 0),
    {
        self.intersections.len() == 0
    }

    pub fn len(&self) -> (r: usize)
        ensures
            r == self@.len(),
    {
        self.intersections.len()
    }

    /// Append every record of `other`.
    #[verifier::loop_isolation(false)]
    pub fn merge(&mut self, other: Intersections)
        ensures
            final(self)@ == old(self)@ + other@,
    {
        let mut other = other;
        let mut rest = Vec::new();
        core::mem::swap(&mut rest, &mut other.intersections);
        let mut i: usize = 0;
        let ghost all = rest@;
        proof {
            assert(old(self)@ + all.take(0) =~= old(self)@);
        }
        while i < rest.len()
            invariant
                i <= rest.len(),
                rest@ == all,
                self.intersections@ == old(self)@ + all.take(i as int),
            decreases rest.len() - i,
        {
            self.intersections.push(rest[i]);
            proof {
                assert(old(self)@ + all.take(i + 1) =~= (old(self)@ + all.take(i as int)).push(
                    all[i as int],
                ));
            }
            i = i + 1;
        }
        proof {
            assert(all.take(all.len() as int) =~= all);
        }
    }

    /// The first intersection with the smallest non-negative time, if any
    /// time is non-negative.
    #[verifier::loop_isolation(false)]
    pub fn hit(&self) -> (r: Option<&Intersection>)
        ensures
            match r {
                Option::Some(i) => hit_spec(self@) == Option::Some(*i),
                Option::None => hit_spec(self@) is None,
            },
    {
        let ghost s = self@;
        let mut best: Option<usize> = None;
        let mut i: usize = self.intersections.len();
        proof {
            assert(s.skip(i as int) =~= Seq::<Intersection>::empty());
        }
        while i > 0
            invariant
                i <= s.len(),
                match best {
                    Option::Some(b) => b < s.len() && hit_spec(s.skip(i as int)) == Option::Some(
                        s[b as int],
                    ),
                    Option::None => hit_spec(s.skip(i as int)) is None,
                },
            decreases i,
        {
            i = i - 1;
            proof {
                assert(s.skip(i as int)[0] == s[i as int]);
                assert(s.skip(i as int).drop_first() =~= s.skip(i + 1));
            }
            let t = self.intersections[i].time;
            if t.raw >= 0 {
                match best {
                    Option::Some(b) => {
                        if t.raw <= self.intersections[b].time.raw {
                            best = Some(i);
                        }
                    },
                    Option::None => {
                        best = Some(i);
                    },
                }
            }
        }
        proof {
            assert(s.skip(0) =~= s);
        }
        match best {
            Option::Some(b) => Some(&self.intersections[b]),
            Option::None => None,
        }
    }

    /// The records ordered by non-decreasing time (stable insertion sort).
    #[verifier::loop_isolation(false)]
    pub fn sort(self) -> (r: Intersections)
        ensures
            r@ == sort_spec(self@),
    {
        let mut v = self.intersections;
        let ghost orig = v@;
        let mut i: usize = 1;
        if v.len() == 0 {
            proof {
                assert(sort_spec(orig) =~= orig);
            }
            return Intersections { intersections: v };
        }
        proof {
            assert(orig.take(1).drop_last() =~= Seq::<Intersection>::empty());
            assert(orig.take(1).last() == orig[0]);
            assert(sort_spec(Seq::<Intersection>::empty()) =~= Seq::<Intersection>::empty());
            assert(insert_sorted(Seq::<Intersection>::empty(), orig[0]) =~= seq![orig[0]]);
            assert(sort_spec(orig.take(1)) =~= seq![orig[0]]);
            assert(v@ =~= sort_spec(orig.take(1)) + orig.skip(1));
        }
        while i < v.len()
            invariant
                1 <= i <= orig.len(),
                v@.len() == orig.len(),
                v@ == sort_spec(orig.take(i as int)) + orig.skip(i as int),
            decreases orig.len() - i,
        {
            let ghost sorted_prefix = sort_spec(orig.take(i as int));
            let ghost x = orig[i as int];
            proof {
                lemma_sort_spec_props(orig.take(i as int));
                assert(orig.skip(i as int)[0] == x);
                assert(v@ =~= sorted_prefix.take(i as int) + seq![x] + sorted_prefix.skip(
                    i as int,
                ) + orig.skip(i + 1));
            }
            let mut j: usize = i;
            while j > 0 && v[j - 1].time.raw > v[j].time.raw
                invariant
                    0 <= j <= i,
                    v@.len() == orig.len(),
                    v@ == sorted_prefix.take(j as int) + seq![x] + sorted_prefix.skip(j as int)
                        + orig.skip(i + 1),
                    forall|k: int|
                        j <= k < sorted_prefix.len() ==> sorted_prefix[k].time@ > x.time@,
                decreases j,
            {
                let ghost before = v@;
                let a = v[j - 1];
                let b = v[j];
                proof {
                    assert(a == sorted_prefix[j - 1]);
                    assert(b == x);
                }
                v.set(j - 1, b);
                v.set(j, a);
                proof {
                    assert(v@ =~= sorted_prefix.take(j - 1) + seq![x] + sorted_prefix.skip(j - 1)
                        + orig.skip(i + 1));
                }
                j = j - 1;
            }
            proof {
                assert(j > 0 ==> sorted_prefix[j - 1] == v@[j - 1]);
                lemma_insert_sorted_at(sorted_prefix, x, j as int);
                assert(orig.take(i + 1).drop_last() =~= orig.take(i as int));
                assert(orig.take(i + 1).last() == x);
                assert(v@ =~= sort_spec(orig.take(i + 1)) + orig.skip(i + 1));
            }
            i = i + 1;
        }
        proof {
            assert(orig.take(orig.len() as int) =~= orig);
            assert(orig.skip(orig.len() as int) =~= Seq::<Intersection>::empty());
            assert(v@ =~= sort_spec(orig));
        }
        Intersections { intersections: v }
    }
}

/// Where the stable insertion lands: before the first kept element whose time
/// exceeds the new one.
proof fn lemma_insert_sorted_at(s: Seq<Intersection>, x: Intersection, j: int)
    requires
        sorted_by_time(s),
        0 <= j <= s.len(),
        forall|k: int| j <= k < s.len() ==> s[k].time@ > x.time@,
        j > 0 ==> s[j - 1].time@ <= x.time@,
    ensures
        insert_sorted(s, x) == s.take(j) + seq![x] + s.skip(j),
    decreases s.len(),
{
    if s.len() == 0 {
        assert(insert_sorted(s, x) =~= s.take(j) + seq![x] + s.skip(j));
    } else if j == s.len() {
        assert(s.last().time@ <= x.time@);
        assert(insert_sorted(s, x) =~= s.take(j) + seq![x] + s.skip(j));
    } else {
        assert(s.last().time@ > x.time@);
        let shorter = s.drop_last();
        assert(forall|k: int| j <= k < shorter.len() ==> shorter[k].time@ > x.time@);
        lemma_insert_sorted_at(shorter, x, j);
        assert(insert_sorted(s, x) == insert_sorted(shorter, x).push(s.last()));
        assert((shorter.take(j) + seq![x] + shorter.skip(j)).push(s.last()) =~= s.take(j) + seq![x]
            + s.skip(j));
    }
}

/// The insertion step keeps sortedness, the multiset, and adds one element.
proof fn lemma_insert_sorted_props(s: Seq<Intersection>, x: Intersection)
    requires
        sorted_by_time(s),
    ensures
        sorted_by_time(insert_sorted(s, x)),
        insert_sorted(s, x).to_multiset() == s.to_multiset().insert(x),
        insert_sorted(s, x).len() == s.len() + 1,
        forall|i: int|
            0 <= i < insert_sorted(s, x).len() ==> insert_sorted(s, x)[i] == x || s.contains(
                #[trigger] insert_sorted(s, x)[i],
            ),
    decreases s.len(),
{
    broadcast use vstd::seq_lib::group_to_multiset_ensures;
    broadcast use vstd::multiset::group_multiset_axioms;

    if s.len() == 0 {
        assert(insert_sorted(s, x) =~= seq![x]);
        assert(seq![x] =~= Seq::<Intersection>::empty().push(x));
        assert(s.to_multiset() =~= vstd::multiset::Multiset::<Intersection>::empty());
    } else if s.last().time@ <= x.time@ {
        assert(forall|i: int| 0 <= i < s.len() ==> s[i].time@ <= x.time@);
    } else {
        let shorter = s.drop_last();
        assert(sorted_by_time(shorter));
        lemma_insert_sorted_props(shorter, x);
        let b = insert_sorted(shorter, x);
        assert(insert_sorted(s, x) == b.push(s.last()));
        assert(forall|i: int| 0 <= i < b.len() ==> b[i].time@ <= s.last().time@) by {
            assert(forall|i: int|
                0 <= i < b.len() ==> b[i] == x || shorter.contains(#[trigger] b[i]));
            assert(forall|k: int| 0 <= k < shorter.len() ==> shorter[k].time@ <= s.last().time@);
        }
        assert(sorted_by_time(b.push(s.last())));
        assert(shorter.push(s.last()) =~= s);
        assert(b.push(s.last()).to_multiset() =~= s.to_multiset().insert(x));
        assert(forall|i: int|
            0 <= i < b.push(s.last()).len() ==> b.push(s.last())[i] == x || s.contains(
                #[trigger] b.push(s.last())[i],
            )) by {
            assert(forall|k: int| 0 <= k < shorter.len() ==> s.contains(shorter[k])) by {
                assert(forall|k: int| 0 <= k < shorter.len() ==> s[k] == shorter[k]);
            }
            assert(s.contains(s.last()));
        }
    }
}

/// Sorting keeps the records: same multiset, same length, and the result is
/// ordered by time.
pub proof fn lemma_sort_spec_props(s: Seq<Intersection>)
    ensures
        sorted_by_time(sort_spec(s)),
        sort_spec(s).to_multiset() == s.to_multiset(),
        sort_spec(s).len() == s.len(),
    decreases s.len(),
{
    broadcast use vstd::seq_lib::group_to_multiset_ensures;
    broadcast use vstd::multiset::group_multiset_axioms;

    if s.len() == 0 {
    } else {
        let shorter = s.drop_last();
        lemma_sort_spec_props(shorter);
        lemma_insert_sorted_props(sort_spec(shorter), s.last());
        assert(shorter.push(s.last()) =~= s);
        assert(sort_spec(s).to_multiset() =~= s.to_multiset());
    }
}

} // verus!
