//! What the pools of bullets, enemies and particles share: every record has
//! an identity that no operation changes, and a pool is a set of lists
//! over which the identities `0 .. capacity` are spread, each held once.

use vstd::multiset::*;
use vstd::prelude::*;
use vstd::seq_lib::*;

verus! {

/// A record that a pool recycles.
pub trait Pooled: Sized {
    /// The identity of the record. It is given when the pool is filled and
    /// stays with the record for good.
    spec fn ident(&self) -> nat;

    /// Whether the record takes part in the simulation.
    spec fn live(&self) -> bool;

    /// Whether every field but the identity has the value that a new
    /// record has.
    spec fn blank(&self) -> bool;

    fn is_live(&self) -> (live: bool)
        ensures
            live == self.live(),
    ;

    /// Brings the record back to the state of a new one.
    fn release(&mut self)
        ensures
            final(self).ident() == old(self).ident(),
            final(self).blank(),
            !final(self).live(),
    ;
}

/// The identities of the records of a list, in order.
pub open spec fn idents<E: Pooled>(s: Seq<E>) -> Seq<nat> {
    Seq::new(s.len(), |i: int| s[i].ident())
}

/// The identities of the records of a list, without order.
pub open spec fn bag<E: Pooled>(s: Seq<E>) -> Multiset<nat> {
    idents(s).to_multiset()
}

/// The identities `0 .. n`, each once.
pub open spec fn full_bag(n: nat) -> Multiset<nat> {
    Seq::new(n, |i: int| i as nat).to_multiset()
}

/// The records of `s` that are live, in order.
pub open spec fn survivors<E: Pooled>(s: Seq<E>) -> Seq<E>
    decreases s.len(),
{
    if s.len() == 0 {
        Seq::empty()
    } else if s[0].live() {
        seq![s[0]] + survivors(s.skip(1))
    } else {
        survivors(s.skip(1))
    }
}

/// The identities of the records of `s` that are not live, the last of
/// them first.
pub open spec fn casualties<E: Pooled>(s: Seq<E>) -> Seq<nat>
    decreases s.len(),
{
    if s.len() == 0 {
        Seq::empty()
    } else if s[0].live() {
        casualties(s.skip(1))
    } else {
        casualties(s.skip(1)).push(s[0].ident())
    }
}

pub proof fn lemma_bag_empty<E: Pooled>(s: Seq<E>)
    requires
        s.len() == 0,
    ensures
        bag(s) == Multiset::<nat>::empty(),
{
    broadcast use group_to_multiset_ensures;

    assert(idents(s) == Seq::<nat>::empty());
    assert(bag(s) =~= Multiset::<nat>::empty());
}

pub proof fn lemma_bag_len<E: Pooled>(s: Seq<E>)
    ensures
        bag(s).len() == s.len(),
{
    broadcast use group_to_multiset_ensures;

}

pub proof fn lemma_bag_push<E: Pooled>(s: Seq<E>, e: E)
    ensures
        bag(s.push(e)) == bag(s).insert(e.ident()),
{
    broadcast use group_to_multiset_ensures;

    assert(idents(s.push(e)) == idents(s).push(e.ident()));
}

pub proof fn lemma_bag_remove<E: Pooled>(s: Seq<E>, i: int)
    requires
        0 <= i < s.len(),
    ensures
        bag(s.remove(i)) == bag(s).remove(s[i].ident()),
        bag(s).count(s[i].ident()) > 0,
{
    broadcast use group_to_multiset_ensures;

    assert(idents(s.remove(i)) == idents(s).remove(i));
    assert(idents(s)[i] == s[i].ident());
    assert(idents(s).contains(s[i].ident()));
}

pub proof fn lemma_bag_drop_last<E: Pooled>(s: Seq<E>)
    requires
        s.len() > 0,
    ensures
        bag(s.drop_last()) == bag(s).remove(s.last().ident()),
        bag(s).count(s.last().ident()) > 0,
{
    assert(s.drop_last() == s.remove(s.len() - 1));
    lemma_bag_remove(s, s.len() - 1);
}

/// Changing a record in place leaves the identities as they are.
pub proof fn lemma_bag_update<E: Pooled>(s: Seq<E>, i: int, e: E)
    requires
        0 <= i < s.len(),
        e.ident() == s[i].ident(),
    ensures
        idents(s.update(i, e)) == idents(s),
        bag(s.update(i, e)) == bag(s),
{
    assert(idents(s.update(i, e)) == idents(s));
}

/// A list holds what its two parts hold.
pub proof fn lemma_bag_split<E: Pooled>(s: Seq<E>, k: int)
    requires
        0 <= k <= s.len(),
    ensures
        bag(s) == bag(s.subrange(0, k)).add(bag(s.subrange(k, s.len() as int))),
{
    let a = idents(s.subrange(0, k));
    let b = idents(s.subrange(k, s.len() as int));
    assert(idents(s) == a + b);
    vstd::seq_lib::lemma_multiset_commutative(a, b);
}

pub proof fn lemma_full_bag(n: nat)
    ensures
        full_bag(n).len() == n,
        forall|x: nat| full_bag(n).count(x) == if x < n { 1nat } else { 0nat },
{
    broadcast use group_to_multiset_ensures;

    let s = Seq::new(n, |i: int| i as nat);
    assert(s.no_duplicates());
    s.lemma_multiset_has_no_duplicates();
    assert forall|x: nat| full_bag(n).count(x) == if x < n { 1nat } else { 0nat } by {
        if x < n {
            assert(s[x as int] == x);
            assert(s.contains(x));
        } else {
            assert(!s.contains(x));
        }
    }
}

pub proof fn lemma_full_bag_grow(n: nat)
    ensures
        full_bag(n + 1) == full_bag(n).insert(n),
{
    broadcast use group_to_multiset_ensures;

    assert(Seq::new(n + 1, |i: int| i as nat) == Seq::new(n, |i: int| i as nat).push(n));
}

/// Moves every record of `active` that is no longer live to the end of
/// `inactive`, the one with the highest index first, and brings each back to
/// the state of a new record. The records that stay keep their order.
pub fn release_inactive<E: Pooled>(active: &mut Vec<E>, inactive: &mut Vec<E>)
    ensures
        final(active)@ == survivors(old(active)@),
        idents(final(inactive)@) == idents(old(inactive)@) + casualties(old(active)@),
        final(inactive)@.subrange(0, old(inactive)@.len() as int) == old(inactive)@,
        forall|k: int|
            old(inactive)@.len() <= k < final(inactive)@.len() ==> (#[trigger] final(inactive)@[k]).blank(),
        bag(final(active)@).add(bag(final(inactive)@)) == bag(old(active)@).add(
            bag(old(inactive)@),
        ),
{
    let ghost before = active@;
    let ghost kept = inactive@;
    let n: usize = active.len();
    let mut i: usize = n;
    proof {
        assert(before.subrange(n as int, n as int) == Seq::<E>::empty());
        assert(before.subrange(0, n as int) + Seq::<E>::empty() == before);
        assert(idents(kept) + Seq::<nat>::empty() == idents(kept));
        assert(inactive@.subrange(0, kept.len() as int) == kept);
    }
    while i > 0
        invariant
            i <= n,
            n == before.len(),
            active@ == before.subrange(0, i as int) + survivors(before.subrange(i as int, n as int)),
            idents(inactive@) == idents(kept) + casualties(before.subrange(i as int, n as int)),
            inactive@.len() >= kept.len(),
            inactive@.subrange(0, kept.len() as int) == kept,
            forall|k: int| kept.len() <= k < inactive@.len() ==> (#[trigger] inactive@[k]).blank(),
            bag(active@).add(bag(inactive@)) == bag(before).add(bag(kept)),
        decreases i,
    {
        let ghost tail = before.subrange(i as int, n as int);
        i -= 1;
        let ghost longer = before.subrange(i as int, n as int);
        let ghost active_before = active@;
        let ghost inactive_before = inactive@;
        proof {
            assert(longer.skip(1) == tail);
            assert(longer[0] == before[i as int]);
            assert(active@[i as int] == before[i as int]);
        }
        if !active[i].is_live() {
            let mut e = active.remove(i);
            e.release();
            inactive.push(e);
            proof {
                assert(active@ == before.subrange(0, i as int) + survivors(longer));
                lemma_bag_remove(active_before, i as int);
                lemma_bag_push(inactive_before, e);
                assert(idents(inactive@) == idents(inactive_before).push(e.ident()));
                assert(idents(inactive@) == idents(kept) + casualties(longer));
                assert(bag(active@).add(bag(inactive@)) =~= bag(active_before).add(
                    bag(inactive_before),
                ));
                assert(inactive@.subrange(0, kept.len() as int) == kept);
            }
        } else {
            proof {
                assert(before.subrange(0, i as int + 1) == before.subrange(0, i as int).push(
                    before[i as int],
                ));
                assert(active@ == before.subrange(0, i as int) + survivors(longer));
            }
        }
    }
    proof {
        assert(before.subrange(0, n as int) == before);
        assert(before.subrange(0, 0) + survivors(before) == survivors(before));
    }
}

/// Every survivor is live.
pub proof fn lemma_survivors_live<E: Pooled>(s: Seq<E>)
    ensures
        forall|k: int| 0 <= k < survivors(s).len() ==> (#[trigger] survivors(s)[k]).live(),
        survivors(s).len() <= s.len(),
    decreases s.len(),
{
    if s.len() > 0 {
        lemma_survivors_live(s.skip(1));
    }
}

} // verus!
