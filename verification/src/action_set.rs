//! A set of actions over the fixed universe of the catalog, held as one bit
//! per action.

use crate::actions::Action;
use crate::intrinsics::{bit_is_set, count_below, count_set, low_mask, lemma_masked_count};
use vstd::prelude::*;

verus! {

/// The members of the catalog whose position is below `k` and whose bit is set
/// in `bits`.
pub open spec fn members_below(bits: u64, k: nat) -> Set<Action> {
    Set::new(|a: Action| a.spec_index() < k && bit_is_set(bits, a.spec_index()))
}

/// There are as many members below a position as there are set bits below it.
pub proof fn lemma_members_below_len(bits: u64, k: nat)
    requires
        k <= 33,
    ensures
        members_below(bits, k).finite(),
        members_below(bits, k).len() == count_below(bits, k),
    decreases k,
{
    if k == 0 {
        assert(members_below(bits, 0) =~= Set::<Action>::empty());
    } else {
        let j = (k - 1) as nat;
        lemma_members_below_len(bits, j);
        Action::lemma_from_index(j);
        let a = Action::spec_from_index(j)->0;
        if bit_is_set(bits, j) {
            assert forall|b: Action| #[trigger]
                members_below(bits, k).contains(b) == members_below(bits, j).insert(a).contains(
                    b,
                ) by {
                b.lemma_index_roundtrip();
            }
            assert(members_below(bits, k) =~= members_below(bits, j).insert(a));
        } else {
            assert forall|b: Action| #[trigger]
                members_below(bits, k).contains(b) == members_below(bits, j).contains(b) by {
                b.lemma_index_roundtrip();
            }
            assert(members_below(bits, k) =~= members_below(bits, j));
        }
    }
}

/// `SmallRng` of rand: a small, fast generator of random numbers. Nothing of
/// its state is known here; it is only handed on to the calls that draw from
/// it.
#[verifier::external_type_specification]
#[verifier::external_body]
pub struct ExSmallRng(rand::rngs::SmallRng);

/// A set of actions whose members can be reached by their rank: the number of
/// members that stand before them in the catalog.
pub trait BitFlagNth: Sized {
    /// The members of the set.
    spec fn members(&self) -> Set<Action>;

    /// The number of members of the set that stand before `action` in the
    /// catalog.
    open spec fn rank(&self, action: Action) -> nat {
        self.members().filter(|b: Action| b.spec_index() < action.spec_index()).len()
    }

    /// The member of rank `idx`: the one with exactly `idx` members before it in
    /// the catalog.
    fn nth(&self, idx: u32) -> (r: Action)
        requires
            idx < self.members().len(),
        ensures
            self.members().contains(r),
            self.rank(r) == idx,
    ;
}

/// A set of actions that can be filtered and drawn from at random.
pub trait BitFlagExt: BitFlagNth {
    /// Keeps the members for which `f` returns true and removes the others.
    fn keep<F: Fn(Action) -> bool>(&mut self, f: F)
        requires
            forall|a: Action| old(self).members().contains(a) ==> call_requires(f, (a,)),
        ensures
            final(self).members().subset_of(old(self).members()),
            forall|a: Action|
                old(self).members().contains(a) ==> call_ensures(
                    f,
                    (a,),
                    #[trigger] final(self).members().contains(a),
                ),
    ;

    /// A member chosen by the generator, which stays in the set. The set must
    /// not be empty. The generator is asked for a rank below the number of
    /// members, and the member of that rank is returned.
    fn sample(&self, rng: &mut rand::rngs::SmallRng) -> (r: Action)
        requires
            self.members().len() > 0,
        ensures
            self.members().contains(r),
            self.rank(r) < self.members().len(),
    ;

    /// A member chosen by the generator, which is taken out of the set. The
    /// set must not be empty.
    fn pick(&mut self, rng: &mut rand::rngs::SmallRng) -> (r: Action)
        requires
            old(self).members().len() > 0,
        ensures
            old(self).members().contains(r),
            old(self).rank(r) < old(self).members().len(),
            final(self).members() == old(self).members().remove(r),
    ;
}

/// Whether `picked` can be what a run of picks has returned, one after the
/// other, from a set that was `start` before the first pick and is `end`
/// after the last: each pick returned a member of the set as it then was, and
/// took it out.
pub open spec fn is_picked(start: Set<Action>, picked: Seq<Action>, end: Set<Action>) -> bool
    decreases picked.len(),
{
    if picked.len() == 0 {
        end == start
    } else {
        !end.contains(picked.last()) && is_picked(
            start,
            picked.drop_last(),
            end.insert(picked.last()),
        )
    }
}

/// A run of picks goes on by one pick: by an action that was a member, and
/// has left the set.
pub proof fn lemma_pick_extends(
    start: Set<Action>,
    picked: Seq<Action>,
    before: Set<Action>,
    action: Action,
    after: Set<Action>,
)
    requires
        is_picked(start, picked, before),
        before.contains(action),
        after == before.remove(action),
    ensures
        is_picked(start, picked.push(action), after),
{
    assert(picked.push(action).drop_last() =~= picked);
    assert(after.insert(action) =~= before);
}

proof fn lemma_push_contains(s: Seq<Action>, x: Action, a: Action)
    ensures
        s.push(x).contains(a) == (s.contains(a) || a == x),
{
    let longer = s.push(x);
    if s.contains(a) {
        let k = choose|k: int| 0 <= k < s.len() && s[k] == a;
        assert(longer[k] == a);
    }
    if a == x {
        assert(longer[s.len() as int] == a);
    }
    if longer.contains(a) {
        let k = choose|k: int| 0 <= k < longer.len() && longer[k] == a;
        if k < s.len() {
            assert(s[k] == a);
        }
    }
}

/// What a run of picks returns. No action is returned twice, and none that
/// was no member at the start. The members at the start are those returned
/// and those left, and none is both. So as many picks as the set had members
/// return every member once, in some order, and leave the set empty.
pub proof fn lemma_picks_exhaust(start: Set<Action>, picked: Seq<Action>, end: Set<Action>)
    requires
        start.finite(),
        is_picked(start, picked, end),
    ensures
        end.finite(),
        picked.no_duplicates(),
        forall|a: Action| #[trigger] start.contains(a) <==> picked.contains(a) || end.contains(a),
        forall|a: Action| !(#[trigger] picked.contains(a) && end.contains(a)),
        picked.len() + end.len() == start.len(),
        picked.len() == start.len() ==> end == Set::<Action>::empty(),
    decreases picked.len(),
{
    if picked.len() > 0 {
        let last = picked.last();
        let rest = picked.drop_last();
        let middle = end.insert(last);
        lemma_picks_exhaust(start, rest, middle);
        assert(end =~= middle.remove(last));
        assert(picked =~= rest.push(last));
        assert forall|a: Action| #[trigger]
            start.contains(a) <==> picked.contains(a) || end.contains(a) by {
            lemma_push_contains(rest, last, a);
        }
        assert forall|a: Action| !(#[trigger] picked.contains(a) && end.contains(a)) by {
            lemma_push_contains(rest, last, a);
        }
        assert forall|i: int, j: int|
            0 <= i < picked.len() && 0 <= j < picked.len() && i != j implies picked[i]
            != picked[j] by {
            if i < rest.len() && j < rest.len() {
                assert(rest[i] != rest[j]);
            } else if i < rest.len() {
                assert(rest.contains(rest[i]));
            } else {
                assert(rest.contains(rest[j]));
            }
        }
    }
    if end.len() == 0 {
        end.lemma_len0_is_empty();
    }
}

/// A set of actions.
#[derive(Copy, Clone, Debug, PartialEq, Eq, Hash)]
pub struct ActionSet {
    bits: u64,
}

impl View for ActionSet {
    type V = Set<Action>;

    closed spec fn view(&self) -> Set<Action> {
        members_below(self.bits, 33)
    }
}

proof fn lemma_no_bits(i: u64)
    requires
        i < 64,
    ensures
        !bit_is_set(0, i as nat),
{
    assert((0u64 >> i) & 1 == 0) by (bit_vector);
}

proof fn lemma_bit_after_insert(bits: u64, i: u64, j: u64)
    requires
        i < 64,
        j < 64,
    ensures
        bit_is_set(bits | (1u64 << i), j as nat) == (i == j || bit_is_set(bits, j as nat)),
{
    assert((((bits | (1u64 << i)) >> j) & 1 == 1) == (i == j || (bits >> j) & 1 == 1))
        by (bit_vector)
        requires
            i < 64,
            j < 64,
    ;
}

proof fn lemma_bit_after_remove(bits: u64, i: u64, j: u64)
    requires
        i < 64,
        j < 64,
    ensures
        bit_is_set(bits & !(1u64 << i), j as nat) == (i != j && bit_is_set(bits, j as nat)),
{
    assert((((bits & !(1u64 << i)) >> j) & 1 == 1) == (i != j && (bits >> j) & 1 == 1))
        by (bit_vector)
        requires
            i < 64,
            j < 64,
    ;
}

proof fn lemma_catalog_bits_insert(bits: u64, i: u64)
    requires
        i < 33,
        bits & !low_mask(33) == 0,
    ensures
        (bits | (1u64 << i)) & !low_mask(33) == 0,
{
    let m = low_mask(33);
    assert((bits | (1u64 << i)) & !m == 0) by (bit_vector)
        requires
            i < 33,
            bits & !m == 0,
            m == !(0xffff_ffff_ffff_ffffu64 << 33),
    ;
}

proof fn lemma_catalog_bits_remove(bits: u64, i: u64)
    requires
        i < 64,
        bits & !low_mask(33) == 0,
    ensures
        (bits & !(1u64 << i)) & !low_mask(33) == 0,
{
    let m = low_mask(33);
    assert((bits & !(1u64 << i)) & !m == 0) by (bit_vector)
        requires
            i < 64,
            bits & !m == 0,
    ;
}

proof fn lemma_catalog_bits_position(bits: u64, p: u64)
    requires
        p < 64,
        bits & !low_mask(33) == 0,
        bit_is_set(bits, p as nat),
    ensures
        p < 33,
{
    let m = low_mask(33);
    assert(p < 33) by (bit_vector)
        requires
            p < 64,
            bits & !m == 0,
            (bits >> p) & 1 == 1,
            m == !(0xffff_ffff_ffff_ffffu64 << 33),
    ;
}

proof fn lemma_catalog_bits_count(bits: u64)
    requires
        bits & !low_mask(33) == 0,
    ensures
        count_set(bits) == count_below(bits, 33),
{
    let m = low_mask(33);
    assert(bits & m == bits) by (bit_vector)
        requires
            bits & !m == 0,
    ;
    lemma_masked_count(bits, 33);
}

impl ActionSet {
    #[verifier::type_invariant]
    spec fn only_catalog_bits(self) -> bool {
        self.bits & !low_mask(33) == 0
    }

    /// The empty set.
    pub fn new() -> (r: Self)
        ensures
            r@ == Set::<Action>::empty(),
    {
        assert(0u64 & !low_mask(33) == 0) by (bit_vector);
        let r = ActionSet { bits: 0 };
        proof {
            assert forall|a: Action| !#[trigger] r@.contains(a) by {
                a.lemma_index_roundtrip();
                lemma_no_bits(a.spec_index() as u64);
            }
            assert(r@ =~= Set::<Action>::empty());
        }
        r
    }

    /// Whether `action` is a member.
    pub fn contains(&self, action: Action) -> (r: bool)
        ensures
            r == self@.contains(action),
    {
        let i = action.index();
        (self.bits >> i) & 1 == 1
    }

    /// Adds `action` to the set.
    pub fn insert(&mut self, action: Action)
        ensures
            final(self)@ == old(self)@.insert(action),
    {
        proof {
            use_type_invariant(&*self);
        }
        let i = action.index();
        let bits = self.bits | (1u64 << i);
        proof {
            lemma_catalog_bits_insert(self.bits, i as u64);
            assert forall|a: Action|
                members_below(bits, 33).contains(a) == #[trigger] self@.insert(action).contains(
                    a,
                ) by {
                a.lemma_index_roundtrip();
                lemma_bit_after_insert(self.bits, i as u64, a.spec_index() as u64);
            }
            assert(members_below(bits, 33) =~= self@.insert(action));
        }
        self.bits = bits;
    }

    /// Takes `action` out of the set.
    pub fn remove(&mut self, action: Action)
        ensures
            final(self)@ == old(self)@.remove(action),
    {
        proof {
            use_type_invariant(&*self);
        }
        let i = action.index();
        let bits = self.bits & !(1u64 << i);
        proof {
            lemma_catalog_bits_remove(self.bits, i as u64);
            assert forall|a: Action|
                members_below(bits, 33).contains(a) == #[trigger] self@.remove(action).contains(
                    a,
                ) by {
                a.lemma_index_roundtrip();
                lemma_bit_after_remove(self.bits, i as u64, a.spec_index() as u64);
            }
            assert(members_below(bits, 33) =~= self@.remove(action));
        }
        self.bits = bits;
    }

    /// The number of members.
    pub fn len(&self) -> (r: usize)
        ensures
            self@.finite(),
            r == self@.len(),
            r <= 33,
    {
        proof {
            use_type_invariant(self);
            lemma_catalog_bits_count(self.bits);
            lemma_members_below_len(self.bits, 33);
            crate::intrinsics::lemma_count_below_bounds(self.bits, 0, 33);
        }
        self.bits.count_ones() as usize
    }

    /// Whether the set has no member.
    pub fn is_empty(&self) -> (r: bool)
        ensures
            r == (self@ == Set::<Action>::empty()),
            r == (self@.len() == 0),
    {
        let n = self.len();
        proof {
            if n == 0 {
                self@.lemma_len0_is_empty();
                assert(self@ =~= Set::<Action>::empty());
            }
        }
        n == 0
    }
}

/// `Rng::gen_range` of rand on a `SmallRng`, over the half-open range from zero
/// to `bound`: the number that comes back lies in that range. Which one it is
/// depends on the generator's state, of which nothing is said. An empty range
/// makes the outside function panic, so it is left out.
#[verifier::external_body]
fn random_below(rng: &mut rand::rngs::SmallRng, bound: usize) -> (r: usize)
    requires
        bound > 0,
    ensures
        r < bound,
{
    rand::Rng::gen_range(rng, 0..bound)
}

impl ActionSet {
    proof fn lemma_rank_is_count(self, action: Action)
        ensures
            self.rank(action) == count_below(self.bits, action.spec_index()),
            self@.len() == count_below(self.bits, 33),
            self@.finite(),
    {
        action.lemma_index_roundtrip();
        let k = action.spec_index();
        lemma_members_below_len(self.bits, k);
        lemma_members_below_len(self.bits, 33);
        assert(self@.filter(|b: Action| b.spec_index() < action.spec_index()) =~= members_below(
            self.bits,
            k,
        ));
    }

    /// A set of actions is finite, and it is empty just when it has no member
    /// to count.
    pub proof fn lemma_empty_is_len_zero(self)
        ensures
            self@.finite(),
            (self@.len() == 0) == (self@ == Set::<Action>::empty()),
    {
        lemma_members_below_len(self.bits, 33);
        if self@.len() == 0 {
            self@.lemma_len0_is_empty();
        }
    }

    /// A member's rank is below the number of members.
    pub proof fn lemma_rank_in_range(self, action: Action)
        requires
            self@.contains(action),
        ensures
            self.rank(action) < self@.len(),
    {
        self.lemma_rank_is_count(action);
        action.lemma_index_roundtrip();
        crate::intrinsics::lemma_count_below_bounds(self.bits, action.spec_index() + 1, 33);
    }

    /// No two members have the same rank.
    pub proof fn lemma_rank_injective(self, a: Action, b: Action)
        requires
            self@.contains(a),
            self@.contains(b),
            self.rank(a) == self.rank(b),
        ensures
            a == b,
    {
        self.lemma_rank_is_count(a);
        self.lemma_rank_is_count(b);
        crate::intrinsics::lemma_nth_set_bit_unique(
            self.bits,
            self.rank(a),
            a.spec_index(),
            b.spec_index(),
        );
        a.lemma_index_roundtrip();
        b.lemma_index_roundtrip();
    }

}

impl BitFlagNth for ActionSet {
    open spec fn members(&self) -> Set<Action> {
        self@
    }

    fn nth(&self, idx: u32) -> (r: Action) {
        proof {
            use_type_invariant(self);
            lemma_catalog_bits_count(self.bits);
            lemma_members_below_len(self.bits, 33);
        }
        let position = crate::intrinsics::nth_bit_set_64(self.bits, idx);
        proof {
            lemma_catalog_bits_position(self.bits, position as u64);
        }
        let found = Action::from_index(position);
        let action = found.unwrap();
        proof {
            self.lemma_rank_is_count(action);
        }
        action
    }

}

impl BitFlagExt for ActionSet {
    fn keep<F: Fn(Action) -> bool>(&mut self, f: F) {
        let ghost before = self@;
        assert(before == self.members());
        let mut i: u32 = 0;
        while i < 33
            invariant
                i <= 33,
                self@.subset_of(before),
                forall|a: Action| before.contains(a) ==> call_requires(f, (a,)),
                forall|a: Action|
                    before.contains(a) && a.spec_index() < i ==> call_ensures(
                        f,
                        (a,),
                        #[trigger] self@.contains(a),
                    ),
                forall|a: Action|
                    a.spec_index() >= i ==> #[trigger] self@.contains(a) == before.contains(a),
            decreases 33 - i,
        {
            let found = Action::from_index(i);
            let action = found.unwrap();
            if self.contains(action) {
                let stays = f(action);
                if !stays {
                    self.remove(action);
                }
            }
            i += 1;
        }
        proof {
            assert forall|a: Action| before.contains(a) implies call_ensures(
                f,
                (a,),
                #[trigger] self@.contains(a),
            ) by {
                a.lemma_index_roundtrip();
            }
        }
    }

    fn sample(&self, rng: &mut rand::rngs::SmallRng) -> (r: Action) {
        let n = self.len();
        let idx = random_below(rng, n);
        self.nth(idx as u32)
    }

    fn pick(&mut self, rng: &mut rand::rngs::SmallRng) -> (r: Action) {
        let r = self.sample(rng);
        self.remove(r);
        r
    }
}

impl Default for ActionSet {
    fn default() -> (r: Self)
        ensures
            r@ == Set::<Action>::empty(),
    {
        ActionSet::new()
    }
}

} // verus!
