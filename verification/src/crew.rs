use vstd::prelude::*;
use crate::teams::{TeamBasedValues, TeamType};

verus! {

/// The units a generator or a construction site has been given: those still
/// on their way (`assigned`) and those close enough to work (`working`).
pub struct Crew {
    pub assigned: Vec<u64>,
    pub working: Vec<u64>,
}

/// The positions, in increasing order, of the flags among the first `n` that are set.
pub open spec fn flagged_positions(flags: Seq<bool>, n: nat) -> Seq<int>
    decreases n,
{
    if n == 0 {
        Seq::empty()
    } else {
        let earlier = flagged_positions(flags, (n - 1) as nat);
        if flags[n - 1] {
            earlier.push(n - 1)
        } else {
            earlier
        }
    }
}

/// The entries of `list` at `positions`, in that order.
pub open spec fn entries_at(list: Seq<u64>, positions: Seq<int>) -> Seq<u64> {
    positions.map_values(|p: int| list[p])
}

/// Removes the entry at each of `positions` in turn, each position counted in
/// the list as it stands after the removals before it.
pub open spec fn remove_in_turn(list: Seq<u64>, positions: Seq<int>) -> Seq<u64>
    decreases positions.len(),
{
    if positions.len() == 0 {
        list
    } else {
        remove_in_turn(list, positions.drop_last()).remove(positions.last())
    }
}

/// The removals of `remove_in_turn(list, positions)` all stay within the list.
pub open spec fn removals_in_range(len: nat, positions: Seq<int>) -> bool {
    forall|k: int| 0 <= k < positions.len() ==> 0 <= #[trigger] positions[k] < len - k
}

proof fn lemma_flagged_positions(flags: Seq<bool>, n: nat)
    requires
        n <= flags.len(),
    ensures
        flagged_positions(flags, n).len() <= n,
        forall|k: int|
            0 <= k < flagged_positions(flags, n).len() ==> {
                let p = #[trigger] flagged_positions(flags, n)[k];
                &&& k <= p
                &&& p + (flagged_positions(flags, n).len() - 1 - k) < n
                &&& flags[p]
            },
        forall|i: int, j: int|
            0 <= i < j < flagged_positions(flags, n).len() ==> flagged_positions(flags, n)[i]
                < flagged_positions(flags, n)[j],
    decreases n,
{
    if n > 0 {
        lemma_flagged_positions(flags, (n - 1) as nat);
    }
}

proof fn lemma_remove_in_turn(list: Seq<u64>, positions: Seq<int>, q: int)
    requires
        removals_in_range(list.len(), positions),
        forall|k: int| 0 <= k < positions.len() ==> q < #[trigger] positions[k],
    ensures
        remove_in_turn(list, positions).len() == list.len() - positions.len(),
        forall|i: int| 0 <= i <= q && i < list.len() ==> #[trigger] remove_in_turn(list, positions)[i] == list[i],
    decreases positions.len(),
{
    if positions.len() > 0 {
        let rest = positions.drop_last();
        assert forall|k: int| 0 <= k < rest.len() implies 0 <= #[trigger] rest[k] < list.len() - k by {
            assert(rest[k] == positions[k]);
        }
        assert forall|k: int| 0 <= k < rest.len() implies q < #[trigger] rest[k] by {
            assert(rest[k] == positions[k]);
        }
        lemma_remove_in_turn(list, rest, q);
    }
}

/// An empty sequence holds nothing.
proof fn lemma_empty_to_multiset()
    ensures
        Seq::<u64>::empty().to_multiset() =~= vstd::multiset::Multiset::empty(),
{
    vstd::seq_lib::to_multiset_len(Seq::<u64>::empty());
    vstd::multiset::lemma_multiset_empty_len(Seq::<u64>::empty().to_multiset());
}

/// Removing the entries at increasing `positions` from the last one to the
/// first, and keeping the removed entries aside, loses nothing.
proof fn lemma_remove_backwards_keeps_all(list: Seq<u64>, positions: Seq<int>)
    requires
        forall|k: int| 0 <= k < positions.len() ==> 0 <= #[trigger] positions[k] < list.len() - (positions.len() - 1 - k),
        forall|i: int, j: int| 0 <= i < j < positions.len() ==> positions[i] < positions[j],
    ensures
        remove_in_turn(list, positions.reverse()).to_multiset().add(
            entries_at(list, positions).to_multiset(),
        ) == list.to_multiset(),
    decreases positions.len(),
{
    broadcast use vstd::multiset::group_multiset_axioms, vstd::seq_lib::to_multiset_remove;

    if positions.len() == 0 {
        assert(entries_at(list, positions) =~= Seq::<u64>::empty());
        assert(remove_in_turn(list, positions.reverse()) == list);
        lemma_empty_to_multiset();
        assert(list.to_multiset().add(Seq::<u64>::empty().to_multiset()) =~= list.to_multiset());
    } else {
        let p0 = positions[0];
        let rest = positions.drop_first();
        assert forall|k: int| 0 <= k < rest.len() implies 0 <= #[trigger] rest[k] < list.len() - (rest.len() - 1 - k) by {
            assert(rest[k] == positions[k + 1]);
        }
        assert forall|i: int, j: int| 0 <= i < j < rest.len() implies rest[i] < rest[j] by {
            assert(rest[i] == positions[i + 1]);
            assert(rest[j] == positions[j + 1]);
        }
        lemma_remove_backwards_keeps_all(list, rest);
        let back = rest.reverse();
        assert(positions.reverse() =~= back.push(p0));
        assert(positions.reverse().drop_last() =~= back);
        assert forall|k: int| 0 <= k < back.len() implies 0 <= #[trigger] back[k] < list.len() - k by {
            assert(back[k] == rest[rest.len() - 1 - k]);
            assert(rest[rest.len() - 1 - k] == positions[rest.len() - k]);
        }
        assert forall|k: int| 0 <= k < back.len() implies p0 < #[trigger] back[k] by {
            assert(back[k] == positions[rest.len() - k]);
        }
        lemma_remove_in_turn(list, back, p0);
        let l1 = remove_in_turn(list, back);
        assert(l1[p0] == list[p0]);
        assert(remove_in_turn(list, positions.reverse()) == l1.remove(p0));
        assert(entries_at(list, positions) =~= seq![list[p0]] + entries_at(list, rest));
        vstd::seq_lib::lemma_multiset_commutative(seq![list[p0]], entries_at(list, rest));
        assert(seq![list[p0]].to_multiset() =~= vstd::multiset::Multiset::singleton(list[p0])) by {
            assert(seq![list[p0]] =~= Seq::<u64>::empty().push(list[p0]));
            lemma_empty_to_multiset();
            vstd::seq_lib::to_multiset_build(Seq::<u64>::empty(), list[p0]);
        }
        assert(l1.to_multiset().count(list[p0]) > 0) by {
            vstd::seq_lib::to_multiset_contains(l1, list[p0]);
        }
        assert(l1.remove(p0).to_multiset().add(entries_at(list, positions).to_multiset())
            =~= l1.to_multiset().add(entries_at(list, rest).to_multiset()));
    }
}

impl Crew {
    /// A crew of `assigned` units, none of them working yet.
    pub fn new(assigned: Vec<u64>) -> (crew: Crew)
        ensures
            crew.assigned@ == assigned@,
            crew.working@ == Seq::<u64>::empty(),
    {
        Crew { assigned, working: Vec::new() }
    }

    /// The crew of a construction site laid out by `team`: the units that team
    /// has selected, none of them working yet.
    pub fn for_site(team: TeamType, selected_units: &TeamBasedValues<u64>) -> (crew: Crew)
        ensures
            crew.assigned@ == selected_units.values(team),
            crew.working@ == Seq::<u64>::empty(),
    {
        let units = match team {
            TeamType::Human => selected_units.human.clone(),
            TeamType::CPU => selected_units.cpu.clone(),
        };
        proof {
            assert(units@ =~= selected_units.values(team));
        }
        Crew::new(units)
    }

    /// More units are sent to the crew: they join the assigned units, in order.
    pub fn assign(&mut self, units: &Vec<u64>)
        ensures
            final(self).assigned@ == old(self).assigned@ + units@,
            final(self).working@ == old(self).working@,
    {
        let ghost a0 = self.assigned@;
        for i in 0..units.len()
            invariant
                self.assigned@ == a0 + units@.take(i as int),
                self.working@ == old(self).working@,
        {
            self.assigned.push(units[i]);
            assert(units@.take(i + 1) =~= units@.take(i as int).push(units@[i as int]));
        }
        assert(units@.take(units@.len() as int) =~= units@);
    }

    /// Assigned units that came close enough start working: `near[i]` tells
    /// whether the i-th assigned unit is within working range. Those units are
    /// taken out of the assigned list from the last to the first and appended
    /// to the working list in that order.
    pub fn engage_near(&mut self, near: &Vec<bool>)
        requires
            near@.len() == old(self).assigned@.len(),
        ensures
            final(self).assigned@ == remove_in_turn(
                old(self).assigned@,
                flagged_positions(near@, near@.len()).reverse(),
            ),
            final(self).working@ == old(self).working@ + entries_at(
                old(self).assigned@,
                flagged_positions(near@, near@.len()),
            ).reverse(),
    {
        let ghost a0 = self.assigned@;
        let ghost w0 = self.working@;
        let n = near.len();
        let mut swapping: Vec<(usize, u64)> = Vec::new();
        for index in 0..n
            invariant
                n == near@.len(),
                self.assigned@ == a0,
                self.working@ == w0,
                a0.len() == n,
                swapping@.len() == flagged_positions(near@, index as nat).len(),
                forall|k: int|
                    0 <= k < swapping@.len() ==> {
                        &&& (#[trigger] swapping@[k]).0 as int == flagged_positions(near@, index as nat)[k]
                        &&& swapping@[k].1 == a0[swapping@[k].0 as int]
                    },
        {
            if near[index] {
                swapping.push((index, self.assigned[index]));
            }
        }
        let ghost pos = flagged_positions(near@, n as nat);
        let ghost back = pos.reverse();
        proof {
            lemma_flagged_positions(near@, n as nat);
        }
        let m = swapping.len();
        let mut k = m;
        while k > 0
            invariant
                k <= m,
                m == pos.len(),
                m == swapping@.len(),
                back == pos.reverse(),
                a0.len() == n,
                forall|j: int|
                    0 <= j < m ==> {
                        &&& (#[trigger] swapping@[j]).0 as int == pos[j]
                        &&& swapping@[j].1 == a0[swapping@[j].0 as int]
                    },
                forall|j: int|
                    0 <= j < m ==> {
                        let p = #[trigger] pos[j];
                        &&& j <= p
                        &&& p + (m - 1 - j) < n
                    },
                self.assigned@ == remove_in_turn(a0, back.take(m - k)),
                self.assigned@.len() == n - (m - k),
                self.working@ == w0 + entries_at(a0, pos).reverse().take(m - k),
            decreases k,
        {
            k = k - 1;
            let (index, entity) = swapping[k];
            proof {
                assert(back.take(m - k).drop_last() =~= back.take(m - k - 1));
                assert(back[m - k - 1] == pos[k as int]);
                assert(entries_at(a0, pos).reverse().take(m - k) =~= entries_at(a0, pos).reverse().take(
                    m - k - 1,
                ).push(entity));
            }
            self.working.push(entity);
            self.assigned.remove(index);
        }
        proof {
            assert(back.take(m as int) =~= back);
            assert(entries_at(a0, pos).reverse().take(m as int) =~= entries_at(a0, pos).reverse());
        }
    }

    /// Whether `release_far` can run on this crew: the i-th working unit moving
    /// away is `far[i]`, and the k-th one to leave is removed at its original
    /// position counted in the working list as it stands after the k before
    /// it left, which must still be inside that list.
    pub fn release_is_safe(&self, far: &Vec<bool>) -> (safe: bool)
        requires
            far@.len() == self.working@.len(),
        ensures
            safe == removals_in_range(self.working@.len(), flagged_positions(far@, far@.len())),
    {
        let n = far.len();
        let mut count: usize = 0;
        let mut safe = true;
        for index in 0..n
            invariant
                n == far@.len(),
                n == self.working@.len(),
                count == flagged_positions(far@, index as nat).len(),
                count <= index,
                safe == removals_in_range(n as nat, flagged_positions(far@, index as nat)),
        {
            proof {
                lemma_flagged_positions(far@, index as nat);
            }
            if far[index] {
                let ghost before = flagged_positions(far@, index as nat);
                assert(flagged_positions(far@, (index + 1) as nat) == before.push(index as int));
                if index >= n - count {
                    safe = false;
                }
                assert(safe == removals_in_range(n as nat, before.push(index as int))) by {
                    if removals_in_range(n as nat, before) {
                        assert forall|k: int| 0 <= k < before.len() implies 0 <= #[trigger] before.push(index as int)[k] < n - k by {
                            assert(before.push(index as int)[k] == before[k]);
                        }
                    }
                    if removals_in_range(n as nat, before.push(index as int)) {
                        assert forall|k: int| 0 <= k < before.len() implies 0 <= #[trigger] before[k] < n - k by {
                            assert(before.push(index as int)[k] == before[k]);
                        }
                        assert(before.push(index as int)[before.len() as int] == index);
                    }
                }
                count = count + 1;
            }
        }
        safe
    }

    /// Working units that moved out of range go back to being assigned:
    /// `far[i]` tells whether the i-th working unit is out of range. Each such
    /// unit is appended to the assigned list, in order, while the working
    /// list loses, for the k-th of them, the entry at that unit's original
    /// position counted in the working list as it stands after the k removals
    /// before it. With more than one unit leaving in the same turn this drops
    /// other entries than the units that left.
    pub fn release_far(&mut self, far: &Vec<bool>)
        requires
            far@.len() == old(self).working@.len(),
            removals_in_range(old(self).working@.len(), flagged_positions(far@, far@.len())),
        ensures
            final(self).assigned@ == old(self).assigned@ + entries_at(
                old(self).working@,
                flagged_positions(far@, far@.len()),
            ),
            final(self).working@ == remove_in_turn(
                old(self).working@,
                flagged_positions(far@, far@.len()),
            ),
    {
        let ghost a0 = self.assigned@;
        let ghost w0 = self.working@;
        let n = far.len();
        let mut swapping: Vec<(usize, u64)> = Vec::new();
        for index in 0..n
            invariant
                n == far@.len(),
                self.assigned@ == a0,
                self.working@ == w0,
                w0.len() == n,
                swapping@.len() == flagged_positions(far@, index as nat).len(),
                forall|k: int|
                    0 <= k < swapping@.len() ==> {
                        &&& (#[trigger] swapping@[k]).0 as int == flagged_positions(far@, index as nat)[k]
                        &&& swapping@[k].1 == w0[swapping@[k].0 as int]
                    },
        {
            if far[index] {
                swapping.push((index, self.working[index]));
            }
        }
        let ghost pos = flagged_positions(far@, n as nat);
        let m = swapping.len();
        for k in 0..m
            invariant
                m == pos.len(),
                m == swapping@.len(),
                w0.len() == n,
                removals_in_range(n as nat, pos),
                forall|j: int|
                    0 <= j < m ==> {
                        &&& (#[trigger] swapping@[j]).0 as int == pos[j]
                        &&& swapping@[j].1 == w0[swapping@[j].0 as int]
                    },
                self.working@ == remove_in_turn(w0, pos.take(k as int)),
                self.working@.len() == n - k,
                self.assigned@ == a0 + entries_at(w0, pos).take(k as int),
        {
            let (index, entity) = swapping[k];
            proof {
                assert(pos.take(k + 1).drop_last() =~= pos.take(k as int));
                assert(pos[k as int] < n - k);
                assert(entries_at(w0, pos).take(k + 1) =~= entries_at(w0, pos).take(k as int).push(entity));
            }
            self.assigned.push(entity);
            self.working.remove(index);
        }
        proof {
            assert(pos.take(m as int) =~= pos);
            assert(entries_at(w0, pos).take(m as int) =~= entries_at(w0, pos));
        }
    }
}

/// Law: when assigned units start working, no unit is lost or duplicated:
/// the crew as a whole stays the same.
pub proof fn engaging_keeps_the_crew(assigned: Seq<u64>, working: Seq<u64>, near: Seq<bool>)
    requires
        near.len() == assigned.len(),
    ensures
        ({
            let pos = flagged_positions(near, near.len());
            (remove_in_turn(assigned, pos.reverse()) + (working + entries_at(assigned, pos).reverse())).to_multiset()
                == (assigned + working).to_multiset()
        }),
{
    broadcast use vstd::multiset::group_multiset_axioms, vstd::seq_lib::lemma_multiset_commutative;

    let pos = flagged_positions(near, near.len());
    lemma_flagged_positions(near, near.len());
    lemma_remove_backwards_keeps_all(assigned, pos);
    entries_at(assigned, pos).lemma_reverse_to_multiset();
    let left = remove_in_turn(assigned, pos.reverse());
    let moved = entries_at(assigned, pos);
    assert((left + (working + moved.reverse())).to_multiset() =~= (assigned + working).to_multiset());
}

/// Law: when at most one working unit moves out of range in a turn, no unit
/// is lost or duplicated: the crew as a whole stays the same.
pub proof fn releasing_one_keeps_the_crew(assigned: Seq<u64>, working: Seq<u64>, far: Seq<bool>)
    requires
        far.len() == working.len(),
        flagged_positions(far, far.len()).len() <= 1,
    ensures
        ({
            let pos = flagged_positions(far, far.len());
            ((assigned + entries_at(working, pos)) + remove_in_turn(working, pos)).to_multiset()
                == (assigned + working).to_multiset()
        }),
{
    broadcast use vstd::multiset::group_multiset_axioms, vstd::seq_lib::lemma_multiset_commutative;

    let pos = flagged_positions(far, far.len());
    lemma_flagged_positions(far, far.len());
    if pos.len() == 0 {
        assert(entries_at(working, pos) =~= Seq::<u64>::empty());
        assert(assigned + Seq::<u64>::empty() =~= assigned);
    } else {
        let p = pos[0];
        assert(pos.drop_last() =~= Seq::<int>::empty());
        assert(remove_in_turn(working, pos.drop_last()) == working);
        assert(remove_in_turn(working, pos) == working.remove(p));
        assert(entries_at(working, pos) =~= seq![working[p]]);
        vstd::seq_lib::to_multiset_remove(working, p);
        assert(seq![working[p]] =~= Seq::<u64>::empty().push(working[p]));
        lemma_empty_to_multiset();
        vstd::seq_lib::to_multiset_build(Seq::<u64>::empty(), working[p]);
        vstd::seq_lib::to_multiset_contains(working, working[p]);
        assert(((assigned + entries_at(working, pos)) + remove_in_turn(working, pos)).to_multiset()
            =~= (assigned + working).to_multiset());
    }
}

} // verus!
