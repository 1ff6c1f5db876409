use vstd::prelude::*;

verus! {

/// The side an entity belongs to.
#[derive(Clone, Copy, PartialEq, Eq, Structural, Debug)]
pub enum TeamType {
    Human,
    CPU,
}

impl Default for TeamType {
    /// The player's own side.
    fn default() -> (team: Self)
        ensures
            team == TeamType::Human,
    {
        TeamType::Human
    }
}

/// One list of values per team.
pub struct TeamBasedValues<T> {
    pub human: Vec<T>,
    pub cpu: Vec<T>,
}

impl<T> TeamBasedValues<T> {
    /// The values kept for `team`.
    pub open spec fn values(&self, team: TeamType) -> Seq<T> {
        match team {
            TeamType::Human => self.human@,
            TeamType::CPU => self.cpu@,
        }
    }

    /// Number of values kept for `team`.
    pub fn len(&self, team: &TeamType) -> (count: usize)
        ensures
            count == self.values(*team).len(),
    {
        match team {
            TeamType::Human => self.human.len(),
            TeamType::CPU => self.cpu.len(),
        }
    }

    /// Forgets every value of `team`; the other team keeps its values.
    pub fn clear(&mut self, team: &TeamType)
        ensures
            final(self).values(*team) == Seq::<T>::empty(),
            forall|other: TeamType|
                other != *team ==> #[trigger] final(self).values(other) == old(self).values(other),
    {
        match team {
            TeamType::Human => self.human.clear(),
            TeamType::CPU => self.cpu.clear(),
        }
    }

    /// Appends `value` to the values of `team`; the other team keeps its values.
    pub fn push(&mut self, team: &TeamType, value: T)
        ensures
            final(self).values(*team) == old(self).values(*team).push(value),
            forall|other: TeamType|
                other != *team ==> #[trigger] final(self).values(other) == old(self).values(other),
    {
        match team {
            TeamType::Human => self.human.push(value),
            TeamType::CPU => self.cpu.push(value),
        }
    }

    /// Walks the values of `team` in the order they were pushed.
    pub fn iter(&self, team: &TeamType) -> (it: std::slice::Iter<'_, T>)
        ensures
            vstd::std_specs::slice::into_iter_elts(it) == self.values(*team),
    {
        broadcast use vstd::std_specs::slice::axiom_spec_slice_iter;
        match team {
            TeamType::Human => self.human.iter(),
            TeamType::CPU => self.cpu.iter(),
        }
    }
}

impl<T> Default for TeamBasedValues<T> {
    /// No values for either team.
    fn default() -> (values: Self)
        ensures
            values.human@ == Seq::<T>::empty(),
            values.cpu@ == Seq::<T>::empty(),
    {
        Self { human: Vec::new(), cpu: Vec::new() }
    }
}

} // verus!
