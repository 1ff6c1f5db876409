use vstd::prelude::*;
use crate::teams::{TeamBasedValues, TeamType};
use crate::ui::{CurrentUI, UIType};

verus! {

/// What a producer can be training.
#[derive(Clone, Copy, PartialEq, Eq, Structural, Debug)]
pub enum ProductionType {
    Nothing,
    Worker,
    Priest,
    Warrior,
}

pub const WORKER_COST: u32 = 10;
pub const PRIEST_COST: u32 = 18;
pub const WARRIOR_COST: u32 = 14;

/// One production line of a producer: the unit type it trains, the progress
/// needed for one unit, and how many units are waiting in this line.
#[derive(Clone, Copy, PartialEq, Eq, Structural, Debug)]
pub struct Production {
    pub production_type: ProductionType,
    pub cost: u32,
    pub queue: i32,
}

/// The training queue of a producer building.
pub struct Producer {
    pub current_production: ProductionType,
    pub queue: Vec<ProductionType>,
}

impl Producer {
    /// The producer trains the head of its queue, and nothing when the queue is empty.
    pub open spec fn wf(&self) -> bool {
        if self.queue@.len() == 0 {
            self.current_production == ProductionType::Nothing
        } else {
            self.current_production == self.queue@[0]
        }
    }
}

impl Default for Producer {
    /// An idle producer with an empty queue.
    fn default() -> (producer: Self)
        ensures
            producer.current_production == ProductionType::Nothing,
            producer.queue@ == Seq::<ProductionType>::empty(),
    {
        Producer { current_production: ProductionType::Nothing, queue: Vec::new() }
    }
}

impl Clone for Producer {
    /// A producer with the same current production and the same queue.
    fn clone(&self) -> (copy: Self)
        ensures
            copy.current_production == self.current_production,
            copy.queue@ == self.queue@,
    {
        let mut queue: Vec<ProductionType> = Vec::new();
        for i in 0..self.queue.len()
            invariant
                queue@ == self.queue@.take(i as int),
        {
            queue.push(self.queue[i]);
            assert(self.queue@.take(i + 1) == self.queue@.take(i as int).push(self.queue@[i as int]));
        }
        assert(self.queue@.take(self.queue@.len() as int) == self.queue@);
        Producer { current_production: self.current_production, queue }
    }
}

/// The production lines a new producer starts with: workers, priests and
/// warriors, in that order, each with an empty queue.
pub fn initial_productions() -> (lines: Vec<Production>)
    ensures
        lines@ == seq![
            Production { production_type: ProductionType::Worker, cost: WORKER_COST, queue: 0 },
            Production { production_type: ProductionType::Priest, cost: PRIEST_COST, queue: 0 },
            Production { production_type: ProductionType::Warrior, cost: WARRIOR_COST, queue: 0 },
        ],
{
    let mut lines: Vec<Production> = Vec::new();
    lines.push(Production { production_type: ProductionType::Worker, cost: WORKER_COST, queue: 0 });
    lines.push(Production { production_type: ProductionType::Priest, cost: PRIEST_COST, queue: 0 });
    lines.push(Production { production_type: ProductionType::Warrior, cost: WARRIOR_COST, queue: 0 });
    lines
}

/// A unit of the producer's current production has been trained on the
/// matching production line: that line has one unit less waiting, the head of
/// the queue is dropped and the producer moves on to the next entry, or to
/// nothing when the queue ran out. Returns the type of the unit to spawn.
pub fn produce(producer: &mut Producer, production: &mut Production) -> (made: ProductionType)
    requires
        old(producer).queue@.len() > 0,
        old(production).production_type == old(producer).current_production,
        old(production).queue > i32::MIN,
    ensures
        made == old(producer).current_production,
        final(production).queue == old(production).queue - 1,
        final(production).production_type == old(production).production_type,
        final(production).cost == old(production).cost,
        final(producer).queue@ == old(producer).queue@.drop_first(),
        final(producer).wf(),
        final(producer).current_production == (if final(producer).queue@.len() == 0 {
            ProductionType::Nothing
        } else {
            final(producer).queue@[0]
        }),
{
    let made = producer.current_production;
    production.queue = production.queue - 1;
    producer.queue.remove(0);
    if producer.queue.len() == 0 {
        producer.current_production = ProductionType::Nothing;
    } else {
        producer.current_production = producer.queue[0];
    }
    made
}

/// The text shown beside a production button: the number of units waiting in
/// that line, or nothing when none is waiting.
pub fn queue_label(queue: i32) -> (label: String)
    ensures
        queue > 0 ==> vstd::string::to_string_from_display_ensures::<i32>(&queue, label),
        queue <= 0 ==> label@ == Seq::<char>::empty(),
{
    if queue > 0 {
        queue.to_string()
    } else {
        String::new()
    }
}

/// With structures of the player selected and no panel up, the producer
/// panel comes up. Returns whether it has to be shown.
pub fn display_producer_ui(selected_structures: &TeamBasedValues<u64>, current_ui: &mut CurrentUI) -> (show: bool)
    ensures
        show == (selected_structures.values(TeamType::Human).len() > 0 && old(current_ui).ui_type
            == UIType::Nothing),
        final(current_ui).ui_type == (if show {
            UIType::Producer
        } else {
            old(current_ui).ui_type
        }),
        final(current_ui).focused == old(current_ui).focused,
{
    if selected_structures.len(&TeamType::Human) > 0 {
        match current_ui.ui_type {
            UIType::Nothing => {
                current_ui.ui_type = UIType::Producer;
                return true;
            },
            UIType::Worker => {},
            UIType::Producer => {},
            UIType::Generator => {},
        }
    }
    false
}

} // verus!
