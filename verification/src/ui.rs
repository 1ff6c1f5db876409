use vstd::prelude::*;
use crate::selectable::{SelectionStateChanged, SelectionType};
use crate::structure::StructureType;
use crate::teams::TeamType;

verus! {

pub const SIMPLE_SHRINE_COST: u32 = 60;
pub const PRODUCER_COST: u32 = 140;

/// What it costs to build a structure type.
pub open spec fn structure_cost(structure: StructureType) -> u32 {
    match structure {
        StructureType::SimpleShrine => SIMPLE_SHRINE_COST,
        StructureType::Producer => PRODUCER_COST,
    }
}

/// What it costs to build a structure type.
pub fn build_cost(structure: StructureType) -> (cost: u32)
    ensures
        cost == structure_cost(structure),
{
    match structure {
        StructureType::SimpleShrine => SIMPLE_SHRINE_COST,
        StructureType::Producer => PRODUCER_COST,
    }
}

/// The panel the interface shows.
#[derive(Clone, Copy, PartialEq, Eq, Structural, Debug)]
pub enum UIType {
    Nothing,
    Worker,
    Producer,
    Generator,
}

/// The interface state: whether the cursor is over the interface, and which
/// panel is up.
#[derive(Clone, Copy, PartialEq, Eq, Structural, Debug)]
pub struct CurrentUI {
    pub focused: bool,
    pub ui_type: UIType,
}

/// The panels to hide and to show; hiding happens before showing.
#[derive(Clone, Copy, PartialEq, Eq, Structural, Debug)]
pub struct UiSignals {
    pub remove_worker_ui: bool,
    pub display_worker_ui: bool,
    pub remove_producer_ui: bool,
    pub display_producer_ui: bool,
}

/// The panel that goes with a selection state, when that state has one of
/// its own: an empty selection has none, workers have the build panel,
/// generators and producers their own; other selections keep `ui`.
pub open spec fn panel_for(selection: SelectionType, ui: UIType) -> UIType {
    match selection {
        SelectionType::Nothing => UIType::Nothing,
        SelectionType::Worker => UIType::Worker,
        SelectionType::Generator => UIType::Generator,
        SelectionType::Producer => UIType::Producer,
        _ => ui,
    }
}

/// The panels to hide and to show when the interface goes from panel `from`
/// to panel `to`.
pub open spec fn panel_signals(from: UIType, to: UIType) -> UiSignals {
    UiSignals {
        remove_worker_ui: from == UIType::Worker && to != UIType::Worker,
        display_worker_ui: to == UIType::Worker && from != UIType::Worker,
        remove_producer_ui: from == UIType::Producer && to != UIType::Producer,
        display_producer_ui: to == UIType::Producer && from != UIType::Producer,
    }
}

pub open spec fn no_signals() -> UiSignals {
    UiSignals {
        remove_worker_ui: false,
        display_worker_ui: false,
        remove_producer_ui: false,
        display_producer_ui: false,
    }
}

/// The selection states that have no panel of their own: plain units,
/// priests, warriors, and a structure about to be placed.
pub open spec fn keeps_panel(selection: SelectionType) -> bool {
    selection == SelectionType::Unit || selection == SelectionType::Priest || selection
        == SelectionType::Warrior || selection == SelectionType::Construction
}

/// Follows a change of the player's selection state: the selection state is
/// recorded and the interface switches to the panel of the new selection.
/// Changes of the computer player's selection leave everything as it was.
pub fn update_ui(
    change: SelectionStateChanged,
    selection_state: &mut SelectionType,
    current_ui: &mut CurrentUI,
) -> (signals: UiSignals)
    ensures
        change.team != TeamType::Human ==> {
            &&& *final(selection_state) == *old(selection_state)
            &&& *final(current_ui) == *old(current_ui)
            &&& signals == no_signals()
        },
        change.team == TeamType::Human ==> {
            let to = panel_for(change.new_type, old(current_ui).ui_type);
            &&& *final(selection_state) == change.new_type
            &&& final(current_ui).ui_type == to
            &&& final(current_ui).focused == old(current_ui).focused
            &&& signals == panel_signals(old(current_ui).ui_type, to)
        },
        change.team == TeamType::Human && keeps_panel(change.new_type) ==> *final(current_ui) == *old(
            current_ui,
        ) && signals == no_signals(),
{
    let mut signals = UiSignals {
        remove_worker_ui: false,
        display_worker_ui: false,
        remove_producer_ui: false,
        display_producer_ui: false,
    };
    if change.team != TeamType::Human {
        return signals;
    }
    *selection_state = change.new_type;
    match (change.new_type, current_ui.ui_type) {
        (SelectionType::Nothing, UIType::Nothing) => {
            current_ui.ui_type = UIType::Nothing;
        },
        (SelectionType::Nothing, UIType::Worker) => {
            signals.remove_worker_ui = true;
            current_ui.ui_type = UIType::Nothing;
        },
        (SelectionType::Nothing, UIType::Producer) => {
            signals.remove_producer_ui = true;
            current_ui.ui_type = UIType::Nothing;
        },
        (SelectionType::Nothing, UIType::Generator) => {
            current_ui.ui_type = UIType::Nothing;
        },
        (SelectionType::Unit, _) => {},
        (SelectionType::Worker, UIType::Nothing) => {
            signals.display_worker_ui = true;
            current_ui.ui_type = UIType::Worker;
        },
        (SelectionType::Worker, UIType::Worker) => {},
        (SelectionType::Worker, UIType::Producer) => {
            signals.remove_producer_ui = true;
            signals.display_worker_ui = true;
            current_ui.ui_type = UIType::Worker;
        },
        (SelectionType::Worker, UIType::Generator) => {
            signals.display_worker_ui = true;
            current_ui.ui_type = UIType::Worker;
        },
        (SelectionType::Priest, _) => {},
        (SelectionType::Warrior, _) => {},
        (SelectionType::Construction, _) => {},
        (SelectionType::Generator, UIType::Nothing) => {
            current_ui.ui_type = UIType::Generator;
        },
        (SelectionType::Generator, UIType::Worker) => {
            signals.remove_worker_ui = true;
            current_ui.ui_type = UIType::Generator;
        },
        (SelectionType::Generator, UIType::Producer) => {
            signals.remove_producer_ui = true;
            current_ui.ui_type = UIType::Generator;
        },
        (SelectionType::Generator, UIType::Generator) => {},
        (SelectionType::Producer, UIType::Nothing) => {
            signals.display_producer_ui = true;
            current_ui.ui_type = UIType::Producer;
        },
        (SelectionType::Producer, UIType::Worker) => {
            signals.remove_worker_ui = true;
            signals.display_producer_ui = true;
            current_ui.ui_type = UIType::Producer;
        },
        (SelectionType::Producer, UIType::Producer) => {},
        (SelectionType::Producer, UIType::Generator) => {
            signals.display_producer_ui = true;
            current_ui.ui_type = UIType::Producer;
        },
    }
    signals
}

/// The worker panel is shown exactly when the interface is on it, and so is
/// the producer panel.
pub open spec fn panels_match(ui: UIType, worker_shown: bool, producer_shown: bool) -> bool {
    worker_shown == (ui == UIType::Worker) && producer_shown == (ui == UIType::Producer)
}

/// Whether a panel is shown after its hide and show signals ran, hiding first.
pub open spec fn shown_after(shown: bool, remove: bool, display: bool) -> bool {
    display || (shown && !remove)
}

/// Law: when the shown panels match the interface state, they still match it
/// after any selection change has been followed.
pub proof fn panels_follow_the_interface(
    selection: SelectionType,
    ui: UIType,
    worker_shown: bool,
    producer_shown: bool,
)
    requires
        panels_match(ui, worker_shown, producer_shown),
    ensures
        ({
            let to = panel_for(selection, ui);
            let s = panel_signals(ui, to);
            panels_match(
                to,
                shown_after(worker_shown, s.remove_worker_ui, s.display_worker_ui),
                shown_after(producer_shown, s.remove_producer_ui, s.display_producer_ui),
            )
        }),
{
}

/// Law: following the same selection change a second time changes nothing
/// and hides or shows no panel.
pub proof fn following_twice_is_following_once(selection: SelectionType, ui: UIType)
    ensures
        panel_for(selection, panel_for(selection, ui)) == panel_for(selection, ui),
        panel_signals(panel_for(selection, ui), panel_for(selection, panel_for(selection, ui)))
            == no_signals(),
{
}

/// Law: a selection state without a panel of its own (plain units, priests,
/// warriors, a structure about to be placed) keeps whatever panel is up and
/// hides or shows nothing; every other state brings up its own panel (none
/// for an empty selection), hiding the panel it replaces and showing the new
/// one only when it was not up already.
pub proof fn panels_of_selection_states(selection: SelectionType, ui: UIType)
    ensures
        keeps_panel(selection) ==> panel_for(selection, ui) == ui && panel_signals(ui, panel_for(selection, ui))
            == no_signals(),
        selection == SelectionType::Nothing ==> panel_for(selection, ui) == UIType::Nothing,
        selection == SelectionType::Worker ==> panel_for(selection, ui) == UIType::Worker,
        selection == SelectionType::Generator ==> panel_for(selection, ui) == UIType::Generator,
        selection == SelectionType::Producer ==> panel_for(selection, ui) == UIType::Producer,
        panel_signals(ui, panel_for(selection, ui)).display_worker_ui == (selection == SelectionType::Worker
            && ui != UIType::Worker),
        panel_signals(ui, panel_for(selection, ui)).display_producer_ui == (selection == SelectionType::Producer
            && ui != UIType::Producer),
        panel_signals(ui, panel_for(selection, ui)).remove_worker_ui == (ui == UIType::Worker && !keeps_panel(
            selection,
        ) && selection != SelectionType::Worker),
        panel_signals(ui, panel_for(selection, ui)).remove_producer_ui == (ui == UIType::Producer
            && !keeps_panel(selection) && selection != SelectionType::Producer),
{
}

} // verus!
