use vstd::prelude::*;
use crate::movement::Formation;
use crate::selectable::SelectionType;
use crate::structure::StructureType;
use crate::ui::UIType;

verus! {

/// The texts of the debug overlay.
#[derive(Clone, Copy, Debug)]
pub struct DebugLabels {
    pub formation: &'static str,
    pub structure: &'static str,
    pub build_selected: &'static str,
    pub producer_selected: &'static str,
    pub ui_type: &'static str,
    pub selection_state: &'static str,
}

pub open spec fn formation_label(f: Formation) -> Seq<char> {
    match f {
        Formation::Line => "Line"@,
        Formation::Ringed => "Ringed"@,
        Formation::Box => "Box"@,
    }
}

pub open spec fn structure_label(s: StructureType) -> Seq<char> {
    match s {
        StructureType::SimpleShrine => "SimpleShrine - "@,
        StructureType::Producer => "WorkerProducer - "@,
    }
}

pub open spec fn selected_label(b: bool) -> Seq<char> {
    if b {
        "is selected"@
    } else {
        "is not selected"@
    }
}

pub open spec fn ui_label(u: UIType) -> Seq<char> {
    match u {
        UIType::Nothing => "None"@,
        UIType::Worker => "Worker"@,
        UIType::Producer => "Producer"@,
        UIType::Generator => "Generator"@,
    }
}

pub open spec fn selection_label(s: SelectionType) -> Seq<char> {
    match s {
        SelectionType::Nothing => "None"@,
        SelectionType::Unit => "Unit"@,
        SelectionType::Worker => "Worker"@,
        SelectionType::Priest => "Priest"@,
        SelectionType::Warrior => "Warrior"@,
        SelectionType::Construction => "Construction"@,
        SelectionType::Generator => "Generator"@,
        SelectionType::Producer => "Producer"@,
    }
}

fn selected_text(b: bool) -> (t: &'static str)
    ensures
        t@ == selected_label(b),
{
    if b {
        "is selected"
    } else {
        "is not selected"
    }
}

/// The texts the debug overlay shows for the current formation, the
/// structure about to be built and whether it is selected, whether the
/// producer panel is selected, the interface panel and the selection state.
pub fn debug_text(
    formation: Formation,
    structure: StructureType,
    build_selected: bool,
    producer_selected: bool,
    ui: UIType,
    selection: SelectionType,
) -> (labels: DebugLabels)
    ensures
        labels.formation@ == formation_label(formation),
        labels.structure@ == structure_label(structure),
        labels.build_selected@ == selected_label(build_selected),
        labels.producer_selected@ == selected_label(producer_selected),
        labels.ui_type@ == ui_label(ui),
        labels.selection_state@ == selection_label(selection),
{
    DebugLabels {
        formation: match formation {
            Formation::Line => "Line",
            Formation::Ringed => "Ringed",
            Formation::Box => "Box",
        },
        structure: match structure {
            StructureType::SimpleShrine => "SimpleShrine - ",
            StructureType::Producer => "WorkerProducer - ",
        },
        build_selected: selected_text(build_selected),
        producer_selected: selected_text(producer_selected),
        ui_type: match ui {
            UIType::Nothing => "None",
            UIType::Worker => "Worker",
            UIType::Producer => "Producer",
            UIType::Generator => "Generator",
        },
        selection_state: match selection {
            SelectionType::Nothing => "None",
            SelectionType::Unit => "Unit",
            SelectionType::Worker => "Worker",
            SelectionType::Priest => "Priest",
            SelectionType::Warrior => "Warrior",
            SelectionType::Construction => "Construction",
            SelectionType::Generator => "Generator",
            SelectionType::Producer => "Producer",
        },
    }
}

} // verus!
