use vstd::prelude::*;
use crate::movement::Formation;
use crate::selectable::SelectionType;
use crate::structure::StructureType;

verus! {

/// The structure the player is about to place, and what it costs.
#[derive(Clone, Copy, PartialEq, Eq, Structural, Debug)]
pub struct BuildSelection {
    pub is_selected: bool,
    pub structure_type: StructureType,
    pub cost: u32,
}

/// Pressing a build button selects its structure type at its cost.
pub fn build_button_pressed(selection: &mut BuildSelection, structure: StructureType, cost: u32)
    ensures
        *final(selection) == (BuildSelection { is_selected: true, structure_type: structure, cost }),
{
    selection.structure_type = structure;
    selection.is_selected = true;
    selection.cost = cost;
}

/// The formation after one notch of the mouse wheel: scrolling down goes
/// ring, line, box and back to ring; scrolling up goes the other way; a
/// notch of no height keeps the formation.
pub open spec fn formation_after_scroll(scroll: std::cmp::Ordering, current: Formation) -> Formation {
    match scroll {
        std::cmp::Ordering::Less => match current {
            Formation::Ringed => Formation::Line,
            Formation::Line => Formation::Box,
            Formation::Box => Formation::Ringed,
        },
        std::cmp::Ordering::Greater => match current {
            Formation::Ringed => Formation::Box,
            Formation::Line => Formation::Ringed,
            Formation::Box => Formation::Line,
        },
        std::cmp::Ordering::Equal => current,
    }
}

/// Turns the formation by one notch of the mouse wheel; `scroll` is how the
/// notch's height compares with zero.
pub fn handle_mouse_wheel(scroll: std::cmp::Ordering, current: Formation) -> (next: Formation)
    ensures
        next == formation_after_scroll(scroll, current),
{
    match (scroll, current) {
        (std::cmp::Ordering::Less, Formation::Ringed) => Formation::Line,
        (std::cmp::Ordering::Less, Formation::Line) => Formation::Box,
        (std::cmp::Ordering::Less, Formation::Box) => Formation::Ringed,
        (std::cmp::Ordering::Greater, Formation::Ringed) => Formation::Box,
        (std::cmp::Ordering::Greater, Formation::Line) => Formation::Ringed,
        (std::cmp::Ordering::Greater, Formation::Box) => Formation::Line,
        _ => current,
    }
}

/// Law: a notch down followed by a notch up, or the other way round, gives
/// the formation back.
pub proof fn scrolling_back_restores_formation(f: Formation)
    ensures
        formation_after_scroll(
            std::cmp::Ordering::Greater,
            formation_after_scroll(std::cmp::Ordering::Less, f),
        ) == f,
        formation_after_scroll(
            std::cmp::Ordering::Less,
            formation_after_scroll(std::cmp::Ordering::Greater, f),
        ) == f,
{
}

/// Law: three notches the same way go through every formation and come back.
pub proof fn three_notches_come_around(f: Formation)
    ensures
        formation_after_scroll(
            std::cmp::Ordering::Less,
            formation_after_scroll(
                std::cmp::Ordering::Less,
                formation_after_scroll(std::cmp::Ordering::Less, f),
            ),
        ) == f,
        formation_after_scroll(std::cmp::Ordering::Less, f) != f,
        formation_after_scroll(
            std::cmp::Ordering::Less,
            formation_after_scroll(std::cmp::Ordering::Less, f),
        ) != f,
{
}

/// The state of the mouse buttons this frame.
#[derive(Clone, Copy, PartialEq, Eq, Structural, Debug)]
pub struct MouseButtons {
    pub left_pressed: bool,
    pub left_just_released: bool,
    pub right_just_pressed: bool,
    pub right_pressed: bool,
    pub right_just_released: bool,
}

/// The selection box being dragged with the left button, between positions
/// of type `P`.
#[derive(Clone, Copy, PartialEq, Eq, Structural, Debug)]
pub struct BoxSelector<P> {
    pub selecting: bool,
    pub start: P,
    pub current: P,
    pub formation: Formation,
}

/// The aim being dragged with the right button, between positions of type `P`.
#[derive(Clone, Copy, PartialEq, Eq, Structural, Debug)]
pub struct UnitAim<P> {
    pub aiming: bool,
    pub start: P,
    pub current: P,
}

/// A drag of the left button: pressing starts the box with both corners at
/// the cursor, holding moves its far corner, releasing ends it, reports the
/// two corners and resets both to `zero`. A click without a drag thus reports
/// the box at the cursor.
pub open spec fn drag_box<P>(buttons: MouseButtons, pos: P, zero: P, b: BoxSelector<P>) -> (
    BoxSelector<P>,
    Option<(P, P)>,
) {
    if buttons.left_pressed {
        if !b.selecting {
            (BoxSelector { selecting: true, start: pos, current: pos, ..b }, None)
        } else {
            (BoxSelector { current: pos, ..b }, None)
        }
    } else if buttons.left_just_released && b.selecting {
        (BoxSelector { selecting: false, start: zero, current: zero, ..b }, Some((b.start, b.current)))
    } else {
        (b, None)
    }
}

/// Drags the selection box; returns the corners of a finished box.
pub fn click_selection<P: Copy>(
    pos: P,
    zero: P,
    buttons: MouseButtons,
    box_selector: &mut BoxSelector<P>,
) -> (finished: Option<(P, P)>)
    ensures
        (*final(box_selector), finished) == drag_box(buttons, pos, zero, *old(box_selector)),
{
    if buttons.left_pressed {
        if !box_selector.selecting {
            box_selector.selecting = true;
            box_selector.start = pos;
            box_selector.current = pos;
        } else {
            box_selector.current = pos;
        }
        None
    } else if buttons.left_just_released && box_selector.selecting {
        let corners = (box_selector.start, box_selector.current);
        box_selector.selecting = false;
        box_selector.start = zero;
        box_selector.current = zero;
        Some(corners)
    } else {
        None
    }
}

/// What a click of the player leads to, with positions of type `P`.
#[derive(Clone, Copy, PartialEq, Eq, Structural, Debug)]
pub enum ClickAction<P> {
    /// Box-select between two corners.
    SelectBox(P, P),
    /// Give the selected units an order at a position.
    UnitAction(P),
    /// Move the selected units to `start`, facing towards `end`, in a formation.
    MoveUnits { start: P, end: P, formation: Formation },
    /// Lay out a construction site of the selected structure at a position.
    PlaceSite(P),
    /// Set the rally point of the selected producers.
    SetPostSpawn(P),
}

/// The selection states in which the player is directing units.
pub open spec fn directs_units(state: SelectionType) -> bool {
    state == SelectionType::Unit || state == SelectionType::Worker || state == SelectionType::Priest
        || state == SelectionType::Warrior
}

/// The selection states in which the player has structures selected.
pub open spec fn directs_structures(state: SelectionType) -> bool {
    state == SelectionType::Generator || state == SelectionType::Producer
}

/// A drag of the right button with units selected: a fresh press gives an
/// order at the cursor; holding starts the aim at the cursor, leaving its far
/// end where it was, or moves its far end; releasing after aiming moves the
/// units to the aim's start, facing its end, and resets the aim to `zero`.
pub open spec fn drag_aim<P>(
    buttons: MouseButtons,
    pos: P,
    zero: P,
    aim: UnitAim<P>,
    formation: Formation,
) -> (UnitAim<P>, Option<ClickAction<P>>) {
    if buttons.right_just_pressed {
        (aim, Some(ClickAction::UnitAction(pos)))
    } else if buttons.right_pressed {
        if !aim.aiming {
            (UnitAim { aiming: true, start: pos, ..aim }, None)
        } else {
            (UnitAim { current: pos, ..aim }, None)
        }
    } else if buttons.right_just_released && aim.aiming {
        (
            UnitAim { aiming: false, start: zero, current: zero },
            Some(ClickAction::MoveUnits { start: aim.start, end: aim.current, formation }),
        )
    } else {
        (aim, None)
    }
}

/// The actions of a finished box, if any.
pub open spec fn box_actions<P>(finished: Option<(P, P)>) -> Seq<ClickAction<P>> {
    match finished {
        Some((a, b)) => seq![ClickAction::SelectBox(a, b)],
        None => Seq::empty(),
    }
}

/// The actions of an optional action.
pub open spec fn maybe_action<P>(a: Option<ClickAction<P>>) -> Seq<ClickAction<P>> {
    match a {
        Some(x) => seq![x],
        None => Seq::empty(),
    }
}

/// Follows the mouse for one frame. Nothing happens while the cursor is over
/// the interface. With nothing selected the left button drags a selection
/// box; with units selected it does too, and the right button gives orders
/// and aims moves; while placing a structure, releasing the left button lays
/// out the construction site if the player can afford it; with structures
/// selected a fresh right click sets the rally point of the producers, and
/// otherwise the left button drags a selection box.
pub fn handle_click<P: Copy>(
    focused: bool,
    state: SelectionType,
    buttons: MouseButtons,
    pos: P,
    zero: P,
    can_afford: bool,
    box_selector: &mut BoxSelector<P>,
    unit_aim: &mut UnitAim<P>,
) -> (actions: Vec<ClickAction<P>>)
    ensures
        focused ==> actions@ == Seq::<ClickAction<P>>::empty() && *final(box_selector) == *old(
            box_selector,
        ) && *final(unit_aim) == *old(unit_aim),
        !focused && state == SelectionType::Nothing ==> {
            let (b, f) = drag_box(buttons, pos, zero, *old(box_selector));
            &&& *final(box_selector) == b
            &&& *final(unit_aim) == *old(unit_aim)
            &&& actions@ == box_actions(f)
        },
        !focused && directs_units(state) ==> {
            let (b, f) = drag_box(buttons, pos, zero, *old(box_selector));
            let (a, order) = drag_aim(buttons, pos, zero, *old(unit_aim), old(box_selector).formation);
            &&& *final(box_selector) == b
            &&& *final(unit_aim) == a
            &&& actions@ == box_actions(f) + maybe_action(order)
        },
        !focused && state == SelectionType::Construction ==> {
            &&& *final(box_selector) == *old(box_selector)
            &&& *final(unit_aim) == *old(unit_aim)
            &&& actions@ == (if buttons.left_just_released && can_afford {
                seq![ClickAction::PlaceSite(pos)]
            } else {
                Seq::empty()
            })
        },
        !focused && directs_structures(state) ==> {
            &&& *final(unit_aim) == *old(unit_aim)
            &&& if buttons.right_just_pressed {
                &&& *final(box_selector) == *old(box_selector)
                &&& actions@ == seq![ClickAction::SetPostSpawn(pos)]
            } else if buttons.left_pressed || buttons.left_just_released {
                let (b, f) = drag_box(buttons, pos, zero, *old(box_selector));
                &&& *final(box_selector) == b
                &&& actions@ == box_actions(f)
            } else {
                &&& *final(box_selector) == *old(box_selector)
                &&& actions@ == Seq::<ClickAction<P>>::empty()
            }
        },
{
    let mut actions: Vec<ClickAction<P>> = Vec::new();
    if focused {
        return actions;
    }
    match state {
        SelectionType::Nothing => {
            if let Some((a, b)) = click_selection(pos, zero, buttons, box_selector) {
                actions.push(ClickAction::SelectBox(a, b));
            }
        },
        SelectionType::Unit | SelectionType::Worker | SelectionType::Priest | SelectionType::Warrior => {
            let formation = box_selector.formation;
            if let Some((a, b)) = click_selection(pos, zero, buttons, box_selector) {
                actions.push(ClickAction::SelectBox(a, b));
            }
            if buttons.right_just_pressed {
                actions.push(ClickAction::UnitAction(pos));
            } else if buttons.right_pressed {
                if !unit_aim.aiming {
                    unit_aim.aiming = true;
                    unit_aim.start = pos;
                } else {
                    unit_aim.current = pos;
                }
            } else if buttons.right_just_released && unit_aim.aiming {
                actions.push(
                    ClickAction::MoveUnits {
                        start: unit_aim.start,
                        end: unit_aim.current,
                        formation,
                    },
                );
                unit_aim.aiming = false;
                unit_aim.start = zero;
                unit_aim.current = zero;
            }
        },
        SelectionType::Construction => {
            if buttons.left_just_released && can_afford {
                actions.push(ClickAction::PlaceSite(pos));
            }
        },
        SelectionType::Generator | SelectionType::Producer => {
            if buttons.right_just_pressed {
                actions.push(ClickAction::SetPostSpawn(pos));
            } else if buttons.left_pressed || buttons.left_just_released {
                if let Some((a, b)) = click_selection(pos, zero, buttons, box_selector) {
                    actions.push(ClickAction::SelectBox(a, b));
                }
            }
        },
    }
    proof {
        assert(Seq::<ClickAction<P>>::empty() + Seq::<ClickAction<P>>::empty() =~= Seq::<ClickAction<P>>::empty());
    }
    actions
}

/// How the selection state follows the mouse: while placing a structure,
/// releasing the right button gives up placing and releasing the left button
/// on an affordable spot without holding shift places it, either way going
/// back to directing units; with structures selected, the left button drops
/// the selection. Nothing changes while the cursor is over the interface.
pub fn set_selection_state(
    focused: bool,
    state: SelectionType,
    buttons: MouseButtons,
    can_afford: bool,
    shift_held: bool,
) -> (next: Option<SelectionType>)
    ensures
        next == (if focused {
            None
        } else if state == SelectionType::Construction {
            if buttons.right_just_released || (buttons.left_just_released && can_afford
                && !shift_held) {
                Some(SelectionType::Unit)
            } else {
                None
            }
        } else if directs_structures(state) && (buttons.left_pressed
            || buttons.left_just_released) {
            Some(SelectionType::Nothing)
        } else {
            None
        }),
{
    if focused {
        return None;
    }
    match state {
        SelectionType::Construction => {
            let deselect_construction = buttons.right_just_released;
            let place_structure = buttons.left_just_released && can_afford && !shift_held;
            if deselect_construction || place_structure {
                Some(SelectionType::Unit)
            } else {
                None
            }
        },
        SelectionType::Generator | SelectionType::Producer => {
            if buttons.left_pressed || buttons.left_just_released {
                Some(SelectionType::Nothing)
            } else {
                None
            }
        },
        _ => None,
    }
}

} // verus!
