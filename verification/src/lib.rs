//! Game rules of a small real-time strategy game: teams and their selections,
//! production queues, worker crews, combat and conversion decisions, the
//! selection and interface state machines, the computer player's scripted
//! build order, and the layout of the battle map.

pub mod geometry;
pub mod teams;
pub mod movement;
pub mod structure;
pub mod producer;
pub mod ui;
pub mod ai;
pub mod crew;
pub mod selectable;
pub mod inputs;
pub mod combat;
pub mod conversion;
pub mod detection;
pub mod unit;
pub mod helpers;
pub mod map;
pub mod test_scene;
