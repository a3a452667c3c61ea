//! Game rules of the System Shock 2 VR script layer: the HRM hacking board,
//! the panels built on it, trainers, O/S traits and the small object scripts.
pub mod board_view;
pub mod breakdown;
pub mod container;
pub mod cs9;
pub mod effect;
pub mod gun_modifications;
pub mod hack_panels;
pub mod healing;
pub mod hrm;
pub mod keypad;
pub mod layout;
pub mod map;
pub mod panels;
pub mod psi;
pub mod scripts;
pub mod text;
pub mod trainer;
pub mod traits;
pub mod weapon_boards;
