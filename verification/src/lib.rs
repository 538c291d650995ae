//! Verified core of a Windows system utilities toolbox: configuration parsing,
//! process list filtering and sorting, list view synchronisation, page layout,
//! scrolling and small user interface state machines.

pub mod text;
pub mod config;
pub mod process;
pub mod layout;
pub mod scroll;
pub mod listview;
pub mod menu;
pub mod font;
pub mod interaction;
pub mod startup;
