//! A two-list todo manager driven by key events: a verified state machine
//! over the lists, the tab, the selection and the text being typed, and a
//! projection of that state into what a terminal front end draws.
pub mod geometry;
pub mod keys;
pub mod model;
pub mod state;
pub mod laws;
pub mod view;
