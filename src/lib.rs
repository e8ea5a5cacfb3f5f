//! Frame input for an application whose scheduler reads one snapshot of input
//! per frame while the windowing backend delivers input as callbacks.
//!
//! `input` holds the snapshot and the button state automaton, `maps` turns
//! backend key codes into tracked keys, `stage` holds the double buffer that
//! callbacks write into and that is published once per frame, and `render`
//! decides what each draw call of the quad pass binds.
pub mod input;
pub mod maps;
pub mod render;
pub mod shapes;
pub mod stage;
pub mod text;
