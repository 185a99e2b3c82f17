//! A host for text-grid consoles: registries of fonts, shaders and consoles,
//! forwarding to the active console, per-frame rebuild and draw sequencing,
//! frame timing and window-event decisions.
use vstd::prelude::*;

pub mod console;
pub mod simple_console;
pub mod host;
pub mod timing;
pub mod events;

verus! {

} // verus!
