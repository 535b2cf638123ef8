//! Interactive 2D shape editor core: geometry, hit-testing, the pointer
//! interaction state machine, and alignment-guide computation.
//!
//! The drawing surface itself (a host canvas) is an external collaborator:
//! this crate decides what is drawn and which cursor is shown, and hands the
//! result out as plain values; the host performs the actual drawing.

pub mod alignments;
pub mod events;
pub mod iter_ext;
pub mod layers;
pub mod objects;
pub mod renderer;
