//! A type-directed marshalling compiler for a capability-based IPC mechanism.
//!
//! The library turns abstract method signatures, whose parameters are drawn
//! from a fixed taxonomy of transportable types, into structured marshalling
//! bodies: the sequence of register writes, capability-slot installs and
//! shared-buffer copies that pack each parameter into an outgoing message,
//! together with the envelope metadata (operation label, register count).
//!
//! Reading declarations from source text and rendering the produced bodies
//! back into code are left to the surrounding tooling; the library works on
//! its own plain data model of types, signatures and marshalling steps.

pub mod errors;
pub mod input_node;
pub mod method_node;

