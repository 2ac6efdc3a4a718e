//! A desktop shim around the `ollama` command-line tool.
//!
//! The crate holds the decision logic of the shim: probing an ordered list
//! of candidate paths for a responding binary, turning captured process
//! output into the strings handed back to the GUI layer, and planning the
//! OS-specific bootstrap sequence (install, pull a default model, list
//! models) with fail-fast step chaining. Spawning processes and opening a
//! browser are left to the surrounding application, which feeds the
//! outcomes back into these functions.
pub mod bootstrap;
pub mod facade;
pub mod locator;
