//! A process-wide global hotkey manager: it turns an accelerator string into
//! a platform hotkey token and swaps the one active system hotkey for a new
//! one, step by step, so that a caller can drive the platform's registration
//! facility while the decisions stay here.
pub mod accelerator;
pub mod error;
pub mod facility;
pub mod registry;
pub mod token;
pub mod trigger;
