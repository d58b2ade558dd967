//! Simplified PAM module creation: the result codes, the checks and the
//! decisions that surround each call into the PAM library.

pub mod constants;
pub mod conv;
pub mod module;
