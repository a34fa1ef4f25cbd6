//! Verified core of a Volume Shadow Copy Service (VSS) writer enumerator.
//!
//! The library holds everything the tool decides and formats: status-code
//! and identifier text formatting, the async-wait protocol, and the
//! enumeration pipeline's control decisions together with its
//! resource-release discipline.  The platform's COM calls themselves are
//! performed by the surrounding program, which reports each call's outcome
//! to the functions here.

pub mod hex;
pub mod status;
pub mod guid;
pub mod writers;
