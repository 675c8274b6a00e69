//! Verified core of a binding layer for KDMAPI, the direct-data MIDI output
//! interface of the OmniMIDI synthesizer.
//!
//! The crate holds everything about the binding that can be stated and proved
//! without touching the dynamic linker: the names under which the six native
//! entry points are exported, the table that holds them once they are
//! resolved, and the stream handle that is the only way to reach the three
//! stream operations. The native entry points themselves are handed in as
//! plain function values, so the table works the same on the real library and
//! on stand-ins.
pub mod bindings;
pub mod error;
pub mod lifecycle;
pub mod native;

pub use bindings::{load_kdmapi_binds, KDMAPIBinds, KDMAPIStream};
pub use error::KDMAPIError;
pub use native::NativeFunction;
