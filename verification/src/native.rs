//! The native interface that the bindings are made for: where the library is
//! found and what its entry points are called.
use vstd::prelude::*;

verus! {

/// One of the six entry points that KDMAPI exports.
///
/// The variants are declared in the order in which the entry points are
/// resolved when the library is loaded.
#[derive(Debug, Clone, Copy, PartialEq, Eq, Structural)]
pub enum NativeFunction {
    /// `() -> bool`: whether the synthesizer is ready to take data.
    IsKDMAPIAvailable,
    /// `() -> i32`: starts the stream; zero reports failure.
    InitializeKDMAPIStream,
    /// `() -> i32`: ends the stream.
    TerminateKDMAPIStream,
    /// `()`: puts the stream back into its starting state.
    ResetKDMAPIStream,
    /// `(u32) -> u32`: sends one packed event through the buffer.
    SendDirectData,
    /// `(u32) -> u32`: sends one packed event past the buffer.
    SendDirectDataNoBuf,
}

impl NativeFunction {
    /// The name under which the entry point is exported.
    pub open spec fn symbol(self) -> Seq<char> {
        match self {
            NativeFunction::IsKDMAPIAvailable => "IsKDMAPIAvailable"@,
            NativeFunction::InitializeKDMAPIStream => "InitializeKDMAPIStream"@,
            NativeFunction::TerminateKDMAPIStream => "TerminateKDMAPIStream"@,
            NativeFunction::ResetKDMAPIStream => "ResetKDMAPIStream"@,
            NativeFunction::SendDirectData => "SendDirectData"@,
            NativeFunction::SendDirectDataNoBuf => "SendDirectDataNoBuf"@,
        }
    }

    /// Returns the exported name, to be handed to the dynamic linker as it is.
    pub fn symbol_name(self) -> (name: &'static str)
        ensures
            name@ == self.symbol(),
    {
        match self {
            NativeFunction::IsKDMAPIAvailable => "IsKDMAPIAvailable",
            NativeFunction::InitializeKDMAPIStream => "InitializeKDMAPIStream",
            NativeFunction::TerminateKDMAPIStream => "TerminateKDMAPIStream",
            NativeFunction::ResetKDMAPIStream => "ResetKDMAPIStream",
            NativeFunction::SendDirectData => "SendDirectData",
            NativeFunction::SendDirectDataNoBuf => "SendDirectDataNoBuf",
        }
    }
}

/// The path from which the native library is loaded, relative to the
/// directories that the dynamic linker searches.
pub open spec fn library_location() -> Seq<char> {
    "OmniMIDI\\OmniMIDI"@
}

/// Returns the path from which the native library is loaded.
pub fn library_path() -> (path: &'static str)
    ensures
        path@ == library_location(),
{
    "OmniMIDI\\OmniMIDI"
}

} // verus!
