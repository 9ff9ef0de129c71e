//! Control signals produced by the sample source, and the fatal errors
//! the render loop can report.

use vstd::prelude::*;

verus! {

/// One value pulled from the sample source: either an interleaved sample
/// or a control notification.
#[derive(Clone, Copy, PartialEq, Eq, Structural, Debug)]
pub enum ControlSignal {
    /// A signed 16-bit sample for the next channel in interleaving order.
    Sample(i16),
    /// The channel count or sample rate changed. Only valid as the very
    /// first value obtained, before streaming begins.
    MetadataChanged,
    /// No more samples for now; more may come later.
    Paused,
    /// All samples have been retrieved and no more will come.
    Finished,
}

/// A condition that must abort the render loop; none of these is
/// recoverable.
#[derive(Clone, Copy, PartialEq, Eq, Structural, Debug)]
pub enum FatalError {
    /// The very first value from the source was not `MetadataChanged`.
    UnexpectedFirstSignal,
    /// `MetadataChanged` arrived after streaming began: the source must
    /// not change its format mid-stream.
    MetadataChangedMidStream,
    /// The source reported an error of its own.
    SourceError,
}

/// Startup protocol check: the first value obtained from the source must
/// be `MetadataChanged`; anything else aborts startup.
pub fn check_startup(first: ControlSignal) -> (r: Result<(), FatalError>)
    ensures
        r is Ok <==> first is MetadataChanged,
        r is Err ==> r->Err_0 is UnexpectedFirstSignal,
{
    match first {
        ControlSignal::MetadataChanged => Ok(()),
        _ => Err(FatalError::UnexpectedFirstSignal),
    }
}

} // verus!
