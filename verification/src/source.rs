//! The boundary to the sample source: `awedio`'s `Renderer`, the
//! rendering half of an `awedio` `Manager`. The renderer is opaque to
//! verification; each call the render loop makes goes through a trusted
//! wrapper, and what came back is handled by verified code.

use vstd::prelude::*;

use awedio::manager::BackendSource;
use awedio::Sound;

use crate::signal::ControlSignal;
use crate::signal::FatalError;

verus! {

/// `awedio::manager::Renderer`, declared so that it can stand in
/// signatures; its values are opaque and only the wrappers below touch
/// them.
#[verifier::external_type_specification]
#[verifier::external_body]
pub struct ExRenderer(awedio::manager::Renderer);

/// Relies on awedio's `BackendSource::set_output_channel_count_and_sample_rate`
/// for `Renderer`: records the output format in the mixer and returns
/// nothing.
///
/// The format must be positive: awedio wraps every playing and later
/// added sound in rate and channel converters built from these values,
/// whose constructors assert a sample rate of at least 1, so a zero
/// value recorded here would abort later inside awedio. The converters
/// also abort on a channel conversion awedio does not implement
/// (anything besides keeping the count or mono/stereo); that depends
/// on the sounds played, not on these arguments, and cannot arise
/// under this library's configure-once startup protocol.
#[verifier::external_body]
pub(crate) fn configure_source(
    source: &mut awedio::manager::Renderer,
    channel_count: u16,
    sample_rate: u32,
)
    requires
        channel_count >= 1,
        sample_rate >= 1,
{
    source.set_output_channel_count_and_sample_rate(channel_count, sample_rate);
}

/// Relies on awedio's `Sound::next_sample` for `Renderer`: yields the
/// next interleaved sample or a control notification. Which value comes
/// back depends on the sounds playing, so nothing is promised of it;
/// the callers handle every outcome. The call is only as well-behaved
/// as the sounds in the mixer: one whose own `next_sample` panics or
/// reports a metadata change without end takes this call with it.
#[verifier::external_body]
pub(crate) fn next_signal(source: &mut awedio::manager::Renderer) -> (sig: Result<
    ControlSignal,
    FatalError,
>)
    ensures
        sig matches Err(e) ==> e is SourceError,
{
    match source.next_sample() {
        Ok(awedio::NextSample::Sample(s)) => Ok(ControlSignal::Sample(s)),
        Ok(awedio::NextSample::MetadataChanged) => Ok(ControlSignal::MetadataChanged),
        Ok(awedio::NextSample::Paused) => Ok(ControlSignal::Paused),
        Ok(awedio::NextSample::Finished) => Ok(ControlSignal::Finished),
        Err(_) => Err(FatalError::SourceError),
    }
}

/// Relies on awedio's `Sound::on_start_of_batch` for `Renderer`: lets
/// the playing sounds apply pending changes at a batch boundary; it
/// returns nothing. Sounds queued since the last boundary are wrapped
/// in converters built from the format recorded at configuration,
/// which `configure_source` keeps valid.
#[verifier::external_body]
pub(crate) fn start_of_batch(source: &mut awedio::manager::Renderer) {
    source.on_start_of_batch()
}

} // verus!
