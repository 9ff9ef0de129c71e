//! The render loop's per-iteration core. Each iteration pulls one batch
//! of signals from the sample source, and returns a directive naming
//! exactly the hardware actions the caller must perform, in order:
//! enable the output stage, write the batch's bytes, disable the output
//! stage, then sleep briefly or terminate the execution context.

use vstd::prelude::*;

use crate::batch::padded;
use crate::batch::BatchFill;
use crate::batch::FillStep;
use crate::config::BackendConfig;
use crate::device::DeviceState;
use crate::device::DeviceStateController;
use crate::encode::encode_samples;
use crate::encode::le_bytes_of;
use crate::signal::check_startup;
use crate::signal::FatalError;
use crate::source;

verus! {

/// Whether the hardware "start output" call is issued this iteration:
/// only at the transition into active audio, never when the device is
/// already enabled.
pub open spec fn spec_enable_issued(device_before: DeviceState, have_data: bool) -> bool {
    have_data && device_before is Disabled
}

/// Whether the hardware "stop output" call is issued this iteration:
/// only when an idle or terminal iteration would otherwise leave the
/// device enabled.
pub open spec fn spec_disable_issued(
    device_before: DeviceState,
    paused: bool,
    finished: bool,
    have_data: bool,
) -> bool {
    (paused || finished) && (device_before is Enabled || have_data)
}

/// The device state an iteration leaves behind: disabled after a pause
/// or finish, enabled while data flows.
pub open spec fn spec_device_after(
    device_before: DeviceState,
    paused: bool,
    finished: bool,
    have_data: bool,
) -> DeviceState {
    if paused || finished {
        DeviceState::Disabled
    } else if have_data {
        DeviceState::Enabled
    } else {
        device_before
    }
}

/// The hardware actions of one iteration, in the order the caller must
/// perform them.
pub struct Directive {
    /// Issue the "start output" call before writing.
    pub issue_enable: bool,
    /// Write these bytes to the sink, blocking until fully consumed;
    /// an error or short write is fatal.
    pub write: Option<Vec<u8>>,
    /// Issue the "stop output" call after any write.
    pub issue_disable: bool,
    /// Sleep briefly before the next iteration: the source is paused.
    pub sleep: bool,
    /// The loop is over: terminate the execution context.
    pub exit: bool,
    /// A fatal condition: abort the execution context.
    pub fault: Option<FatalError>,
}

/// The render loop's state: the device controller, the reused batch
/// buffer, and ghost bookkeeping of everything pulled and written.
pub struct RenderLoop {
    /// Tracks whether the output stage is enabled.
    pub device: DeviceStateController,
    /// The batch under construction; its buffer is allocated once.
    pub fill: BatchFill,
    /// Set once `Finished` or a fatal condition was observed; no
    /// further iteration may run.
    pub done: bool,
    /// All real samples pulled from the source in completed batches.
    pub pulled: Ghost<Seq<i16>>,
    /// All samples handed to the sink, padding included.
    pub written: Ghost<Seq<i16>>,
    /// No pause or finish has been observed yet: the audio is one
    /// continuous span.
    pub continuous: Ghost<bool>,
}

impl RenderLoop {
    /// The fixed batch length in samples.
    pub open spec fn batch_len(self) -> nat {
        self.fill.len()
    }

    /// Well-formedness: the filler is sound, a batch's byte form fits
    /// in memory, and over a continuous span the sink received exactly
    /// the pulled samples.
    pub open spec fn inv(self) -> bool {
        &&& self.fill.inv()
        &&& self.batch_len() * 2 <= usize::MAX
        &&& (self.continuous@ ==> self.written@ === self.pulled@)
    }

    /// A fresh loop for the given configuration: device disabled,
    /// buffer of exactly `frames_per_write * channel_count` samples.
    pub fn new(cfg: &BackendConfig) -> (rl: RenderLoop)
        requires
            cfg.wf(),
        ensures
            rl.inv(),
            !rl.done,
            rl.batch_len() == cfg.buffer_samples(),
            rl.device.state is Disabled,
            rl.pulled@ === Seq::<i16>::empty(),
            rl.written@ === Seq::<i16>::empty(),
            rl.continuous@,
    {
        let len = cfg.buffer_len();
        RenderLoop {
            device: DeviceStateController::new(),
            fill: BatchFill::new(len),
            done: false,
            pulled: Ghost(Seq::empty()),
            written: Ghost(Seq::empty()),
            continuous: Ghost(true),
        }
    }

    /// Run one iteration: signal the start of the batch, fill the
    /// buffer from the source, and decide the hardware actions. Must
    /// not be called again once `done` (after `Finished` no further
    /// call is made to the source).
    pub fn run_iteration(&mut self, source: &mut awedio::manager::Renderer) -> (d: Directive)
        requires
            old(self).inv(),
            !old(self).done,
        ensures
            final(self).inv(),
            final(self).batch_len() == old(self).batch_len(),
            d.fault matches Some(e) ==> (e is MetadataChangedMidStream || e is SourceError)
                && d.exit && final(self).done && d.write is None && !d.issue_enable
                && !d.issue_disable && final(self).device == old(self).device
                && final(self).pulled@ === old(self).pulled@ && final(self).written@ === old(
                self,
            ).written@,
            d.fault is None ==> ({
                let f = final(self).fill;
                &&& f.complete
                &&& f.len() == old(self).batch_len()
                &&& (d.write is Some <==> f.have_data)
                &&& (d.write matches Some(b) ==> b@ === le_bytes_of(f.buf@) && b@.len() == 2 * f.len())
                &&& (f.have_data ==> f.buf@ === padded(f.samples@, f.len()))
                &&& d.issue_enable == spec_enable_issued(old(self).device.state, f.have_data)
                &&& d.issue_disable == spec_disable_issued(
                    old(self).device.state,
                    f.paused,
                    f.finished,
                    f.have_data,
                )
                &&& final(self).device.state == spec_device_after(
                    old(self).device.state,
                    f.paused,
                    f.finished,
                    f.have_data,
                )
                &&& (d.exit <==> f.finished)
                &&& (final(self).done <==> f.finished)
                &&& (d.sleep <==> f.paused)
                &&& final(self).pulled@ === old(self).pulled@ + f.samples@
                &&& final(self).written@ === old(self).written@ + (if f.have_data {
                    f.buf@
                } else {
                    Seq::<i16>::empty()
                })
                &&& final(self).continuous@ == (old(self).continuous@ && !f.paused && !f.finished)
            }),
    {
        source::start_of_batch(source);
        self.fill.reset();
        while !self.fill.complete
            invariant
                self.fill.inv(),
                self.fill.len() == old(self).batch_len(),
                self.device == old(self).device,
                self.done == old(self).done,
                self.pulled == old(self).pulled,
                self.written == old(self).written,
                self.continuous == old(self).continuous,
                old(self).inv(),
            decreases self.fill.len() - self.fill.pos + (if self.fill.complete {
                0int
            } else {
                1int
            }),
        {
            match source::next_signal(source) {
                Ok(sig) => {
                    match self.fill.push(sig) {
                        FillStep::Violation => {
                            self.done = true;
                            return Directive {
                                issue_enable: false,
                                write: None,
                                issue_disable: false,
                                sleep: false,
                                exit: true,
                                fault: Some(FatalError::MetadataChangedMidStream),
                            };
                        }
                        _ => {}
                    }
                }
                Err(e) => {
                    self.done = true;
                    return Directive {
                        issue_enable: false,
                        write: None,
                        issue_disable: false,
                        sleep: false,
                        exit: true,
                        fault: Some(e),
                    };
                }
            }
        }
        self.pulled = Ghost(self.pulled@ + self.fill.samples@);
        let mut d = Directive {
            issue_enable: false,
            write: None,
            issue_disable: false,
            sleep: false,
            exit: false,
            fault: None,
        };
        if self.fill.have_data {
            if self.device.state == DeviceState::Disabled {
                d.issue_enable = true;
                self.device.enable();
            }
            let bytes = encode_samples(&self.fill.buf);
            self.written = Ghost(self.written@ + self.fill.buf@);
            d.write = Some(bytes);
            proof {
                assert(self.fill.buf@ =~= padded(self.fill.samples@, self.fill.len()));
            }
        }
        if self.fill.finished {
            if self.device.state == DeviceState::Enabled {
                d.issue_disable = true;
                self.device.disable();
            }
            d.exit = true;
            self.done = true;
        } else if self.fill.paused {
            if self.device.state == DeviceState::Enabled {
                d.issue_disable = true;
                self.device.disable();
            }
            d.sleep = true;
        }
        let ghost still_continuous: bool = self.continuous@ && !self.fill.paused
            && !self.fill.finished;
        self.continuous = Ghost(still_continuous);
        d
    }
}

/// Law: over a continuous span (no pause or finish observed yet), the
/// concatenation of all batches handed to the sink equals the sample
/// sequence pulled from the source, exactly and in order.
pub proof fn lemma_ordering(rl: RenderLoop)
    requires
        rl.inv(),
        rl.continuous@,
    ensures
        rl.written@ === rl.pulled@,
{
}

/// Law: the enable call is issued exactly at the transition into
/// active audio. A data-carrying iteration leaves the device enabled,
/// and an enabled device never receives a second enable call, so
/// consecutive batches of continuous audio issue exactly one.
pub proof fn lemma_enable_once(device_before: DeviceState)
    ensures
        spec_device_after(device_before, false, false, true) is Enabled,
        spec_enable_issued(DeviceState::Disabled, true),
        !spec_enable_issued(DeviceState::Enabled, true),
{
}

/// Law: an iteration that observes a pause or finish leaves the device
/// disabled, whatever state it started in, and the disable call is
/// issued only if the device would otherwise have stayed enabled.
pub proof fn lemma_idle_disables(
    device_before: DeviceState,
    paused: bool,
    finished: bool,
    have_data: bool,
)
    requires
        paused || finished,
    ensures
        spec_device_after(device_before, paused, finished, have_data) is Disabled,
        spec_disable_issued(device_before, paused, finished, have_data) <==> (
        device_before is Enabled || have_data),
{
}

/// Startup protocol: configure the source with the configured channel
/// count and sample rate, then obtain exactly one value, which must be
/// `MetadataChanged`; any other first value aborts startup before the
/// main loop is ever entered.
pub fn start_stream(source: &mut awedio::manager::Renderer, cfg: &BackendConfig) -> (r: Result<
    (),
    FatalError,
>)
    requires
        cfg.wf(),
    ensures
        r matches Err(e) ==> (e is UnexpectedFirstSignal || e is SourceError),
{
    source::configure_source(source, cfg.channel_count, cfg.sample_rate);
    match source::next_signal(source) {
        Ok(first) => check_startup(first),
        Err(e) => Err(e),
    }
}

} // verus!
