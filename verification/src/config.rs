//! Backend configuration: output format, batch size, and the parameters
//! of the dedicated execution context.

use vstd::prelude::*;

verus! {

/// Immutable configuration of the backend, fixed once the render loop
/// starts.
pub struct BackendConfig {
    /// The number of channels. 1 for mono, 2 for stereo...
    pub channel_count: u16,
    /// The number of samples per second.
    pub sample_rate: u32,
    /// The size in frames of the sample buffer handed to each write.
    pub num_frames_per_write: usize,
    /// The stack size of the dedicated task.
    pub stack_size: u32,
    /// The priority of the dedicated task.
    pub task_priority: u32,
    /// Whether the dedicated task should be pinned to a core and if so
    /// which core.
    pub pin_to_core: Option<u32>,
}

impl BackendConfig {
    /// Length of one batch in samples: `frames_per_write * channel_count`.
    pub open spec fn buffer_samples(self) -> nat {
        (self.num_frames_per_write * self.channel_count) as nat
    }

    /// A usable configuration: at least one channel, a positive rate, a
    /// positive batch size, and a batch whose byte form fits in memory.
    pub open spec fn wf(self) -> bool {
        &&& self.channel_count >= 1
        &&& self.sample_rate >= 1
        &&& self.num_frames_per_write >= 1
        &&& self.buffer_samples() * 2 <= usize::MAX
    }

    /// New configuration with the defaults of: `stack_size` 30,000,
    /// `task_priority` 19, `pin_to_core` none.
    pub fn with_defaults(
        channel_count: u16,
        sample_rate: u32,
        num_frames_per_write: usize,
    ) -> (c: Self)
        ensures
            c.channel_count == channel_count,
            c.sample_rate == sample_rate,
            c.num_frames_per_write == num_frames_per_write,
            c.stack_size == 30000u32,
            c.task_priority == 19u32,
            c.pin_to_core is None,
    {
        BackendConfig {
            channel_count,
            sample_rate,
            num_frames_per_write,
            stack_size: 30000,
            task_priority: 19,
            pin_to_core: None,
        }
    }

    /// The batch length in samples, as a machine integer.
    pub fn buffer_len(&self) -> (n: usize)
        requires
            self.wf(),
        ensures
            n == self.buffer_samples(),
            n >= 1,
    {
        proof {
            assert(self.num_frames_per_write * self.channel_count >= 1) by (nonlinear_arith)
                requires
                    self.num_frames_per_write >= 1,
                    self.channel_count >= 1,
            ;
        }
        self.num_frames_per_write * (self.channel_count as usize)
    }
}

} // verus!
