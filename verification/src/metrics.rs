//! Render-time accounting: rolling counters of time spent rendering and
//! samples rendered, and the share of the real-time audio budget that
//! rendering consumed. Diagnostic only; it never alters control flow.

use vstd::prelude::*;

verus! {

/// The real-time budget in microseconds for rendering `samples`
/// interleaved samples at the given rate and channel count:
/// `samples / sample_rate / channel_count` seconds.
pub open spec fn spec_budget_micros(samples: u64, sample_rate: u32, channel_count: u16) -> int {
    samples * 1_000_000 / (sample_rate * channel_count)
}

/// Rolling counters, reset once per reporting interval.
pub struct RenderMetrics {
    /// Accumulated render time in microseconds since the last report.
    pub render_micros: u64,
    /// Accumulated interleaved sample count since the last report.
    pub samples_rendered: u64,
}

impl RenderMetrics {
    /// Fresh counters, all zero.
    pub fn new() -> (m: Self)
        ensures
            m.render_micros == 0,
            m.samples_rendered == 0,
    {
        RenderMetrics { render_micros: 0, samples_rendered: 0 }
    }

    /// Account one batch: `micros` spent rendering `samples` samples.
    /// The counters saturate rather than wrap.
    pub fn record_batch(&mut self, micros: u64, samples: u64)
        ensures
            final(self).render_micros == (if old(self).render_micros + micros <= u64::MAX {
                old(self).render_micros + micros
            } else {
                u64::MAX as int
            }),
            final(self).samples_rendered == (if old(self).samples_rendered + samples
                <= u64::MAX {
                old(self).samples_rendered + samples
            } else {
                u64::MAX as int
            }),
    {
        self.render_micros = if micros <= u64::MAX - self.render_micros {
            self.render_micros + micros
        } else {
            u64::MAX
        };
        self.samples_rendered = if samples <= u64::MAX - self.samples_rendered {
            self.samples_rendered + samples
        } else {
            u64::MAX
        };
    }

    /// The percentage of the real-time budget consumed by rendering:
    /// `render_micros / budget_micros * 100`, or `None` when the
    /// accumulated budget rounds down to nothing.
    pub fn budget_percent(&self, sample_rate: u32, channel_count: u16) -> (p: Option<u128>)
        requires
            sample_rate >= 1,
            channel_count >= 1,
        ensures
            (p is None <==> spec_budget_micros(self.samples_rendered, sample_rate, channel_count)
                == 0),
            p matches Some(v) ==> v == self.render_micros * 100 / spec_budget_micros(
                self.samples_rendered,
                sample_rate,
                channel_count,
            ),
    {
        proof {
            assert(sample_rate * channel_count >= 1) by (nonlinear_arith)
                requires
                    sample_rate >= 1,
                    channel_count >= 1,
            ;
            assert(sample_rate * channel_count <= u32::MAX * u16::MAX) by (nonlinear_arith)
                requires
                    sample_rate <= u32::MAX,
                    channel_count <= u16::MAX,
            ;
            assert(self.samples_rendered * 1_000_000 <= u64::MAX * 1_000_000) by (nonlinear_arith)
                requires
                    self.samples_rendered <= u64::MAX,
            ;
        }
        let denom: u128 = (sample_rate as u128) * (channel_count as u128);
        let budget: u128 = (self.samples_rendered as u128) * 1_000_000 / denom;
        if budget == 0 {
            None
        } else {
            proof {
                assert(self.render_micros * 100 <= u64::MAX * 100) by (nonlinear_arith)
                    requires
                        self.render_micros <= u64::MAX,
                ;
            }
            Some((self.render_micros as u128) * 100 / budget)
        }
    }

    /// Reset the counters at the end of a reporting interval.
    pub fn reset(&mut self)
        ensures
            final(self).render_micros == 0,
            final(self).samples_rendered == 0,
    {
        self.render_micros = 0;
        self.samples_rendered = 0;
    }
}

} // verus!
