//! Token and cost counters of a working session.
use vstd::prelude::*;
use crate::process::unix_now_secs;

verus! {

/// Running totals; each counter wraps around on overflow.
pub struct MetricsTracker {
    pub total_input_tokens: u64,
    pub total_output_tokens: u64,
    pub total_cost_cents: u64,
    /// When the session started, in seconds since the Unix epoch.
    pub session_start_secs: u64,
}

impl MetricsTracker {
    /// All counters at zero; the session starts now.
    pub fn new() -> (r: Self)
        ensures
            r.total_input_tokens == 0,
            r.total_output_tokens == 0,
            r.total_cost_cents == 0,
    {
        MetricsTracker {
            total_input_tokens: 0,
            total_output_tokens: 0,
            total_cost_cents: 0,
            session_start_secs: unix_now_secs(),
        }
    }

    pub fn add_tokens(&mut self, input: u64, output: u64)
        ensures
            final(self).total_input_tokens == (old(self).total_input_tokens + input) % 0x1_0000_0000_0000_0000,
            final(self).total_output_tokens == (old(self).total_output_tokens + output) % 0x1_0000_0000_0000_0000,
            final(self).total_cost_cents == old(self).total_cost_cents,
            final(self).session_start_secs == old(self).session_start_secs,
    {
        self.total_input_tokens = self.total_input_tokens.wrapping_add(input);
        self.total_output_tokens = self.total_output_tokens.wrapping_add(output);
    }

    pub fn add_cost(&mut self, cost_cents: u64)
        ensures
            final(self).total_cost_cents == (old(self).total_cost_cents + cost_cents) % 0x1_0000_0000_0000_0000,
            final(self).total_input_tokens == old(self).total_input_tokens,
            final(self).total_output_tokens == old(self).total_output_tokens,
            final(self).session_start_secs == old(self).session_start_secs,
    {
        self.total_cost_cents = self.total_cost_cents.wrapping_add(cost_cents);
    }

    /// All counters back to zero; a new session starts now.
    pub fn reset(&mut self)
        ensures
            final(self).total_input_tokens == 0,
            final(self).total_output_tokens == 0,
            final(self).total_cost_cents == 0,
    {
        self.total_input_tokens = 0;
        self.total_output_tokens = 0;
        self.total_cost_cents = 0;
        self.session_start_secs = unix_now_secs();
    }

    /// Input and output tokens together, wrapping around on overflow.
    pub fn total_tokens(&self) -> (r: u64)
        ensures
            r == (self.total_input_tokens + self.total_output_tokens) % 0x1_0000_0000_0000_0000,
    {
        self.total_input_tokens.wrapping_add(self.total_output_tokens)
    }
}

} // verus!
