use vstd::prelude::*;

verus! {

/// How many consecutive unused addresses a chain scan probes before
/// concluding that a branch holds no further funds.
pub const DEFAULT_STOP_GAP: usize = 5;

/// How many provider requests a scan keeps in flight at once.
pub const DEFAULT_PARALLEL_REQUESTS: usize = 5;

/// The immutable knobs of a run, injected where the pipeline is built
/// rather than hidden as globals: the scan stop-gap, the scan concurrency,
/// and the confirmation target the fee oracle resolves when the operator
/// names none.
pub struct Config {
    pub stop_gap: usize,
    pub parallel_requests: usize,
    pub fee_target: Option<u64>,
}

impl Default for Config {
    /// The stock configuration: stop-gap and concurrency of five, and the
    /// fee oracle's own default confirmation target.
    fn default() -> (c: Config)
        ensures
            c.stop_gap == DEFAULT_STOP_GAP,
            c.parallel_requests == DEFAULT_PARALLEL_REQUESTS,
            c.fee_target is None,
    {
        Config {
            stop_gap: DEFAULT_STOP_GAP,
            parallel_requests: DEFAULT_PARALLEL_REQUESTS,
            fee_target: None,
        }
    }
}

} // verus!
