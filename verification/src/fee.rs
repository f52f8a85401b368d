use vstd::prelude::*;
use crate::errors::PerWalletError;

verus! {

/// The confirmation target used when the caller names none: the next block.
pub const DEFAULT_FEE_TARGET: u64 = 1;

/// A fee-estimate snapshot: confirmation targets (block counts) paired with
/// fee rates (sat/vbyte). A snapshot is only good for the query that
/// produced it.
pub struct FeeEstimates {
    entries: Vec<(u64, u64)>,
}

impl View for FeeEstimates {
    type V = Seq<(u64, u64)>;

    closed spec fn view(&self) -> Seq<(u64, u64)> {
        self.entries@
    }
}

/// The rate of the first entry with the given target, if any.
pub open spec fn lookup(entries: Seq<(u64, u64)>, target: u64) -> Option<u64>
    decreases entries.len(),
{
    if entries.len() == 0 {
        None
    } else if entries[0].0 == target {
        Some(entries[0].1)
    } else {
        lookup(entries.drop_first(), target)
    }
}

/// The confirmation target a request resolves to: the explicit one, or the
/// default.
pub open spec fn resolved_target(target: Option<u64>) -> u64 {
    match target {
        Some(t) => t,
        None => DEFAULT_FEE_TARGET,
    }
}

impl FeeEstimates {
    /// Wraps a snapshot as handed over by the chain-data collaborator.
    pub fn new(entries: Vec<(u64, u64)>) -> (r: Self)
        ensures
            r@ == entries@,
    {
        FeeEstimates { entries }
    }

    /// Resolves the fee rate for a confirmation target — the explicit one,
    /// or the next-block default. The first snapshot entry with the resolved
    /// target decides; a snapshot without it is `FeeUnavailable`, and no
    /// synthetic fallback is computed.
    #[verifier::loop_isolation(false)]
    pub fn fee_rate(&self, target: Option<u64>) -> (r: Result<u64, PerWalletError>)
        ensures
            r matches Ok(v) ==> lookup(self@, resolved_target(target)) == Some(v),
            r is Err <==> lookup(self@, resolved_target(target)) is None,
            r matches Err(e) ==> e == PerWalletError::FeeUnavailable,
    {
        let t = match target {
            Some(t) => t,
            None => DEFAULT_FEE_TARGET,
        };
        let n = self.entries.len();
        proof {
            assert(self@.skip(0) =~= self@);
        }
        for i in 0..n
            invariant
                lookup(self@, t) == lookup(self@.skip(i as int), t),
        {
            let (entry_target, entry_rate) = self.entries[i];
            proof {
                assert(self@.skip(i as int)[0] == self@[i as int]);
            }
            if entry_target == t {
                return Ok(entry_rate);
            }
            proof {
                assert(self@.skip(i as int).drop_first() =~= self@.skip(i + 1));
            }
        }
        proof {
            assert(self@.skip(n as int) =~= Seq::<(u64, u64)>::empty());
        }
        Err(PerWalletError::FeeUnavailable)
    }
}

} // verus!
