//! The bundler registry: flagging a wallet and counting the flagged.

use vstd::prelude::*;
use crate::address::Address;
use crate::error::DiamondPadError;
use crate::events::BundlerFlagged;
use crate::state::{Bundler, Protocol};

verus! {

/// What flagging works on: the aggregate, the wallet to flag and the record
/// kept for that wallet.
#[derive(Clone, Debug, PartialEq, Eq)]
pub struct FlagBundler {
    pub protocol: Protocol,
    pub flagged_wallet: Address,
    pub bundler: Bundler,
    pub bundler_bump: u8,
}

impl FlagBundler {
    /// The limit within which a wallet can be flagged: the count of the
    /// flagged stays representable.
    pub open spec fn within_limits(self) -> bool {
        self.protocol.total_bundlers_caught + 1 <= u64::MAX
    }

    /// The records after the wallet is flagged at `now` on `evidence`: the
    /// wallet's record holds the evidence and one incident, and the count of
    /// the flagged rises by one.
    pub open spec fn after(self, evidence: String, now: i64) -> Self {
        FlagBundler {
            protocol: Protocol {
                total_bundlers_caught: (self.protocol.total_bundlers_caught + 1) as u64,
                ..self.protocol
            },
            bundler: Bundler {
                wallet: self.flagged_wallet,
                flagged_at: now,
                evidence,
                incident_count: 1,
                bump: self.bundler_bump,
            },
            ..self
        }
    }

    /// Tests at run time whether `within_limits` holds.
    pub fn check_limits(&self) -> (ok: bool)
        ensures
            ok == self.within_limits(),
    {
        self.protocol.total_bundlers_caught < u64::MAX
    }
}

/// Flags the wallet as a bundler at `now`, on `evidence`. Never refused.
///
/// The wallet's record is filled in with the evidence and one incident, and
/// the count of the flagged rises by one.
pub fn flag_bundler(ctx: &mut FlagBundler, evidence: String, now: i64) -> (result: Result<
    BundlerFlagged,
    DiamondPadError,
>)
    requires
        old(ctx).within_limits(),
    ensures
        result == Ok::<BundlerFlagged, DiamondPadError>(
            (BundlerFlagged { wallet: old(ctx).flagged_wallet, evidence }),
        ),
        *final(ctx) == old(ctx).after(evidence, now),
        final(ctx).protocol.total_bundlers_caught == old(ctx).protocol.total_bundlers_caught + 1,
        old(ctx).protocol.wf() ==> final(ctx).protocol.wf(),
{
    ctx.bundler.wallet = ctx.flagged_wallet;
    ctx.bundler.flagged_at = now;
    ctx.bundler.evidence = evidence.clone();
    ctx.bundler.incident_count = 1;
    ctx.bundler.bump = ctx.bundler_bump;
    ctx.protocol.total_bundlers_caught = ctx.protocol.total_bundlers_caught + 1;
    Ok(BundlerFlagged { wallet: ctx.bundler.wallet, evidence })
}

} // verus!
