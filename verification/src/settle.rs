use vstd::prelude::*;
use vstd::string::*;

use crate::parse::{field_of, find_field};

verus! {

/// Which ledger the settlement client talks to.
#[derive(Clone, Copy, Debug, PartialEq, Eq, Structural)]
pub enum HyleNetwork {
    Localhost,
    Devnet,
}

/// The ledger client's configuration: the network, and where its
/// command-line binary lives.
pub struct Hyle {
    pub network: HyleNetwork,
    pub hyled_path: String,
}

impl Hyle {
    pub fn new(network: HyleNetwork, hyled_path: &str) -> (h: Hyle)
        ensures
            h.network == network,
            h.hyled_path@ == hyled_path@,
    {
        Hyle { network, hyled_path: String::from_str(hyled_path) }
    }
}

/// The transaction handle in the ledger client's publish output: the
/// trimmed rest of its txhash line.
pub open spec fn spec_txhash(output: Seq<char>) -> Option<Seq<char>> {
    field_of(output, "txhash:"@)
}

/// Read the transaction handle out of the publish command's output.
pub fn extract_txhash(output: &str) -> (r: Option<String>)
    ensures
        match r {
            Some(t) => spec_txhash(output@) == Some(t@),
            None => spec_txhash(output@) is None,
        },
{
    proof {
        reveal_strlit("txhash:");
    }
    find_field(output, "txhash:")
}

/// How far one settlement attempt has come.  A replay for a game that
/// stayed won but unsettled starts over from `Pending` with the same
/// derived input.
#[derive(Clone, Copy, Debug, PartialEq, Eq, Structural)]
pub enum PipelineState {
    /// nothing done yet
    Pending,
    /// payload published under the settlement channel
    Published,
    /// receipt produced by the proving engine
    Proved,
    /// receipt persisted durably, before any broadcast
    ReceiptStored,
    /// receipt checked locally against the program identity
    SelfVerified,
    /// receipt broadcast: settlement is final, the game may be finalized
    Settled,
    /// a step failed: surfaced, the game stays won but unsettled
    Aborted,
}

/// The outside work owed in a state.
#[derive(Clone, Copy, Debug, PartialEq, Eq, Structural)]
pub enum PipelineAction {
    Publish,
    Prove,
    PersistReceipt,
    VerifyReceipt,
    Broadcast,
    FinalizeGame,
    Nothing,
}

/// The sequential order of the settlement steps: publish, prove, persist
/// the receipt, self-verify it, broadcast, then finalize the game.
pub open spec fn spec_action(s: PipelineState) -> PipelineAction {
    match s {
        PipelineState::Pending => PipelineAction::Publish,
        PipelineState::Published => PipelineAction::Prove,
        PipelineState::Proved => PipelineAction::PersistReceipt,
        PipelineState::ReceiptStored => PipelineAction::VerifyReceipt,
        PipelineState::SelfVerified => PipelineAction::Broadcast,
        PipelineState::Settled => PipelineAction::FinalizeGame,
        PipelineState::Aborted => PipelineAction::Nothing,
    }
}

/// The action a settlement attempt owes next.
pub fn next_action(s: PipelineState) -> (r: PipelineAction)
    ensures
        r == spec_action(s),
{
    match s {
        PipelineState::Pending => PipelineAction::Publish,
        PipelineState::Published => PipelineAction::Prove,
        PipelineState::Proved => PipelineAction::PersistReceipt,
        PipelineState::ReceiptStored => PipelineAction::VerifyReceipt,
        PipelineState::SelfVerified => PipelineAction::Broadcast,
        PipelineState::Settled => PipelineAction::FinalizeGame,
        PipelineState::Aborted => PipelineAction::Nothing,
    }
}

/// Where one performed action leads: forward on success, to `Aborted` on
/// any failure; `Settled` and `Aborted` absorb.
pub open spec fn spec_step(s: PipelineState, ok: bool) -> PipelineState {
    if s is Settled || s is Aborted {
        s
    } else if !ok {
        PipelineState::Aborted
    } else {
        match s {
            PipelineState::Pending => PipelineState::Published,
            PipelineState::Published => PipelineState::Proved,
            PipelineState::Proved => PipelineState::ReceiptStored,
            PipelineState::ReceiptStored => PipelineState::SelfVerified,
            PipelineState::SelfVerified => PipelineState::Settled,
            _ => s,
        }
    }
}

/// Advance a settlement attempt by the outcome of its performed action.
pub fn pipeline_step(s: PipelineState, ok: bool) -> (r: PipelineState)
    ensures
        r == spec_step(s, ok),
{
    if !ok {
        if s == PipelineState::Settled {
            return PipelineState::Settled;
        }
        return PipelineState::Aborted;
    }
    match s {
        PipelineState::Pending => PipelineState::Published,
        PipelineState::Published => PipelineState::Proved,
        PipelineState::Proved => PipelineState::ReceiptStored,
        PipelineState::ReceiptStored => PipelineState::SelfVerified,
        PipelineState::SelfVerified => PipelineState::Settled,
        PipelineState::Settled => PipelineState::Settled,
        PipelineState::Aborted => PipelineState::Aborted,
    }
}

/// Settlement is reached only through the local receipt check: a step
/// lands on `Settled` only from `SelfVerified` on a success, so nothing
/// is ever broadcast, and no game finalized, past a failed verification.
pub proof fn lemma_settled_only_after_verify(s: PipelineState, ok: bool)
    ensures
        spec_step(s, ok) == PipelineState::Settled ==> s == PipelineState::Settled || (s
            == PipelineState::SelfVerified && ok),
{
}

/// A failed attempt stays failed: no later event revives it short of an
/// explicit replay from `Pending`.
pub proof fn lemma_abort_absorbs(ok: bool)
    ensures
        spec_step(PipelineState::Aborted, ok) == PipelineState::Aborted,
{
}

} // verus!
