//! The decision itself: whether a proposed transition of the vault is
//! acceptable.

pub use crate::state::{Action, VaultState};
use crate::transition::{locate, located, AppId, Record, Transition};
use vstd::prelude::*;

verus! {

/// Why a transition is rejected.
#[derive(Debug, Clone, Copy, PartialEq, Eq)]
pub enum Rejection {
    /// The action, or the payload of the vault's record, does not decode.
    DecodeFailure,
    /// A record of the vault that the action needs is not there.
    MissingRecord,
    /// More than one record of the vault stands where exactly one is needed.
    AmbiguousRecord,
    /// The records are there, but the change they describe is not allowed.
    InvariantViolation,
}

/// The outcome of validating `action` on the vault of `app`, given the
/// records that the transition consumes (`inputs`) and produces (`outputs`).
/// `action` is `None` where the action's payload does not decode.
///
/// - `Initialize` needs the vault's state among the outputs, carrying the
///   declared keys and timeout and a heartbeat that is set. The inputs are
///   not looked at.
/// - `Pulse` needs the vault's state among the inputs and among the outputs,
///   the latter with the same keys and timeout and a strictly later
///   heartbeat.
/// - `Claim` needs the vault's state among the inputs, and nothing else: the
///   outputs are not looked at, and that the timeout has lapsed is for the
///   caller to have established.
///
/// Where several things are wrong, the first of these is reported: the
/// action, the inputs, the outputs, the change itself.
pub open spec fn verdict(
    app: AppId,
    inputs: Seq<Record>,
    outputs: Seq<Record>,
    action: Option<Action>,
) -> Result<(), Rejection> {
    match action {
        None => Err(Rejection::DecodeFailure),
        Some(Action::Initialize { owner_pubkey, heir_pubkey, timeout_blocks }) => match located(
            outputs,
            app,
        ) {
            Err(why) => Err(why),
            Ok(produced) => if produced.opens_with(owner_pubkey, heir_pubkey, timeout_blocks) {
                Ok(())
            } else {
                Err(Rejection::InvariantViolation)
            },
        },
        Some(Action::Pulse) => match located(inputs, app) {
            Err(why) => Err(why),
            Ok(prior) => match located(outputs, app) {
                Err(why) => Err(why),
                Ok(produced) => if produced.renews(prior) {
                    Ok(())
                } else {
                    Err(Rejection::InvariantViolation)
                },
            },
        },
        Some(Action::Claim) => match located(inputs, app) {
            Err(why) => Err(why),
            Ok(_) => Ok(()),
        },
    }
}

/// Whether the transition is accepted.
pub open spec fn accepts(
    app: AppId,
    inputs: Seq<Record>,
    outputs: Seq<Record>,
    action: Option<Action>,
) -> bool {
    verdict(app, inputs, outputs, action) is Ok
}

/// Validates `action` on the vault of `app` against the records of `tx`, and
/// says why where it rejects.
pub fn validate(app: &AppId, tx: &Transition, action: &Option<Action>) -> (outcome: Result<
    (),
    Rejection,
>)
    ensures
        outcome == verdict(*app, tx.inputs@, tx.outputs@, *action),
{
    match action {
        None => Err(Rejection::DecodeFailure),
        Some(Action::Initialize { owner_pubkey, heir_pubkey, timeout_blocks }) => {
            let produced = match locate(&tx.outputs, app) {
                Ok(state) => state,
                Err(why) => return Err(why),
            };
            if produced.is_opening(owner_pubkey, heir_pubkey, *timeout_blocks) {
                Ok(())
            } else {
                Err(Rejection::InvariantViolation)
            }
        },
        Some(Action::Pulse) => {
            let prior = match locate(&tx.inputs, app) {
                Ok(state) => state,
                Err(why) => return Err(why),
            };
            let produced = match locate(&tx.outputs, app) {
                Ok(state) => state,
                Err(why) => return Err(why),
            };
            if produced.is_renewal_of(&prior) {
                Ok(())
            } else {
                Err(Rejection::InvariantViolation)
            }
        },
        Some(Action::Claim) => {
            match locate(&tx.inputs, app) {
                Ok(_) => Ok(()),
                Err(why) => Err(why),
            }
        },
    }
}

/// Decides whether the transition `tx` of the vault of `app` is acceptable.
///
/// `x` is the action that the caller declares, `None` where its payload does
/// not decode. The witness `_w` is not read. Every failure is a plain `false`.
pub fn app_contract<W>(app: &AppId, tx: &Transition, x: &Option<Action>, _w: &W) -> (accepted: bool)
    ensures
        accepted == accepts(*app, tx.inputs@, tx.outputs@, *x),
{
    match validate(app, tx, x) {
        Ok(_) => true,
        Err(_) => false,
    }
}

} // verus!
