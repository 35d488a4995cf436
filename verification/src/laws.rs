//! What holds of the validator on every transition.

use crate::contract::{accepts, verdict, Rejection};
use crate::state::{Action, VaultState};
use crate::transition::{absent, belongs, located, sole_at, AppId, Record};
use vstd::prelude::*;

verus! {

/// The vault's state is located, and is `state`, exactly if one record and no
/// other belongs to the vault and its payload decodes to `state`.
pub proof fn lemma_located_iff_sole_record(records: Seq<Record>, app: AppId, state: VaultState)
    ensures
        located(records, app) == Ok::<VaultState, Rejection>(state) <==> exists|i: int|
            sole_at(records, app, i) && records[i].state == Some(state),
{
    if exists|i: int| sole_at(records, app, i) && records[i].state == Some(state) {
        let i = choose|i: int| sole_at(records, app, i) && records[i].state == Some(state);
        assert(belongs(records, app, i));
        let c = choose|j: int| sole_at(records, app, j);
        assert(c == i);
    }
    if located(records, app) == Ok::<VaultState, Rejection>(state) {
        let c = choose|j: int| sole_at(records, app, j);
        assert(sole_at(records, app, c) && records[c].state == Some(state));
    }
}

/// Initialization. An `Initialize` is accepted exactly if the vault's state
/// is located among the outputs and carries the declared owner, heir and
/// timeout and a heartbeat that is not zero. With the state located, any
/// other owner, heir or timeout, or a heartbeat of zero, is rejected as a
/// violation. Whatever the inputs hold makes no difference.
pub proof fn lemma_initialize_accepted_iff_as_declared(
    app: AppId,
    inputs: Seq<Record>,
    outputs: Seq<Record>,
    action: Action,
)
    requires
        action is Initialize,
    ensures
        accepts(app, inputs, outputs, Some(action)) <==> ({
            &&& located(outputs, app) matches Ok(produced)
            &&& produced.owner_pubkey == action->owner_pubkey
            &&& produced.heir_pubkey == action->heir_pubkey
            &&& produced.timeout_blocks == action->timeout_blocks
            &&& produced.last_heartbeat != 0
        }),
        located(outputs, app) is Ok && !accepts(app, inputs, outputs, Some(action)) ==> verdict(
            app,
            inputs,
            outputs,
            Some(action),
        ) == Err::<(), Rejection>(Rejection::InvariantViolation),
{
}

/// Pulse. A `Pulse` is accepted exactly if the vault's state is located among
/// the inputs and among the outputs, owner, heir and timeout are identical in
/// both, and the heartbeat has strictly increased. With both states located,
/// an equal or lower heartbeat is rejected as a violation, and so is any
/// change of a key or of the timeout.
pub proof fn lemma_pulse_accepted_iff_renewal(
    app: AppId,
    inputs: Seq<Record>,
    outputs: Seq<Record>,
)
    ensures
        accepts(app, inputs, outputs, Some(Action::Pulse)) <==> ({
            &&& located(inputs, app) matches Ok(prior)
            &&& located(outputs, app) matches Ok(produced)
            &&& produced.owner_pubkey == prior.owner_pubkey
            &&& produced.heir_pubkey == prior.heir_pubkey
            &&& produced.timeout_blocks == prior.timeout_blocks
            &&& produced.last_heartbeat > prior.last_heartbeat
        }),
        located(inputs, app) is Ok && located(outputs, app) is Ok && !accepts(
            app,
            inputs,
            outputs,
            Some(Action::Pulse),
        ) ==> verdict(app, inputs, outputs, Some(Action::Pulse)) == Err::<(), Rejection>(
            Rejection::InvariantViolation,
        ),
{
}

/// Claim. A `Claim` is accepted exactly if the vault's state is located among
/// the inputs. The outputs have no part in it: no two sets of outputs are told
/// apart.
pub proof fn lemma_claim_accepted_iff_prior_located(
    app: AppId,
    inputs: Seq<Record>,
    outputs: Seq<Record>,
    other_outputs: Seq<Record>,
)
    ensures
        accepts(app, inputs, outputs, Some(Action::Claim)) <==> located(inputs, app) is Ok,
        verdict(app, inputs, outputs, Some(Action::Claim)) == verdict(
            app,
            inputs,
            other_outputs,
            Some(Action::Claim),
        ),
{
}

/// Validation has no hidden state: the outcomes of two validations of the
/// same transition under the same action are the same.
pub proof fn lemma_validation_is_repeatable(
    app: AppId,
    inputs: Seq<Record>,
    outputs: Seq<Record>,
    action: Option<Action>,
    first: Result<(), Rejection>,
    second: Result<(), Rejection>,
)
    requires
        first == verdict(app, inputs, outputs, action),
        second == verdict(app, inputs, outputs, action),
    ensures
        first == second,
{
}

/// Missing records. A `Pulse` or a `Claim` with no record of the vault among
/// the inputs is rejected for that reason; an `Initialize` or a `Pulse` with
/// none among the outputs is rejected, and for that reason unless the inputs
/// already fail a `Pulse`.
pub proof fn lemma_missing_record_rejects(
    app: AppId,
    inputs: Seq<Record>,
    outputs: Seq<Record>,
    action: Action,
)
    ensures
        absent(inputs, app) && (action is Pulse || action is Claim) ==> verdict(
            app,
            inputs,
            outputs,
            Some(action),
        ) == Err::<(), Rejection>(Rejection::MissingRecord),
        absent(outputs, app) && (action is Initialize || action is Pulse) ==> !accepts(
            app,
            inputs,
            outputs,
            Some(action),
        ),
        absent(outputs, app) && (action is Initialize || (action is Pulse && located(inputs, app)
            is Ok)) ==> verdict(app, inputs, outputs, Some(action)) == Err::<(), Rejection>(
            Rejection::MissingRecord,
        ),
{
}

/// One step in the life of a vault: an action with the records that its
/// transition consumes and produces.
pub struct Step {
    pub inputs: Seq<Record>,
    pub outputs: Seq<Record>,
    pub action: Action,
}

/// `steps` is the life of the vault of `app` so far: an accepted `Initialize`
/// followed by accepted `Pulse`s, each of which consumes the state that the
/// step before it produced.
pub open spec fn is_life(app: AppId, steps: Seq<Step>) -> bool {
    &&& steps.len() > 0
    &&& steps[0].action is Initialize
    &&& forall|k: int|
        0 <= k < steps.len() ==> accepts(
            app,
            (#[trigger] steps[k]).inputs,
            steps[k].outputs,
            Some(steps[k].action),
        )
    &&& forall|j: int, k: int|
        0 <= j && k == j + 1 && k < steps.len() ==> (#[trigger] steps[k]).action is Pulse
            && located(steps[k].inputs, app) == located((#[trigger] steps[j]).outputs, app)
}

/// Over the whole life of a vault, every state that a step produces carries
/// the owner, the heir and the timeout that the `Initialize` declared, its
/// heartbeat is set, and from an earlier step to a later one the heartbeat
/// has strictly increased.
pub proof fn lemma_life_keeps_terms(app: AppId, steps: Seq<Step>, earlier: int, later: int)
    requires
        is_life(app, steps),
        0 <= earlier <= later < steps.len(),
    ensures
        located(steps[earlier].outputs, app) is Ok,
        located(steps[later].outputs, app) is Ok,
        ({
            let declared = steps[0].action;
            let old_state = located(steps[earlier].outputs, app)->Ok_0;
            let new_state = located(steps[later].outputs, app)->Ok_0;
            &&& new_state.owner_pubkey == declared->owner_pubkey
            &&& new_state.heir_pubkey == declared->heir_pubkey
            &&& new_state.timeout_blocks == declared->timeout_blocks
            &&& new_state.last_heartbeat != 0
            &&& earlier < later ==> new_state.last_heartbeat > old_state.last_heartbeat
        }),
    decreases later,
{
    if later > 0 {
        let previous = if earlier < later {
            earlier
        } else {
            later - 1
        };
        lemma_life_keeps_terms(app, steps, previous, later - 1);
        assert(steps[later].action is Pulse && located(steps[later].inputs, app) == located(
            steps[later - 1].outputs,
            app,
        ));
    }
}

/// A pulse never brings the claim nearer: at any height at which the vault
/// is claimable after the pulse, it was claimable before it.
pub proof fn lemma_pulse_postpones_claim(prior: VaultState, produced: VaultState, height: u64)
    requires
        produced.renews(prior),
    ensures
        produced.claimable_at(height) ==> prior.claimable_at(height),
{
}

} // verus!
