//! The records that a transition consumes and produces, and how the vault's
//! own record is found among them.

use crate::contract::Rejection;
use crate::state::{same_key, VaultState};
use vstd::prelude::*;

verus! {

/// The identity of an application: a tag, an identity and a verification key.
/// Two identities are the same exactly if all three agree.
#[derive(Debug, Clone, Copy, PartialEq, Eq)]
pub struct AppId {
    pub tag: char,
    pub identity: [u8; 32],
    pub vk: [u8; 32],
}

/// One record of a transaction: the application it belongs to and what its
/// payload holds when read as a vault state.
#[derive(Debug, Clone, Copy, PartialEq, Eq)]
pub struct Record {
    /// The application that the record belongs to.
    pub app: AppId,
    /// The decoded payload; `None` where the payload does not decode as a
    /// vault state.
    pub state: Option<VaultState>,
}

/// The unit under validation: the records that a proposed transaction
/// consumes and those that it produces, in the transaction's order. Records of
/// other applications may stand among them.
#[derive(Debug, PartialEq, Eq)]
pub struct Transition {
    /// The consumed records.
    pub inputs: Vec<Record>,
    /// The produced records.
    pub outputs: Vec<Record>,
}

impl AppId {
    /// Whether two identities are the same.
    pub fn same_as(&self, other: &AppId) -> (same: bool)
        ensures
            same == (*self == *other),
    {
        self.tag == other.tag && same_key(&self.identity, &other.identity) && same_key(
            &self.vk,
            &other.vk,
        )
    }
}

/// `records[i]` exists and belongs to `app`.
pub open spec fn belongs(records: Seq<Record>, app: AppId, i: int) -> bool {
    0 <= i < records.len() && records[i].app == app
}

/// No record of `records` belongs to `app`.
pub open spec fn absent(records: Seq<Record>, app: AppId) -> bool {
    forall|i: int| !belongs(records, app, i)
}

/// `records[i]` belongs to `app`, and no other record does.
pub open spec fn sole_at(records: Seq<Record>, app: AppId, i: int) -> bool {
    belongs(records, app, i) && forall|j: int| belongs(records, app, j) ==> j == i
}

/// The state of the vault of `app` as `records` hold it.
///
/// It is there exactly if one record, and no more, belongs to `app` and that
/// record's payload decodes. With no such record it is missing, with several
/// it is ambiguous, and with an undecodable payload the decoding has failed.
pub open spec fn located(records: Seq<Record>, app: AppId) -> Result<VaultState, Rejection> {
    if absent(records, app) {
        Err(Rejection::MissingRecord)
    } else if !exists|i: int| sole_at(records, app, i) {
        Err(Rejection::AmbiguousRecord)
    } else {
        match records[choose|i: int| sole_at(records, app, i)].state {
            Some(state) => Ok(state),
            None => Err(Rejection::DecodeFailure),
        }
    }
}

/// Finds the state of the vault of `app` among `records`.
pub fn locate(records: &Vec<Record>, app: &AppId) -> (found: Result<VaultState, Rejection>)
    ensures
        found == located(records@, *app),
{
    let mut at: Option<usize> = None;
    let mut i: usize = 0;
    while i < records.len()
        invariant
            i <= records.len(),
            at matches Some(k) ==> k < i && belongs(records@, *app, k as int),
            forall|j: int|
                0 <= j < i && belongs(records@, *app, j) ==> at == Some(j as usize),
        decreases records.len() - i,
    {
        if records[i].app.same_as(app) {
            if let Some(k) = at {
                proof {
                    assert(belongs(records@, *app, k as int));
                    assert(belongs(records@, *app, i as int));
                }
                return Err(Rejection::AmbiguousRecord);
            }
            at = Some(i);
        }
        i += 1;
    }
    match at {
        None => Err(Rejection::MissingRecord),
        Some(k) => {
            proof {
                assert(sole_at(records@, *app, k as int));
            }
            match records[k].state {
                Some(state) => Ok(state),
                None => Err(Rejection::DecodeFailure),
            }
        },
    }
}

} // verus!
