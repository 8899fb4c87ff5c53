//! The shapes of disputes exchanged with the merchant-facing layer.

use vstd::prelude::*;
use crate::enums::{DisputeStage, DisputeStatus};

verus! {

/// A dispute as a connector reports it.
#[derive(Debug, PartialEq)]
pub struct DisputePayload {
    pub amount: String,
    pub currency: String,
    pub dispute_stage: DisputeStage,
    pub connector_status: String,
    pub connector_dispute_id: String,
    pub connector_reason: Option<String>,
    pub connector_reason_code: Option<String>,
    pub challenge_required_by: Option<String>,
    pub created_at: Option<String>,
    pub updated_at: Option<String>,
}

impl DisputePayload {
    /// Whether every text is empty, every optional part absent and the stage
    /// the first one.
    pub open spec fn is_empty(self) -> bool {
        &&& self.amount@.len() == 0
        &&& self.currency@.len() == 0
        &&& self.dispute_stage == DisputeStage::PreDispute
        &&& self.connector_status@.len() == 0
        &&& self.connector_dispute_id@.len() == 0
        &&& self.connector_reason is None
        &&& self.connector_reason_code is None
        &&& self.challenge_required_by is None
        &&& self.created_at is None
        &&& self.updated_at is None
    }
}

impl Default for DisputePayload {
    fn default() -> (r: DisputePayload)
        ensures
            r.is_empty(),
    {
        DisputePayload {
            amount: String::new(),
            currency: String::new(),
            dispute_stage: DisputeStage::PreDispute,
            connector_status: String::new(),
            connector_dispute_id: String::new(),
            connector_reason: None,
            connector_reason_code: None,
            challenge_required_by: None,
            created_at: None,
            updated_at: None,
        }
    }
}

/// A dispute as it is shown to the merchant.
#[derive(Clone, Debug, PartialEq)]
pub struct DisputeResponse {
    pub dispute_id: String,
    pub payment_id: String,
    pub amount: String,
    pub currency: String,
    pub dispute_stage: DisputeStage,
    pub dispute_status: DisputeStatus,
    pub connector_status: String,
    pub connector_dispute_id: String,
    pub connector_reason: Option<String>,
    pub connector_reason_code: Option<String>,
    pub challenge_required_by: Option<String>,
    pub created_at: Option<String>,
    pub updated_at: Option<String>,
    pub received_at: String,
}

impl DisputeResponse {
    /// Whether every text is empty, every optional part absent, and stage
    /// and status the first ones.
    pub open spec fn is_empty(self) -> bool {
        &&& self.dispute_id@.len() == 0
        &&& self.payment_id@.len() == 0
        &&& self.amount@.len() == 0
        &&& self.currency@.len() == 0
        &&& self.dispute_stage == DisputeStage::PreDispute
        &&& self.dispute_status == DisputeStatus::DisputeOpened
        &&& self.connector_status@.len() == 0
        &&& self.connector_dispute_id@.len() == 0
        &&& self.connector_reason is None
        &&& self.connector_reason_code is None
        &&& self.challenge_required_by is None
        &&& self.created_at is None
        &&& self.updated_at is None
        &&& self.received_at@.len() == 0
    }
}

impl Default for DisputeResponse {
    fn default() -> (r: DisputeResponse)
        ensures
            r.is_empty(),
    {
        DisputeResponse {
            dispute_id: String::new(),
            payment_id: String::new(),
            amount: String::new(),
            currency: String::new(),
            dispute_stage: DisputeStage::PreDispute,
            dispute_status: DisputeStatus::DisputeOpened,
            connector_status: String::new(),
            connector_dispute_id: String::new(),
            connector_reason: None,
            connector_reason_code: None,
            challenge_required_by: None,
            created_at: None,
            updated_at: None,
            received_at: String::new(),
        }
    }
}

/// The bounds of a dispute listing.
#[derive(Clone, Debug, PartialEq)]
pub struct DisputeListConstraints {
    /// The most disputes to return; ten where it is left out.
    pub limit: Option<i64>,
}

impl DisputeListConstraints {
    /// The most disputes a listing returns.
    pub fn effective_limit(&self) -> (r: i64)
        ensures
            r == match self.limit {
                Some(limit) => limit,
                None => 10,
            },
    {
        match self.limit {
            Some(limit) => limit,
            None => 10,
        }
    }
}

} // verus!
