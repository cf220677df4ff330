//! The campaign's error type.

use vstd::prelude::*;

verus! {

/// Why a campaign command, contract or payload was refused.
#[derive(Debug, Clone, PartialEq, Eq)]
pub enum CampaignError {
    InvalidState(String),
    InvalidContract(String),
    Integrity(String),
}

impl CampaignError {
    /// `self` is an `InvalidContract` error carrying exactly `message`.
    pub open spec fn is_contract(self, message: Seq<char>) -> bool {
        self matches CampaignError::InvalidContract(m) && m@ == message
    }

    /// `self` is an `InvalidState` error carrying exactly `message`.
    pub open spec fn is_state(self, message: Seq<char>) -> bool {
        self matches CampaignError::InvalidState(m) && m@ == message
    }

    /// `self` is an `Integrity` error carrying exactly `message`.
    pub open spec fn is_integrity(self, message: Seq<char>) -> bool {
        self matches CampaignError::Integrity(m) && m@ == message
    }

    /// The human-readable description of the error.
    pub fn message(&self) -> (r: String)
        ensures
            r@ == (match self {
                CampaignError::InvalidState(m) => "invalid campaign state: "@ + m@,
                CampaignError::InvalidContract(m) => "invalid contract: "@ + m@,
                CampaignError::Integrity(m) => "campaign integrity error: "@ + m@,
            }),
    {
        match self {
            CampaignError::InvalidState(m) => "invalid campaign state: ".to_owned().concat(m.as_str()),
            CampaignError::InvalidContract(m) => "invalid contract: ".to_owned().concat(m.as_str()),
            CampaignError::Integrity(m) => "campaign integrity error: ".to_owned().concat(m.as_str()),
        }
    }
}


/// A refusal as contracts describe it: its kind and its message.
pub enum Failure {
    State(Seq<char>),
    Contract(Seq<char>),
    Integrity(Seq<char>),
}

impl CampaignError {
    /// `self` is the refusal `f`.
    pub open spec fn is_failure(self, f: Failure) -> bool {
        match f {
            Failure::State(m) => self.is_state(m),
            Failure::Contract(m) => self.is_contract(m),
            Failure::Integrity(m) => self.is_integrity(m),
        }
    }
}

} // verus!
