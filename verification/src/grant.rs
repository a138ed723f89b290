//! Notification credits: what a preflight found.

use crate::abi::enter::SlotToken;
use vstd::prelude::*;

verus! {

/// Why a notification credit cannot be returned.
#[derive(Clone, Copy, Debug, PartialEq, Eq, Structural)]
pub enum GrantError {
    InvalidBacking,
    InvalidTopology,
    TableIdentityExhausted,
    InvalidToken,
    WrongRing,
    StaleGeneration,
    ReturnBufferTooSmall,
    GenerationExhausted,
}

/// A credit that was found returnable on one ring. Only sorting a completion
/// entry whose preflight succeeded makes one, for the ring and the credit that
/// were asked about.
#[derive(Debug, PartialEq, Eq, Structural)]
pub struct NotifyPreflight {
    ring_index: u32,
    token: SlotToken,
}

/// The ring and the credit of a preflight.
pub struct PreflightModel {
    pub ring_index: u32,
    pub token: SlotToken,
}

impl View for NotifyPreflight {
    type V = PreflightModel;

    closed spec fn view(&self) -> PreflightModel {
        PreflightModel { ring_index: self.ring_index, token: self.token }
    }
}

impl NotifyPreflight {
    /// The credit of `token` was found returnable on ring `ring_index`.
    pub(crate) fn found(ring_index: u32, token: SlotToken) -> (preflight: Self)
        ensures
            preflight@ == (PreflightModel { ring_index, token }),
    {
        Self { ring_index, token }
    }

    /// The ring the credit is returned on.
    pub fn ring_index(&self) -> (ring_index: u32)
        ensures
            ring_index == self@.ring_index,
    {
        self.ring_index
    }

    /// The credit.
    pub fn token(&self) -> (token: SlotToken)
        ensures
            token == self@.token,
    {
        self.token
    }
}

} // verus!
