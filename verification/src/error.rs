use vstd::prelude::*;

verus! {

/// Why an instruction of the program was refused. A refused instruction
/// changes no account.
#[derive(Clone, Copy, Debug, PartialEq, Eq, Structural)]
pub enum NexusError {
    SessionExpired,
    SessionInactive,
    InvalidSessionSigner,
    PairNotAllowed,
    PositionCapExceeded,
    IntentExpired,
    IntentAlreadyResolved,
    PriceOutOfBounds,
    InvalidSide,
    InvalidFill,
    InvalidSolver,
    MathOverflow,
}

impl NexusError {
    /// The human-readable text that the program reports for this error.
    pub open spec fn text(self) -> Seq<char> {
        match self {
            NexusError::SessionExpired => "Session expired"@,
            NexusError::SessionInactive => "Session is not active"@,
            NexusError::InvalidSessionSigner => "Signer is not allowed for this session"@,
            NexusError::PairNotAllowed => "Intent asset pair is not allowed"@,
            NexusError::PositionCapExceeded => "Intent exceeds the delegated notional cap"@,
            NexusError::IntentExpired => "Intent has expired"@,
            NexusError::IntentAlreadyResolved => "Intent has already been resolved"@,
            NexusError::PriceOutOfBounds => "Execution price is outside the intent or oracle bounds"@,
            NexusError::InvalidSide => "Invalid trade side"@,
            NexusError::InvalidFill => "Invalid fill size"@,
            NexusError::InvalidSolver => "Only the configured solver can resolve intents"@,
            NexusError::MathOverflow => "Math overflow"@,
        }
    }

    /// The message reported for this error.
    pub fn message(&self) -> (m: &'static str)
        ensures
            m@ == self.text(),
    {
        match self {
            NexusError::SessionExpired => "Session expired",
            NexusError::SessionInactive => "Session is not active",
            NexusError::InvalidSessionSigner => "Signer is not allowed for this session",
            NexusError::PairNotAllowed => "Intent asset pair is not allowed",
            NexusError::PositionCapExceeded => "Intent exceeds the delegated notional cap",
            NexusError::IntentExpired => "Intent has expired",
            NexusError::IntentAlreadyResolved => "Intent has already been resolved",
            NexusError::PriceOutOfBounds => "Execution price is outside the intent or oracle bounds",
            NexusError::InvalidSide => "Invalid trade side",
            NexusError::InvalidFill => "Invalid fill size",
            NexusError::InvalidSolver => "Only the configured solver can resolve intents",
            NexusError::MathOverflow => "Math overflow",
        }
    }
}

} // verus!
