//! The failures an operation can report.

use vstd::prelude::*;
use vstd::string::StringExecFns;

verus! {

/// Why a request was rejected. A rejected request changes nothing.
#[derive(Clone, Copy, Debug, PartialEq, Eq, Structural)]
pub enum ErrorCode {
    /// The system record already exists.
    AlreadyInitialized,
    /// A machine with this identifier is already registered.
    MachineIdAlreadyExists,
    /// The signer is not the owner of the machine.
    Unauthorized,
    /// The machine is stopped and accepts no upload.
    MachineNotActive,
    /// The machine has earned nothing since the last claim.
    NoRewardsAvailable,
    /// The plant's address is not in the system's plant catalog.
    UnregisteredPlant,
    /// A machine identifier, plant name or image URL is longer than its
    /// record has room for.
    FieldTooLong,
    /// The machine's identifier and bump seed do not derive the authority
    /// address that was presented, or derive none.
    InvalidMachineAuth,
}

impl ErrorCode {
    /// The text shown to a caller for this failure.
    pub open spec fn message_text(self) -> Seq<char> {
        match self {
            ErrorCode::AlreadyInitialized => "System is already initialized"@,
            ErrorCode::MachineIdAlreadyExists => "Machine ID already exists"@,
            ErrorCode::Unauthorized => "Unauthorized operation"@,
            ErrorCode::MachineNotActive => "Machine is not active"@,
            ErrorCode::NoRewardsAvailable => "No rewards available to claim"@,
            ErrorCode::UnregisteredPlant => "Unregistered plant"@,
            ErrorCode::FieldTooLong => "Text field is too long"@,
            ErrorCode::InvalidMachineAuth => "Machine authority is not valid"@,
        }
    }

    /// The text shown to a caller for this failure.
    pub fn message(&self) -> (text: String)
        ensures
            text@ == self.message_text(),
    {
        match self {
            ErrorCode::AlreadyInitialized => String::from_str("System is already initialized"),
            ErrorCode::MachineIdAlreadyExists => String::from_str("Machine ID already exists"),
            ErrorCode::Unauthorized => String::from_str("Unauthorized operation"),
            ErrorCode::MachineNotActive => String::from_str("Machine is not active"),
            ErrorCode::NoRewardsAvailable => String::from_str("No rewards available to claim"),
            ErrorCode::UnregisteredPlant => String::from_str("Unregistered plant"),
            ErrorCode::FieldTooLong => String::from_str("Text field is too long"),
            ErrorCode::InvalidMachineAuth => String::from_str("Machine authority is not valid"),
        }
    }
}

} // verus!
