//! The library's error type: every failure a component can report,
//! carrying the diagnostic text captured from the external tools.

use vstd::prelude::*;

verus! {

/// A failure of the genesis orchestration or of a ledger operation.
///
/// Variants that carry `stderr` hold the external tool's captured
/// diagnostic text verbatim.
#[derive(Debug)]
pub enum GenesisError {
    /// A validator type other than `bootstrap` or `validator` was given.
    InvalidValidatorType { validator_type: String },
    /// The key-generation tool failed while creating the faucet keypair.
    FaucetFailed { stderr: String },
    /// The key-generation tool failed while creating an account keypair.
    AccountFailed { account: String, stderr: String },
    /// The genesis-construction tool exited with a non-zero status.
    GenesisFailed { stderr: String },
    /// The ledger directory does not exist yet.
    LedgerNotFound,
    /// A ledger-tool subcommand exited with a non-zero status.
    LedgerToolFailed { subcommand: String, stderr: String },
    /// The ledger tool's output was not a decimal `u16`.
    InvalidU16,
}

/// The descriptive text of each error.
pub open spec fn spec_message(e: GenesisError) -> Seq<char> {
    match e {
        GenesisError::InvalidValidatorType { validator_type } => "Invalid validator type: "@
            + validator_type@,
        GenesisError::FaucetFailed { stderr } => "Failed to create new faucet keypair. err: "@
            + stderr@,
        GenesisError::AccountFailed { account, stderr } =>
            "Failed to create new account keypair. account: "@ + account@ + ", err: "@ + stderr@,
        GenesisError::GenesisFailed { stderr } => "Failed to create genesis. err: "@ + stderr@,
        GenesisError::LedgerNotFound =>
            "Ledger Directory does not exist, have you created genesis yet??"@,
        GenesisError::LedgerToolFailed { subcommand, stderr } => "Error in solana-ledger-tool "@
            + subcommand@ + " command. err: "@ + stderr@,
        GenesisError::InvalidU16 => "Failed to parse a u16 from the tool output"@,
    }
}

impl GenesisError {
    /// Renders the error as the descriptive text a caller reports.
    pub fn message(&self) -> (r: String)
        ensures
            r@ == spec_message(*self),
    {
        match self {
            GenesisError::InvalidValidatorType { validator_type } => String::from_str(
                "Invalid validator type: ",
            ).concat(validator_type.as_str()),
            GenesisError::FaucetFailed { stderr } => String::from_str(
                "Failed to create new faucet keypair. err: ",
            ).concat(stderr.as_str()),
            GenesisError::AccountFailed { account, stderr } => String::from_str(
                "Failed to create new account keypair. account: ",
            ).concat(account.as_str()).concat(", err: ").concat(stderr.as_str()),
            GenesisError::GenesisFailed { stderr } => String::from_str(
                "Failed to create genesis. err: ",
            ).concat(stderr.as_str()),
            GenesisError::LedgerNotFound => String::from_str(
                "Ledger Directory does not exist, have you created genesis yet??",
            ),
            GenesisError::LedgerToolFailed { subcommand, stderr } => String::from_str(
                "Error in solana-ledger-tool ",
            ).concat(subcommand.as_str()).concat(" command. err: ").concat(stderr.as_str()),
            GenesisError::InvalidU16 => String::from_str(
                "Failed to parse a u16 from the tool output",
            ),
        }
    }
}

} // verus!
