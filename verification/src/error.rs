//! Failure codes of the settlement engine and of its manual-validation front end.

use vstd::prelude::*;
use vstd::string::StringExecFns;

verus! {

/// Why the engine rejected an operation. A rejected operation leaves the store as it was.
#[derive(Clone, Copy, Debug, PartialEq, Eq, Structural)]
pub enum ErrorCode {
    /// The requested platform fee is above the cap.
    FeeTooHigh,
    /// Settlement is switched off.
    ProgramPaused,
    /// The commission rate is above the cap.
    InvalidCommission,
    /// The amount is zero.
    InvalidAmount,
    /// Storage already exists at the order's derived address.
    OrderAlreadyProcessed,
    /// A batch names no product.
    NoProducts,
    /// The buyer's holding account is not owned by the buyer.
    InvalidTokenAccount,
    /// The destination holding account is not owned by the hot wallet.
    InvalidHotWallet,
    /// The caller is not the configured authority.
    Unauthorized,
    /// The token type is not registered, or is disabled.
    TokenNotSupported,
    /// Storage already exists at the configuration's derived address.
    AlreadyInitialized,
    /// The storage expected at an address is absent or holds another kind of record.
    UninitializedAccount,
    /// A supplied storage address is not the one derived for its namespace and key.
    InvalidSeeds,
    /// The identity that must authorize the operation has not signed it.
    MissingRequiredSignature,
    /// A fee, a commission or a net amount does not fit its width.
    ArithmeticOverflow,
    /// The instruction bytes name no operation or are malformed.
    InvalidInstruction,
    /// A record does not fit the fixed layout of its storage.
    AccountDidNotSerialize,
    /// The program named to perform the transfer is not the token program.
    IncorrectProgramId,
    /// Stored bytes are not the layout of the record expected there.
    InvalidAccountData,
}

/// The four families of failure.
#[derive(Clone, Copy, Debug, PartialEq, Eq, Structural)]
pub enum ErrorCategory {
    /// Missing proof of identity, or the wrong identity.
    Authorization,
    /// A request that is wrong in itself: its amounts, rates, addresses, accounts or bytes.
    Validation,
    /// A request that the stored state does not allow.
    State,
    /// A number that does not fit.
    Arithmetic,
}

impl ErrorCode {
    /// The family of the code.
    pub open spec fn spec_category(&self) -> ErrorCategory {
        match self {
            ErrorCode::Unauthorized | ErrorCode::MissingRequiredSignature =>
                ErrorCategory::Authorization,
            ErrorCode::AlreadyInitialized
            | ErrorCode::UninitializedAccount
            | ErrorCode::OrderAlreadyProcessed
            | ErrorCode::TokenNotSupported
            | ErrorCode::ProgramPaused
            | ErrorCode::InvalidAccountData => ErrorCategory::State,
            ErrorCode::ArithmeticOverflow => ErrorCategory::Arithmetic,
            _ => ErrorCategory::Validation,
        }
    }

    /// The family of the code.
    pub fn category(&self) -> (r: ErrorCategory)
        ensures
            r == self.spec_category(),
    {
        match self {
            ErrorCode::Unauthorized | ErrorCode::MissingRequiredSignature =>
                ErrorCategory::Authorization,
            ErrorCode::AlreadyInitialized
            | ErrorCode::UninitializedAccount
            | ErrorCode::OrderAlreadyProcessed
            | ErrorCode::TokenNotSupported
            | ErrorCode::ProgramPaused
            | ErrorCode::InvalidAccountData => ErrorCategory::State,
            ErrorCode::ArithmeticOverflow => ErrorCategory::Arithmetic,
            _ => ErrorCategory::Validation,
        }
    }
}

impl ErrorCode {
    /// The message of the code.
    pub open spec fn spec_message(&self) -> Seq<char> {
        match self {
            ErrorCode::FeeTooHigh => "Platform fee too high (max 10%)"@,
            ErrorCode::ProgramPaused => "Program is paused"@,
            ErrorCode::InvalidCommission => "Invalid commission (max 100%)"@,
            ErrorCode::InvalidAmount => "Invalid amount (must be > 0)"@,
            ErrorCode::OrderAlreadyProcessed => "Order already processed"@,
            ErrorCode::NoProducts => "No products provided"@,
            ErrorCode::InvalidTokenAccount => "Invalid token account"@,
            ErrorCode::InvalidHotWallet => "Invalid hot wallet"@,
            ErrorCode::Unauthorized => "Unauthorized"@,
            ErrorCode::TokenNotSupported => "Token not supported"@,
            ErrorCode::AlreadyInitialized => "Already initialized"@,
            ErrorCode::UninitializedAccount => "Uninitialized account"@,
            ErrorCode::InvalidSeeds => "Invalid seeds"@,
            ErrorCode::MissingRequiredSignature => "Missing required signature"@,
            ErrorCode::ArithmeticOverflow => "Arithmetic overflow"@,
            ErrorCode::InvalidInstruction => "Invalid instruction"@,
            ErrorCode::AccountDidNotSerialize => "Account did not serialize"@,
            ErrorCode::IncorrectProgramId => "Incorrect program id"@,
            ErrorCode::InvalidAccountData => "Invalid account data"@,
        }
    }

    /// The message of the code.
    pub fn message(&self) -> (r: String)
        ensures
            r@ == self.spec_message(),
    {
        match self {
            ErrorCode::FeeTooHigh => String::from_str("Platform fee too high (max 10%)"),
            ErrorCode::ProgramPaused => String::from_str("Program is paused"),
            ErrorCode::InvalidCommission => String::from_str("Invalid commission (max 100%)"),
            ErrorCode::InvalidAmount => String::from_str("Invalid amount (must be > 0)"),
            ErrorCode::OrderAlreadyProcessed => String::from_str("Order already processed"),
            ErrorCode::NoProducts => String::from_str("No products provided"),
            ErrorCode::InvalidTokenAccount => String::from_str("Invalid token account"),
            ErrorCode::InvalidHotWallet => String::from_str("Invalid hot wallet"),
            ErrorCode::Unauthorized => String::from_str("Unauthorized"),
            ErrorCode::TokenNotSupported => String::from_str("Token not supported"),
            ErrorCode::AlreadyInitialized => String::from_str("Already initialized"),
            ErrorCode::UninitializedAccount => String::from_str("Uninitialized account"),
            ErrorCode::InvalidSeeds => String::from_str("Invalid seeds"),
            ErrorCode::MissingRequiredSignature => String::from_str("Missing required signature"),
            ErrorCode::ArithmeticOverflow => String::from_str("Arithmetic overflow"),
            ErrorCode::InvalidInstruction => String::from_str("Invalid instruction"),
            ErrorCode::AccountDidNotSerialize => String::from_str("Account did not serialize"),
            ErrorCode::IncorrectProgramId => String::from_str("Incorrect program id"),
            ErrorCode::InvalidAccountData => String::from_str("Invalid account data"),
        }
    }
}

/// The failure codes of the manual-validation front end, numbered from zero in this order.
#[derive(Clone, Copy, Debug, PartialEq, Eq, Structural)]
pub enum PaymentError {
    InvalidInstruction,
    NotAuthorized,
    AlreadyInitialized,
    UninitializedAccount,
    OrderAlreadyProcessed,
    TokenNotSupported,
    InvalidAmount,
    InvalidCommissionRate,
    ContractPaused,
    ArithmeticOverflow,
    InvalidPlatformFee,
    NoProducts,
    InvalidTokenAccount,
    InvalidHotWallet,
}

impl PaymentError {
    /// The number of the code.
    pub open spec fn spec_code(&self) -> u32 {
        match self {
            PaymentError::InvalidInstruction => 0,
            PaymentError::NotAuthorized => 1,
            PaymentError::AlreadyInitialized => 2,
            PaymentError::UninitializedAccount => 3,
            PaymentError::OrderAlreadyProcessed => 4,
            PaymentError::TokenNotSupported => 5,
            PaymentError::InvalidAmount => 6,
            PaymentError::InvalidCommissionRate => 7,
            PaymentError::ContractPaused => 8,
            PaymentError::ArithmeticOverflow => 9,
            PaymentError::InvalidPlatformFee => 10,
            PaymentError::NoProducts => 11,
            PaymentError::InvalidTokenAccount => 12,
            PaymentError::InvalidHotWallet => 13,
        }
    }

    /// The number of the code.
    pub fn code(&self) -> (n: u32)
        ensures
            n == self.spec_code(),
    {
        match self {
            PaymentError::InvalidInstruction => 0,
            PaymentError::NotAuthorized => 1,
            PaymentError::AlreadyInitialized => 2,
            PaymentError::UninitializedAccount => 3,
            PaymentError::OrderAlreadyProcessed => 4,
            PaymentError::TokenNotSupported => 5,
            PaymentError::InvalidAmount => 6,
            PaymentError::InvalidCommissionRate => 7,
            PaymentError::ContractPaused => 8,
            PaymentError::ArithmeticOverflow => 9,
            PaymentError::InvalidPlatformFee => 10,
            PaymentError::NoProducts => 11,
            PaymentError::InvalidTokenAccount => 12,
            PaymentError::InvalidHotWallet => 13,
        }
    }
}

impl PaymentError {
    /// The message of the code.
    pub open spec fn spec_message(&self) -> Seq<char> {
        match self {
            PaymentError::InvalidInstruction => "Invalid Instruction"@,
            PaymentError::NotAuthorized => "Not Authorized"@,
            PaymentError::AlreadyInitialized => "Already Initialized"@,
            PaymentError::UninitializedAccount => "Uninitialized Account"@,
            PaymentError::OrderAlreadyProcessed => "Order Already Processed"@,
            PaymentError::TokenNotSupported => "Token Not Supported"@,
            PaymentError::InvalidAmount => "Invalid Amount"@,
            PaymentError::InvalidCommissionRate => "Invalid Commission Rate"@,
            PaymentError::ContractPaused => "Contract Paused"@,
            PaymentError::ArithmeticOverflow => "Arithmetic Overflow"@,
            PaymentError::InvalidPlatformFee => "Invalid Platform Fee"@,
            PaymentError::NoProducts => "No Products"@,
            PaymentError::InvalidTokenAccount => "Invalid Token Account"@,
            PaymentError::InvalidHotWallet => "Invalid Hot Wallet"@,
        }
    }

    /// The message of the code.
    pub fn message(&self) -> (r: String)
        ensures
            r@ == self.spec_message(),
    {
        match self {
            PaymentError::InvalidInstruction => String::from_str("Invalid Instruction"),
            PaymentError::NotAuthorized => String::from_str("Not Authorized"),
            PaymentError::AlreadyInitialized => String::from_str("Already Initialized"),
            PaymentError::UninitializedAccount => String::from_str("Uninitialized Account"),
            PaymentError::OrderAlreadyProcessed => String::from_str("Order Already Processed"),
            PaymentError::TokenNotSupported => String::from_str("Token Not Supported"),
            PaymentError::InvalidAmount => String::from_str("Invalid Amount"),
            PaymentError::InvalidCommissionRate => String::from_str("Invalid Commission Rate"),
            PaymentError::ContractPaused => String::from_str("Contract Paused"),
            PaymentError::ArithmeticOverflow => String::from_str("Arithmetic Overflow"),
            PaymentError::InvalidPlatformFee => String::from_str("Invalid Platform Fee"),
            PaymentError::NoProducts => String::from_str("No Products"),
            PaymentError::InvalidTokenAccount => String::from_str("Invalid Token Account"),
            PaymentError::InvalidHotWallet => String::from_str("Invalid Hot Wallet"),
        }
    }
}

/// How the manual-validation front end reports a failure to its host: one of the host's
/// own failures, or a custom one that carries the number of a `PaymentError`.
#[derive(Clone, Copy, Debug, PartialEq, Eq, Structural)]
pub enum ProgramFailure {
    Custom(u32),
    InvalidSeeds,
    MissingRequiredSignature,
    NotEnoughAccountKeys,
    IncorrectProgramId,
    InvalidAccountData,
    AccountDataTooSmall,
}

impl From<PaymentError> for ProgramFailure {
    fn from(e: PaymentError) -> (r: ProgramFailure) {
        ProgramFailure::Custom(e.code())
    }
}

impl vstd::std_specs::convert::FromSpecImpl<PaymentError> for ProgramFailure {
    open spec fn obeys_from_spec() -> bool {
        true
    }

    open spec fn from_spec(e: PaymentError) -> ProgramFailure {
        ProgramFailure::Custom(e.spec_code())
    }
}

/// How each failure of the engine is reported by the manual-validation front end.
pub open spec fn spec_failure_of(e: ErrorCode) -> ProgramFailure {
    match e {
        ErrorCode::FeeTooHigh => ProgramFailure::Custom(10),
        ErrorCode::ProgramPaused => ProgramFailure::Custom(8),
        ErrorCode::InvalidCommission => ProgramFailure::Custom(7),
        ErrorCode::InvalidAmount => ProgramFailure::Custom(6),
        ErrorCode::OrderAlreadyProcessed => ProgramFailure::Custom(4),
        ErrorCode::NoProducts => ProgramFailure::Custom(11),
        ErrorCode::InvalidTokenAccount => ProgramFailure::Custom(12),
        ErrorCode::InvalidHotWallet => ProgramFailure::Custom(13),
        ErrorCode::Unauthorized => ProgramFailure::Custom(1),
        ErrorCode::TokenNotSupported => ProgramFailure::Custom(5),
        ErrorCode::AlreadyInitialized => ProgramFailure::Custom(2),
        ErrorCode::UninitializedAccount => ProgramFailure::Custom(3),
        ErrorCode::InvalidSeeds => ProgramFailure::InvalidSeeds,
        ErrorCode::MissingRequiredSignature => ProgramFailure::MissingRequiredSignature,
        ErrorCode::ArithmeticOverflow => ProgramFailure::Custom(9),
        ErrorCode::InvalidInstruction => ProgramFailure::Custom(0),
        ErrorCode::AccountDidNotSerialize => ProgramFailure::AccountDataTooSmall,
        ErrorCode::IncorrectProgramId => ProgramFailure::IncorrectProgramId,
        ErrorCode::InvalidAccountData => ProgramFailure::InvalidAccountData,
    }
}

/// Reports a failure of the engine as the manual-validation front end does.
pub fn failure_of(e: ErrorCode) -> (r: ProgramFailure)
    ensures
        r == spec_failure_of(e),
{
    match e {
        ErrorCode::FeeTooHigh => ProgramFailure::from(PaymentError::InvalidPlatformFee),
        ErrorCode::ProgramPaused => ProgramFailure::from(PaymentError::ContractPaused),
        ErrorCode::InvalidCommission => ProgramFailure::from(PaymentError::InvalidCommissionRate),
        ErrorCode::InvalidAmount => ProgramFailure::from(PaymentError::InvalidAmount),
        ErrorCode::OrderAlreadyProcessed => ProgramFailure::from(
            PaymentError::OrderAlreadyProcessed,
        ),
        ErrorCode::NoProducts => ProgramFailure::from(PaymentError::NoProducts),
        ErrorCode::InvalidTokenAccount => ProgramFailure::from(PaymentError::InvalidTokenAccount),
        ErrorCode::InvalidHotWallet => ProgramFailure::from(PaymentError::InvalidHotWallet),
        ErrorCode::Unauthorized => ProgramFailure::from(PaymentError::NotAuthorized),
        ErrorCode::TokenNotSupported => ProgramFailure::from(PaymentError::TokenNotSupported),
        ErrorCode::AlreadyInitialized => ProgramFailure::from(PaymentError::AlreadyInitialized),
        ErrorCode::UninitializedAccount => ProgramFailure::from(
            PaymentError::UninitializedAccount,
        ),
        ErrorCode::InvalidSeeds => ProgramFailure::InvalidSeeds,
        ErrorCode::MissingRequiredSignature => ProgramFailure::MissingRequiredSignature,
        ErrorCode::ArithmeticOverflow => ProgramFailure::from(PaymentError::ArithmeticOverflow),
        ErrorCode::InvalidInstruction => ProgramFailure::from(PaymentError::InvalidInstruction),
        ErrorCode::AccountDidNotSerialize => ProgramFailure::AccountDataTooSmall,
        ErrorCode::IncorrectProgramId => ProgramFailure::IncorrectProgramId,
        ErrorCode::InvalidAccountData => ProgramFailure::InvalidAccountData,
    }
}

/// No two failures of the engine are reported alike.
pub proof fn lemma_failure_of_injective(a: ErrorCode, b: ErrorCode)
    requires
        spec_failure_of(a) == spec_failure_of(b),
    ensures
        a == b,
{
}

} // verus!
