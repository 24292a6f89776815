use oxmart_payment::error::{failure_of, ErrorCategory, ErrorCode, PaymentError, ProgramFailure};

#[test]
fn payment_error_codes_count_from_zero() {
    let all = [
        PaymentError::InvalidInstruction,
        PaymentError::NotAuthorized,
        PaymentError::AlreadyInitialized,
        PaymentError::UninitializedAccount,
        PaymentError::OrderAlreadyProcessed,
        PaymentError::TokenNotSupported,
        PaymentError::InvalidAmount,
        PaymentError::InvalidCommissionRate,
        PaymentError::ContractPaused,
        PaymentError::ArithmeticOverflow,
        PaymentError::InvalidPlatformFee,
        PaymentError::NoProducts,
        PaymentError::InvalidTokenAccount,
        PaymentError::InvalidHotWallet,
    ];
    for (i, e) in all.iter().enumerate() {
        assert_eq!(e.code() as usize, i);
        assert_eq!(ProgramFailure::from(*e), ProgramFailure::Custom(i as u32));
    }
}

#[test]
fn payment_error_messages() {
    assert_eq!(PaymentError::InvalidInstruction.message(), "Invalid Instruction");
    assert_eq!(PaymentError::NotAuthorized.message(), "Not Authorized");
    assert_eq!(PaymentError::AlreadyInitialized.message(), "Already Initialized");
    assert_eq!(PaymentError::UninitializedAccount.message(), "Uninitialized Account");
    assert_eq!(PaymentError::OrderAlreadyProcessed.message(), "Order Already Processed");
    assert_eq!(PaymentError::TokenNotSupported.message(), "Token Not Supported");
    assert_eq!(PaymentError::InvalidAmount.message(), "Invalid Amount");
    assert_eq!(PaymentError::InvalidCommissionRate.message(), "Invalid Commission Rate");
    assert_eq!(PaymentError::ContractPaused.message(), "Contract Paused");
    assert_eq!(PaymentError::ArithmeticOverflow.message(), "Arithmetic Overflow");
    assert_eq!(PaymentError::InvalidPlatformFee.message(), "Invalid Platform Fee");
}

#[test]
fn error_code_messages() {
    assert_eq!(ErrorCode::FeeTooHigh.message(), "Platform fee too high (max 10%)");
    assert_eq!(ErrorCode::ProgramPaused.message(), "Program is paused");
    assert_eq!(ErrorCode::InvalidCommission.message(), "Invalid commission (max 100%)");
    assert_eq!(ErrorCode::InvalidAmount.message(), "Invalid amount (must be > 0)");
    assert_eq!(ErrorCode::OrderAlreadyProcessed.message(), "Order already processed");
    assert_eq!(ErrorCode::NoProducts.message(), "No products provided");
    assert_eq!(ErrorCode::InvalidTokenAccount.message(), "Invalid token account");
    assert_eq!(ErrorCode::InvalidHotWallet.message(), "Invalid hot wallet");
    assert_eq!(ErrorCode::Unauthorized.message(), "Unauthorized");
}

#[test]
fn engine_failures_in_the_front_end_codes() {
    assert_eq!(failure_of(ErrorCode::FeeTooHigh), ProgramFailure::Custom(10));
    assert_eq!(failure_of(ErrorCode::ProgramPaused), ProgramFailure::Custom(8));
    assert_eq!(failure_of(ErrorCode::InvalidCommission), ProgramFailure::Custom(7));
    assert_eq!(failure_of(ErrorCode::InvalidAmount), ProgramFailure::Custom(6));
    assert_eq!(failure_of(ErrorCode::TokenNotSupported), ProgramFailure::Custom(5));
    assert_eq!(failure_of(ErrorCode::OrderAlreadyProcessed), ProgramFailure::Custom(4));
    assert_eq!(failure_of(ErrorCode::UninitializedAccount), ProgramFailure::Custom(3));
    assert_eq!(failure_of(ErrorCode::AlreadyInitialized), ProgramFailure::Custom(2));
    assert_eq!(failure_of(ErrorCode::Unauthorized), ProgramFailure::Custom(1));
    assert_eq!(failure_of(ErrorCode::InvalidInstruction), ProgramFailure::Custom(0));
    assert_eq!(failure_of(ErrorCode::ArithmeticOverflow), ProgramFailure::Custom(9));
    assert_eq!(failure_of(ErrorCode::NoProducts), ProgramFailure::Custom(11));
    assert_eq!(failure_of(ErrorCode::InvalidTokenAccount), ProgramFailure::Custom(12));
    assert_eq!(failure_of(ErrorCode::InvalidHotWallet), ProgramFailure::Custom(13));
    assert_eq!(failure_of(ErrorCode::InvalidSeeds), ProgramFailure::InvalidSeeds);
    assert_eq!(
        failure_of(ErrorCode::MissingRequiredSignature),
        ProgramFailure::MissingRequiredSignature
    );
    assert_eq!(failure_of(ErrorCode::IncorrectProgramId), ProgramFailure::IncorrectProgramId);
    assert_eq!(failure_of(ErrorCode::InvalidAccountData), ProgramFailure::InvalidAccountData);
    assert_eq!(
        failure_of(ErrorCode::AccountDidNotSerialize),
        ProgramFailure::AccountDataTooSmall
    );
}

#[test]
fn failures_fall_into_four_families() {
    assert_eq!(ErrorCode::Unauthorized.category(), ErrorCategory::Authorization);
    assert_eq!(ErrorCode::MissingRequiredSignature.category(), ErrorCategory::Authorization);
    assert_eq!(ErrorCode::InvalidAmount.category(), ErrorCategory::Validation);
    assert_eq!(ErrorCode::InvalidCommission.category(), ErrorCategory::Validation);
    assert_eq!(ErrorCode::FeeTooHigh.category(), ErrorCategory::Validation);
    assert_eq!(ErrorCode::NoProducts.category(), ErrorCategory::Validation);
    assert_eq!(ErrorCode::InvalidSeeds.category(), ErrorCategory::Validation);
    assert_eq!(ErrorCode::InvalidInstruction.category(), ErrorCategory::Validation);
    assert_eq!(ErrorCode::AlreadyInitialized.category(), ErrorCategory::State);
    assert_eq!(ErrorCode::OrderAlreadyProcessed.category(), ErrorCategory::State);
    assert_eq!(ErrorCode::TokenNotSupported.category(), ErrorCategory::State);
    assert_eq!(ErrorCode::ProgramPaused.category(), ErrorCategory::State);
    assert_eq!(ErrorCode::ArithmeticOverflow.category(), ErrorCategory::Arithmetic);
}
