use vstd::prelude::*;

verus! {

/// The errors that the program's instructions return.
#[derive(PartialEq, Eq, Structural, Clone, Copy, Debug)]
pub enum IDOProgramErrors {
    PdaNotMatched,
    NotAuthorized,
    InvalidRounds,
    InsufficientAmount,
    InValidTier,
    InvalidReleaseIndex,
    InvalidReleaseToken,
    NoTokensLeft,
    InvalidAmount,
    ParticipationNotValid,
    AmountExceedsRemainingAllocation,
    IDoTokenAccountNotMatch,
    UserTokenAccountNotMatch,
    WithdrawTokenAccountNotMatch,
    ReleaseTokenAccountNotMatch,
    CannotParseData,
    OnlyAdminAllowed,
    OnlyOperatorAllowed,
    OperatorNotFound,
    OperatorAlreadyExist,
    AdminLimitReached,
    OperatorLimitReached,
    AdminAlreadyExist,
    OperatorWalletSameAsNewWallet,
    AddressZero,
}

/// The position of each error in the declaration, which is the custom code
/// that the program reports for it.
pub open spec fn spec_error_code(e: IDOProgramErrors) -> u32 {
    match e {
        IDOProgramErrors::PdaNotMatched => 0,
        IDOProgramErrors::NotAuthorized => 1,
        IDOProgramErrors::InvalidRounds => 2,
        IDOProgramErrors::InsufficientAmount => 3,
        IDOProgramErrors::InValidTier => 4,
        IDOProgramErrors::InvalidReleaseIndex => 5,
        IDOProgramErrors::InvalidReleaseToken => 6,
        IDOProgramErrors::NoTokensLeft => 7,
        IDOProgramErrors::InvalidAmount => 8,
        IDOProgramErrors::ParticipationNotValid => 9,
        IDOProgramErrors::AmountExceedsRemainingAllocation => 10,
        IDOProgramErrors::IDoTokenAccountNotMatch => 11,
        IDOProgramErrors::UserTokenAccountNotMatch => 12,
        IDOProgramErrors::WithdrawTokenAccountNotMatch => 13,
        IDOProgramErrors::ReleaseTokenAccountNotMatch => 14,
        IDOProgramErrors::CannotParseData => 15,
        IDOProgramErrors::OnlyAdminAllowed => 16,
        IDOProgramErrors::OnlyOperatorAllowed => 17,
        IDOProgramErrors::OperatorNotFound => 18,
        IDOProgramErrors::OperatorAlreadyExist => 19,
        IDOProgramErrors::AdminLimitReached => 20,
        IDOProgramErrors::OperatorLimitReached => 21,
        IDOProgramErrors::AdminAlreadyExist => 22,
        IDOProgramErrors::OperatorWalletSameAsNewWallet => 23,
        IDOProgramErrors::AddressZero => 24,
    }
}

impl IDOProgramErrors {
    /// The custom error code of this error.
    pub fn code(&self) -> (r: u32)
        ensures
            r == spec_error_code(*self),
    {
        match self {
            IDOProgramErrors::PdaNotMatched => 0,
            IDOProgramErrors::NotAuthorized => 1,
            IDOProgramErrors::InvalidRounds => 2,
            IDOProgramErrors::InsufficientAmount => 3,
            IDOProgramErrors::InValidTier => 4,
            IDOProgramErrors::InvalidReleaseIndex => 5,
            IDOProgramErrors::InvalidReleaseToken => 6,
            IDOProgramErrors::NoTokensLeft => 7,
            IDOProgramErrors::InvalidAmount => 8,
            IDOProgramErrors::ParticipationNotValid => 9,
            IDOProgramErrors::AmountExceedsRemainingAllocation => 10,
            IDOProgramErrors::IDoTokenAccountNotMatch => 11,
            IDOProgramErrors::UserTokenAccountNotMatch => 12,
            IDOProgramErrors::WithdrawTokenAccountNotMatch => 13,
            IDOProgramErrors::ReleaseTokenAccountNotMatch => 14,
            IDOProgramErrors::CannotParseData => 15,
            IDOProgramErrors::OnlyAdminAllowed => 16,
            IDOProgramErrors::OnlyOperatorAllowed => 17,
            IDOProgramErrors::OperatorNotFound => 18,
            IDOProgramErrors::OperatorAlreadyExist => 19,
            IDOProgramErrors::AdminLimitReached => 20,
            IDOProgramErrors::OperatorLimitReached => 21,
            IDOProgramErrors::AdminAlreadyExist => 22,
            IDOProgramErrors::OperatorWalletSameAsNewWallet => 23,
            IDOProgramErrors::AddressZero => 24,
        }
    }
}

} // verus!
