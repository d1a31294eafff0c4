use vstd::prelude::*;
use vstd::string::*;

verus! {

/// The refusals that the candy machine itself pronounces.
#[derive(Clone, Copy, Debug, PartialEq, Eq, Structural)]
pub enum ErrorCode {
    IncorrectOwner,
    Uninitialized,
    MintMismatch,
    IndexGreaterThanLength,
    ConfigMustHaveAtleastOneEntry,
    NumericalOverflowError,
    TooManyCreators,
    UuidMustBeExactly6Length,
    NotEnoughTokens,
    NotEnoughSOL,
    TokenTransferFailed,
    CandyMachineEmpty,
    CandyMachineNotLiveYet,
    ConfigLineMismatch,
    MustBeAuthority,
}

impl ErrorCode {
    /// The sentence shown to the caller for this refusal.
    pub open spec fn message_text(self) -> Seq<char> {
        match self {
            ErrorCode::IncorrectOwner => "Account does not have correct owner!"@,
            ErrorCode::Uninitialized => "Account is not initialized!"@,
            ErrorCode::MintMismatch => "Mint Mismatch!"@,
            ErrorCode::IndexGreaterThanLength => "Index greater than length!"@,
            ErrorCode::ConfigMustHaveAtleastOneEntry => "Config must have atleast one entry!"@,
            ErrorCode::NumericalOverflowError => "Numerical overflow error!"@,
            ErrorCode::TooManyCreators => "Can only provide up to 4 creators to candy machine (because candy machine is one)!"@,
            ErrorCode::UuidMustBeExactly6Length => "Uuid must be exactly of 6 length"@,
            ErrorCode::NotEnoughTokens => "Not enough tokens to pay for this minting"@,
            ErrorCode::NotEnoughSOL => "Not enough SOL to pay for this minting"@,
            ErrorCode::TokenTransferFailed => "Token transfer failed"@,
            ErrorCode::CandyMachineEmpty => "Candy machine is empty!"@,
            ErrorCode::CandyMachineNotLiveYet => "Candy machine is not live yet!"@,
            ErrorCode::ConfigLineMismatch => "Number of config lines must be at least number of items available"@,
            ErrorCode::MustBeAuthority => "Must be authority to mint"@,
        }
    }

    /// The sentence shown to the caller for this refusal.
    pub fn message(&self) -> (text: String)
        ensures
            text@ == self.message_text(),
    {
        let text = match self {
            ErrorCode::IncorrectOwner => "Account does not have correct owner!",
            ErrorCode::Uninitialized => "Account is not initialized!",
            ErrorCode::MintMismatch => "Mint Mismatch!",
            ErrorCode::IndexGreaterThanLength => "Index greater than length!",
            ErrorCode::ConfigMustHaveAtleastOneEntry => "Config must have atleast one entry!",
            ErrorCode::NumericalOverflowError => "Numerical overflow error!",
            ErrorCode::TooManyCreators => "Can only provide up to 4 creators to candy machine (because candy machine is one)!",
            ErrorCode::UuidMustBeExactly6Length => "Uuid must be exactly of 6 length",
            ErrorCode::NotEnoughTokens => "Not enough tokens to pay for this minting",
            ErrorCode::NotEnoughSOL => "Not enough SOL to pay for this minting",
            ErrorCode::TokenTransferFailed => "Token transfer failed",
            ErrorCode::CandyMachineEmpty => "Candy machine is empty!",
            ErrorCode::CandyMachineNotLiveYet => "Candy machine is not live yet!",
            ErrorCode::ConfigLineMismatch => "Number of config lines must be at least number of items available",
            ErrorCode::MustBeAuthority => "Must be authority to mint",
        };
        String::from_str(text)
    }
}

/// Why an operation was turned down. On any of these the ledger undoes the
/// whole operation, so the state handed in stands as it was.
#[derive(Clone, Copy, Debug, PartialEq, Eq, Structural)]
pub enum ProgramError {
    /// A refusal of the candy machine itself.
    Custom(ErrorCode),
    /// The accounts handed in break a rule that their declaration lays down:
    /// a missing signature, a foreign authority, an address that is not the
    /// derived one.
    ConstraintViolated,
    /// The record to create exists already.
    AccountAlreadyInUse,
    /// The bytes of an account are not those of the expected kind of account.
    InvalidAccountData,
}

} // verus!
