use vstd::prelude::*;

verus! {

/// Every reason for which an operation of this program is refused.
///
/// An operation that returns one of these has changed nothing.
#[derive(Clone, Copy, Debug, PartialEq, Eq, Structural)]
pub enum ErrorCode {
    /// The configuration record has already been initialized.
    RepeatedInit,
    /// A checked addition or subtraction left the 64-bit range.
    MathOverflow,
    /// The requested amount exceeds the idle balance.
    InsufficientIdleFunds,
    /// The caller is not the stored administrator.
    UnauthorizedAdmin,
    /// Invalid argument.
    InvalidArgument,
    /// Invalid instruction data.
    InvalidInstructionData,
    /// Account data is too small.
    AccountDataTooSmall,
    /// Account data is too large.
    AccountDataTooLarge,
    /// Account is not initialized.
    AccountNotInitialized,
    /// Account is already initialized.
    AccountAlreadyInitialized,
    /// Invalid account owner.
    InvalidAccountOwner,
    /// Invalid account discriminator.
    InvalidAccountDiscriminator,
    /// Account is not writable.
    AccountNotWritable,
    /// Account is not readable.
    AccountNotReadable,
    /// Invalid seeds.
    InvalidSeeds,
    /// Invalid program address.
    InvalidProgramAddress,
    /// Invalid program id.
    InvalidProgramId,
    /// Missing required signature.
    MissingRequiredSignature,
    /// Invalid signature.
    InvalidSignature,
    /// Invalid instruction.
    InvalidInstruction,
    /// Uninitialized account.
    UninitializedAccount,
    /// Already initialized account.
    AlreadyInitializedAccount,
    /// Incorrect program id.
    IncorrectProgramId,
    /// Missing required key.
    MissingRequiredKey,
    /// Account borrowed does not match.
    AccountBorrowedDoesNotMatch,
    /// Borrowed account does not match.
    BorrowedAccountDoesNotMatch,
    /// Invalid account borrow.
    InvalidAccountBorrow,
    /// Invalid account borrow mut.
    InvalidAccountBorrowMut,
    /// Invalid account has one.
    InvalidAccountHasOne,
    /// Invalid account has one mut.
    InvalidAccountHasOneMut,
    /// Invalid seeds length.
    InvalidSeedsLength,
    /// Invalid seeds index.
    InvalidSeedsIndex,
    /// Invalid program address length.
    InvalidProgramAddressLength,
    /// Invalid program id length.
    InvalidProgramIdLength,
    /// Invalid signature length.
    InvalidSignatureLength,
    /// Invalid instruction data length.
    InvalidInstructionDataLength,
    /// Invalid account data length.
    InvalidAccountDataLength,
    /// Invalid account discriminator length.
    InvalidAccountDiscriminatorLength,
    /// Invalid seeds length for account.
    InvalidSeedsLengthForAccount,
    /// Invalid seeds index for account.
    InvalidSeedsIndexForAccount,
    /// Invalid program address for account.
    InvalidProgramAddressForAccount,
    /// Invalid program id for account.
    InvalidProgramIdForAccount,
    /// Invalid signature for account.
    InvalidSignatureForAccount,
    /// Invalid instruction data for account.
    InvalidInstructionDataForAccount,
    /// Invalid account data for account.
    InvalidAccountDataForAccount,
    /// Invalid account discriminator for account.
    InvalidAccountDiscriminatorForAccount,
    /// Invalid seeds for account.
    InvalidSeedsForAccount,
    /// Invalid program address for instruction.
    InvalidProgramAddressForInstruction,
    /// Invalid program id for instruction.
    InvalidProgramIdForInstruction,
    /// Invalid signature for instruction.
    InvalidSignatureForInstruction,
    /// Invalid instruction data for instruction.
    InvalidInstructionDataForInstruction,
    /// Invalid account data for instruction.
    InvalidAccountDataForInstruction,
    /// Invalid account discriminator for instruction.
    InvalidAccountDiscriminatorForInstruction,
    /// Invalid seeds for instruction.
    InvalidSeedsForInstruction,
    /// The message transmitter is paused, so nothing may be minted.
    TransmitterPaused,
    /// The attestation signature list is empty.
    InvalidSignatures,
}

impl ErrorCode {
    /// The text shown to a caller for this error.
    pub open spec fn message_text(self) -> Seq<char> {
        match self {
            ErrorCode::RepeatedInit => "repeated init"@,
            ErrorCode::MathOverflow => "Math operation overflow"@,
            ErrorCode::InsufficientIdleFunds => "Insufficient idle funds"@,
            ErrorCode::UnauthorizedAdmin => "Unauthorized admin"@,
            ErrorCode::InvalidArgument => "Invalid argument"@,
            ErrorCode::InvalidInstructionData => "Invalid instruction data"@,
            ErrorCode::AccountDataTooSmall => "Account data is too small"@,
            ErrorCode::AccountDataTooLarge => "Account data is too large"@,
            ErrorCode::AccountNotInitialized => "Account is not initialized"@,
            ErrorCode::AccountAlreadyInitialized => "Account is already initialized"@,
            ErrorCode::InvalidAccountOwner => "Invalid account owner"@,
            ErrorCode::InvalidAccountDiscriminator => "Invalid account discriminator"@,
            ErrorCode::AccountNotWritable => "Account is not writable"@,
            ErrorCode::AccountNotReadable => "Account is not readable"@,
            ErrorCode::InvalidSeeds => "Invalid seeds"@,
            ErrorCode::InvalidProgramAddress => "Invalid program address"@,
            ErrorCode::InvalidProgramId => "Invalid program id"@,
            ErrorCode::MissingRequiredSignature => "Missing required signature"@,
            ErrorCode::InvalidSignature => "Invalid signature"@,
            ErrorCode::InvalidInstruction => "Invalid instruction"@,
            ErrorCode::UninitializedAccount => "Uninitialized account"@,
            ErrorCode::AlreadyInitializedAccount => "Already initialized account"@,
            ErrorCode::IncorrectProgramId => "Incorrect program id"@,
            ErrorCode::MissingRequiredKey => "Missing required key"@,
            ErrorCode::AccountBorrowedDoesNotMatch => "Account borrowed does not match"@,
            ErrorCode::BorrowedAccountDoesNotMatch => "Borrowed account does not match"@,
            ErrorCode::InvalidAccountBorrow => "Invalid account borrow"@,
            ErrorCode::InvalidAccountBorrowMut => "Invalid account borrow mut"@,
            ErrorCode::InvalidAccountHasOne => "Invalid account has one"@,
            ErrorCode::InvalidAccountHasOneMut => "Invalid account has one mut"@,
            ErrorCode::InvalidSeedsLength => "Invalid seeds length"@,
            ErrorCode::InvalidSeedsIndex => "Invalid seeds index"@,
            ErrorCode::InvalidProgramAddressLength => "Invalid program address length"@,
            ErrorCode::InvalidProgramIdLength => "Invalid program id length"@,
            ErrorCode::InvalidSignatureLength => "Invalid signature length"@,
            ErrorCode::InvalidInstructionDataLength => "Invalid instruction data length"@,
            ErrorCode::InvalidAccountDataLength => "Invalid account data length"@,
            ErrorCode::InvalidAccountDiscriminatorLength => "Invalid account discriminator length"@,
            ErrorCode::InvalidSeedsLengthForAccount => "Invalid seeds length for account"@,
            ErrorCode::InvalidSeedsIndexForAccount => "Invalid seeds index for account"@,
            ErrorCode::InvalidProgramAddressForAccount => "Invalid program address for account"@,
            ErrorCode::InvalidProgramIdForAccount => "Invalid program id for account"@,
            ErrorCode::InvalidSignatureForAccount => "Invalid signature for account"@,
            ErrorCode::InvalidInstructionDataForAccount => "Invalid instruction data for account"@,
            ErrorCode::InvalidAccountDataForAccount => "Invalid account data for account"@,
            ErrorCode::InvalidAccountDiscriminatorForAccount => "Invalid account discriminator for account"@,
            ErrorCode::InvalidSeedsForAccount => "Invalid seeds for account"@,
            ErrorCode::InvalidProgramAddressForInstruction => "Invalid program address for instruction"@,
            ErrorCode::InvalidProgramIdForInstruction => "Invalid program id for instruction"@,
            ErrorCode::InvalidSignatureForInstruction => "Invalid signature for instruction"@,
            ErrorCode::InvalidInstructionDataForInstruction => "Invalid instruction data for instruction"@,
            ErrorCode::InvalidAccountDataForInstruction => "Invalid account data for instruction"@,
            ErrorCode::InvalidAccountDiscriminatorForInstruction => "Invalid account discriminator for instruction"@,
            ErrorCode::InvalidSeedsForInstruction => "Invalid seeds for instruction"@,
            ErrorCode::TransmitterPaused => "Message transmitter is paused"@,
            ErrorCode::InvalidSignatures => "Invalid message signatures"@,
        }
    }

    /// The human-readable message of this error.
    pub fn message(&self) -> (text: &'static str)
        ensures
            text@ == self.message_text(),
    {
        match self {
            ErrorCode::RepeatedInit => "repeated init",
            ErrorCode::MathOverflow => "Math operation overflow",
            ErrorCode::InsufficientIdleFunds => "Insufficient idle funds",
            ErrorCode::UnauthorizedAdmin => "Unauthorized admin",
            ErrorCode::InvalidArgument => "Invalid argument",
            ErrorCode::InvalidInstructionData => "Invalid instruction data",
            ErrorCode::AccountDataTooSmall => "Account data is too small",
            ErrorCode::AccountDataTooLarge => "Account data is too large",
            ErrorCode::AccountNotInitialized => "Account is not initialized",
            ErrorCode::AccountAlreadyInitialized => "Account is already initialized",
            ErrorCode::InvalidAccountOwner => "Invalid account owner",
            ErrorCode::InvalidAccountDiscriminator => "Invalid account discriminator",
            ErrorCode::AccountNotWritable => "Account is not writable",
            ErrorCode::AccountNotReadable => "Account is not readable",
            ErrorCode::InvalidSeeds => "Invalid seeds",
            ErrorCode::InvalidProgramAddress => "Invalid program address",
            ErrorCode::InvalidProgramId => "Invalid program id",
            ErrorCode::MissingRequiredSignature => "Missing required signature",
            ErrorCode::InvalidSignature => "Invalid signature",
            ErrorCode::InvalidInstruction => "Invalid instruction",
            ErrorCode::UninitializedAccount => "Uninitialized account",
            ErrorCode::AlreadyInitializedAccount => "Already initialized account",
            ErrorCode::IncorrectProgramId => "Incorrect program id",
            ErrorCode::MissingRequiredKey => "Missing required key",
            ErrorCode::AccountBorrowedDoesNotMatch => "Account borrowed does not match",
            ErrorCode::BorrowedAccountDoesNotMatch => "Borrowed account does not match",
            ErrorCode::InvalidAccountBorrow => "Invalid account borrow",
            ErrorCode::InvalidAccountBorrowMut => "Invalid account borrow mut",
            ErrorCode::InvalidAccountHasOne => "Invalid account has one",
            ErrorCode::InvalidAccountHasOneMut => "Invalid account has one mut",
            ErrorCode::InvalidSeedsLength => "Invalid seeds length",
            ErrorCode::InvalidSeedsIndex => "Invalid seeds index",
            ErrorCode::InvalidProgramAddressLength => "Invalid program address length",
            ErrorCode::InvalidProgramIdLength => "Invalid program id length",
            ErrorCode::InvalidSignatureLength => "Invalid signature length",
            ErrorCode::InvalidInstructionDataLength => "Invalid instruction data length",
            ErrorCode::InvalidAccountDataLength => "Invalid account data length",
            ErrorCode::InvalidAccountDiscriminatorLength => "Invalid account discriminator length",
            ErrorCode::InvalidSeedsLengthForAccount => "Invalid seeds length for account",
            ErrorCode::InvalidSeedsIndexForAccount => "Invalid seeds index for account",
            ErrorCode::InvalidProgramAddressForAccount => "Invalid program address for account",
            ErrorCode::InvalidProgramIdForAccount => "Invalid program id for account",
            ErrorCode::InvalidSignatureForAccount => "Invalid signature for account",
            ErrorCode::InvalidInstructionDataForAccount => "Invalid instruction data for account",
            ErrorCode::InvalidAccountDataForAccount => "Invalid account data for account",
            ErrorCode::InvalidAccountDiscriminatorForAccount => "Invalid account discriminator for account",
            ErrorCode::InvalidSeedsForAccount => "Invalid seeds for account",
            ErrorCode::InvalidProgramAddressForInstruction => "Invalid program address for instruction",
            ErrorCode::InvalidProgramIdForInstruction => "Invalid program id for instruction",
            ErrorCode::InvalidSignatureForInstruction => "Invalid signature for instruction",
            ErrorCode::InvalidInstructionDataForInstruction => "Invalid instruction data for instruction",
            ErrorCode::InvalidAccountDataForInstruction => "Invalid account data for instruction",
            ErrorCode::InvalidAccountDiscriminatorForInstruction => "Invalid account discriminator for instruction",
            ErrorCode::InvalidSeedsForInstruction => "Invalid seeds for instruction",
            ErrorCode::TransmitterPaused => "Message transmitter is paused",
            ErrorCode::InvalidSignatures => "Invalid message signatures",
        }
    }
}

} // verus!
