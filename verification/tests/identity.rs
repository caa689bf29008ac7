use cpay::authority::DelegatedAuthority;
use cpay::error::ErrorCode;
use cpay::state::Pubkey;

#[test]
fn keys_are_equal_when_every_byte_is() {
    let mut bytes = [3u8; 32];
    let a = Pubkey::new_from_array(bytes);
    assert!(a == Pubkey::new_from_array([3u8; 32]));
    bytes[31] = 4;
    assert!(a != Pubkey::new_from_array(bytes));
    bytes[31] = 3;
    bytes[0] = 0;
    assert!(a != Pubkey::new_from_array(bytes));
    assert_eq!(a.to_bytes(), [3u8; 32]);
}

#[test]
fn custody_authority_seeds_hold_the_mint() {
    let mut bytes = [0u8; 32];
    for i in 0..32 {
        bytes[i] = i as u8;
    }
    let seeds = DelegatedAuthority::for_custody(&Pubkey::new_from_array(bytes), 7).seeds;
    assert_eq!(seeds, vec![b"program_token_account".to_vec(), bytes.to_vec(), vec![7u8]]);
}

#[test]
fn vault_and_transmitter_authority_seeds() {
    assert_eq!(
        DelegatedAuthority::for_vault(0).seeds,
        vec![b"program_token_account".to_vec(), vec![0u8]]
    );
    assert_eq!(
        DelegatedAuthority::for_transmitter(255).seeds,
        vec![b"message_transmitter".to_vec(), vec![255u8]]
    );
}

#[test]
fn error_messages() {
    assert_eq!(ErrorCode::RepeatedInit.message(), "repeated init");
    assert_eq!(ErrorCode::MathOverflow.message(), "Math operation overflow");
    assert_eq!(ErrorCode::InsufficientIdleFunds.message(), "Insufficient idle funds");
    assert_eq!(ErrorCode::UnauthorizedAdmin.message(), "Unauthorized admin");
    assert_eq!(ErrorCode::InvalidInstructionData.message(), "Invalid instruction data");
    assert_eq!(ErrorCode::TransmitterPaused.message(), "Message transmitter is paused");
    assert_eq!(ErrorCode::InvalidSignatures.message(), "Invalid message signatures");
    assert_eq!(
        ErrorCode::InvalidSeedsForInstruction.message(),
        "Invalid seeds for instruction"
    );
}

#[test]
fn address_seeds_of_the_stored_records() {
    let mint = Pubkey::new_from_array([5u8; 32]);
    let custody = Pubkey::new_from_array([6u8; 32]);
    assert_eq!(cpay::address::global_state_seeds(), vec![b"global_state".to_vec()]);
    assert_eq!(cpay::address::message_transmitter_seeds(), vec![b"message_transmitter".to_vec()]);
    assert_eq!(
        cpay::address::program_token_account_seeds(&mint),
        vec![b"program_token_account".to_vec(), vec![5u8; 32]]
    );
    assert_eq!(
        cpay::address::fund_account_seeds(&custody),
        vec![b"fund_account".to_vec(), vec![6u8; 32]]
    );
    assert_eq!(
        cpay::address::token_messenger_seeds(&mint),
        vec![b"token_messenger".to_vec(), vec![5u8; 32]]
    );
    assert_eq!(
        cpay::address::burn_message_seeds(258),
        vec![b"burn_message".to_vec(), vec![2u8, 1, 0, 0, 0, 0, 0, 0]]
    );
}
