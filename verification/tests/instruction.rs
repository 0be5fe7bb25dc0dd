use hello_world::account_info::AccountInfo;
use hello_world::error::{HelloWorldError, ProgramError};
use hello_world::instruction::accounts::{check_shape, HelloWorldAccounts, Role};
use hello_world::instruction::{HelloWorldInstruction, HelloWorldInstructionDiscriminants};
use hello_world::processor::HelloWorldArgs;
use hello_world::pubkey::Pubkey;
use hello_world::system_program;
use std::str::FromStr;

fn account<'a>(key: Pubkey, is_writable: bool, data: &'a [u8]) -> AccountInfo<'a> {
    AccountInfo { key, lamports: 0, data, owner: system_program::id(), is_signer: false, is_writable }
}

fn some_key(first: u8) -> Pubkey {
    let mut bytes = [0u8; 32];
    bytes[0] = first;
    bytes[31] = 1;
    Pubkey(bytes)
}

#[test]
fn discriminant_of_the_addition_is_zero() {
    assert_eq!(u8::from(HelloWorldInstructionDiscriminants::HelloWorld), 0);
    assert_eq!(
        HelloWorldInstructionDiscriminants::try_from(0),
        Ok(HelloWorldInstructionDiscriminants::HelloWorld)
    );
    for value in 1..=255u8 {
        assert_eq!(
            HelloWorldInstructionDiscriminants::try_from(value),
            Err(ProgramError::Custom(0))
        );
    }
}

#[test]
fn unpack_accepts_exactly_the_addition() {
    let instruction = HelloWorldInstruction::unpack(&[0, 0]).unwrap();
    assert_eq!(instruction, HelloWorldInstruction::HelloWorld(HelloWorldArgs { discriminator: 0 }));
    assert_eq!(instruction.discriminant(), HelloWorldInstructionDiscriminants::HelloWorld);
    assert_eq!(instruction.pack(), vec![0, 0]);
}

#[test]
fn unpack_refuses_what_is_no_instruction() {
    let invalid_instruction = ProgramError::from(HelloWorldError::InvalidInstruction);
    assert_eq!(HelloWorldInstruction::unpack(&[]), Err(invalid_instruction));
    assert_eq!(HelloWorldInstruction::unpack(&[5]), Err(invalid_instruction));
    assert_eq!(HelloWorldInstruction::unpack(&[1, 0]), Err(invalid_instruction));
    assert_eq!(HelloWorldInstruction::unpack(&[255, 0, 0]), Err(invalid_instruction));
    assert_eq!(HelloWorldInstruction::unpack(&[0]), Err(ProgramError::InvalidInstructionData));
    assert_eq!(HelloWorldInstruction::unpack(&[0, 1]), Err(ProgramError::InvalidInstructionData));
    assert_eq!(HelloWorldInstruction::unpack(&[0, 0, 0]), Err(ProgramError::InvalidInstructionData));
}

#[test]
fn arguments_are_one_zero_byte() {
    assert_eq!(HelloWorldArgs::BASE_LEN, 1);
    let args = HelloWorldArgs { discriminator: 0 };
    assert_eq!(args.bytes_of(), [0]);
    assert_eq!(HelloWorldArgs::try_from_bytes(&args.bytes_of()), Ok(args));
    assert_eq!(HelloWorldArgs { discriminator: 9 }.bytes_of(), [9]);
    assert_eq!(HelloWorldArgs::try_from_bytes(&[9]), Err(ProgramError::InvalidInstructionData));
    assert_eq!(HelloWorldArgs::try_from_bytes(&[]), Err(ProgramError::InvalidInstructionData));
    assert_eq!(HelloWorldArgs::try_from_bytes(&[0, 0]), Err(ProgramError::InvalidInstructionData));
}

#[test]
fn context_binds_by_position() {
    let record = [0u8; 24];
    let accounts = [
        account(system_program::id(), false, &[]),
        account(some_key(1), true, &record),
        account(some_key(2), false, &[]),
        account(some_key(3), true, &[]),
    ];
    let ctx = HelloWorldAccounts::context(&accounts).ok().unwrap();
    assert!(std::ptr::eq(ctx.accounts.system_program, &accounts[0]));
    assert!(std::ptr::eq(ctx.accounts.hello_world_account, &accounts[1]));
    assert_eq!(ctx.remaining_accounts.len(), 2);
    assert!(std::ptr::eq(&ctx.remaining_accounts[0], &accounts[2]));
    assert_eq!(ctx.remaining_accounts[1].key, some_key(3));
}

#[test]
fn context_checks_count_then_roles() {
    let record = [0u8; 24];
    let invalid_account = ProgramError::from(HelloWorldError::InvalidAccount);

    assert_eq!(HelloWorldAccounts::context(&[]).err(), Some(ProgramError::NotEnoughAccountKeys));
    let one = [account(some_key(1), false, &[])];
    assert_eq!(HelloWorldAccounts::context(&one).err(), Some(ProgramError::NotEnoughAccountKeys));

    let wrong_identity = [account(some_key(1), true, &[]), account(some_key(2), true, &record)];
    assert_eq!(HelloWorldAccounts::context(&wrong_identity).err(), Some(invalid_account));

    let read_only = [
        account(system_program::id(), true, &[]),
        account(some_key(2), false, &record),
    ];
    assert_eq!(HelloWorldAccounts::context(&read_only).err(), Some(invalid_account));

    let swapped = [account(some_key(2), true, &record), account(system_program::id(), true, &[])];
    assert_eq!(HelloWorldAccounts::context(&swapped).err(), Some(invalid_account));

    let good = [account(system_program::id(), false, &[]), account(some_key(2), true, &record)];
    assert!(HelloWorldAccounts::context(&good).is_ok());
}

#[test]
fn shape_with_no_roles_accepts_anything() {
    assert_eq!(check_shape(&[], &[]), Ok(()));
    assert_eq!(check_shape(&[account(some_key(1), false, &[])], &[]), Ok(()));
}

#[test]
fn shape_checks_each_role() {
    let invalid_account = ProgramError::from(HelloWorldError::InvalidAccount);
    let roles = [
        Role { identity: None, writable: false },
        Role { identity: Some(some_key(7)), writable: true },
        Role { identity: Some(some_key(8)), writable: false },
    ];
    let good = [
        account(some_key(1), false, &[]),
        account(some_key(7), true, &[]),
        account(some_key(8), false, &[]),
    ];
    assert_eq!(check_shape(&good, &roles), Ok(()));
    assert_eq!(check_shape(&good[..2], &roles), Err(ProgramError::NotEnoughAccountKeys));

    let mut wrong = good;
    wrong[2].key = some_key(9);
    assert_eq!(check_shape(&wrong, &roles), Err(invalid_account));

    let mut wrong = good;
    wrong[1].is_writable = false;
    assert_eq!(check_shape(&wrong, &roles), Err(invalid_account));

    let mut almost = good;
    almost[1].key.0[31] = 2;
    assert_eq!(check_shape(&almost, &roles), Err(invalid_account));
}

#[test]
fn addresses_compare_by_their_bytes() {
    assert_eq!(some_key(1), some_key(1));
    assert_ne!(some_key(1), some_key(2));
    let mut other = some_key(1);
    other.0[17] = 1;
    assert_ne!(some_key(1), other);
    assert_eq!(system_program::id(), Pubkey([0; 32]));
    assert_ne!(system_program::id(), some_key(0));
}

#[test]
fn addresses_are_those_of_the_host() {
    assert_eq!(system_program::id().0, solana_program::system_program::ID.to_bytes());
    let id = solana_program::pubkey::Pubkey::from_str("HeLotDFrAQUDmdzgyZtMhLsWhAsWqdE4d24ZtEme1iN")
        .unwrap();
    assert_eq!(hello_world::id().0, id.to_bytes());
}
