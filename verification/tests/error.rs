use hello_world::error::{HelloWorldError, ProgramError};

#[test]
fn program_failures_are_custom_errors() {
    assert_eq!(HelloWorldError::InvalidInstruction.code(), 0);
    assert_eq!(HelloWorldError::InvalidAccount.code(), 1);
    assert_eq!(ProgramError::from(HelloWorldError::InvalidInstruction), ProgramError::Custom(0));
    assert_eq!(ProgramError::from(HelloWorldError::InvalidAccount), ProgramError::Custom(1));
    let converted: ProgramError = HelloWorldError::InvalidInstruction.into();
    assert_eq!(converted, ProgramError::Custom(0));
}

#[test]
fn program_failures_have_a_text() {
    assert_eq!(HelloWorldError::InvalidInstruction.message(), "Invalid instruction");
    assert_eq!(HelloWorldError::InvalidAccount.message(), "Invalid account");
}

#[test]
fn host_reports_the_same_custom_error() {
    let host = solana_program::program_error::ProgramError::Custom(
        HelloWorldError::InvalidInstruction.code(),
    );
    assert_eq!(u64::from(host), 0x1_0000_0000);
}
