use counter_program::instructions::{CounterError, CounterInstructions, UpdateArgs};
use counter_program::processor::process_instruction;
use counter_program::state::CounterAccount;

fn counter_of(accounts: &Vec<Vec<u8>>) -> u32 {
    CounterAccount::try_from_slice(&accounts[0]).unwrap().counter
}

#[test]
fn test_counter() {
    let data = vec![0u8; 4];
    let mut accounts = vec![data];

    let increment_instruction_data: Vec<u8> = vec![0];
    let decrement_instruction_data: Vec<u8> = vec![1];
    let mut update_instruction_data: Vec<u8> = vec![2];
    let reset_instruction_data: Vec<u8> = vec![3];

    process_instruction(&mut accounts, &increment_instruction_data).unwrap();
    assert_eq!(counter_of(&accounts), 1);

    process_instruction(&mut accounts, &decrement_instruction_data).unwrap();
    assert_eq!(counter_of(&accounts), 0);

    let update_value = 45u32;
    update_instruction_data.extend_from_slice(&update_value.to_le_bytes());
    process_instruction(&mut accounts, &update_instruction_data).unwrap();
    assert_eq!(counter_of(&accounts), 45);

    process_instruction(&mut accounts, &reset_instruction_data).unwrap();
    assert_eq!(counter_of(&accounts), 0);
}

#[test]
fn four_byte_buffer_round_trips() {
    let original = vec![0x78u8, 0x56, 0x34, 0x12];
    let account = CounterAccount::try_from_slice(&original).unwrap();
    assert_eq!(account.counter, 0x12345678);
    let mut rewritten = vec![0xAAu8, 0xBB, 0xCC, 0xDD];
    account.serialize(&mut rewritten).unwrap();
    assert_eq!(rewritten, original);
}

#[test]
fn serialize_overwrites_in_place_and_keeps_trailing_bytes() {
    let account = CounterAccount { counter: 1 };
    let mut buf = vec![0xAAu8, 0xBB, 0xCC, 0xDD, 9, 9];
    account.serialize(&mut buf).unwrap();
    assert_eq!(buf, vec![1u8, 0, 0, 0, 9, 9]);
}

#[test]
fn serialize_fails_on_short_buffer() {
    let account = CounterAccount { counter: 1 };
    let mut buf = vec![0u8; 3];
    assert_eq!(account.serialize(&mut buf), Err(CounterError::InvalidAccountData));
    assert_eq!(buf.len(), 3);
}

#[test]
fn unpack_decodes_each_opcode() {
    assert_eq!(
        CounterInstructions::unpack(&[0]),
        Ok(CounterInstructions::Increment)
    );
    assert_eq!(
        CounterInstructions::unpack(&[1]),
        Ok(CounterInstructions::Decrement)
    );
    assert_eq!(
        CounterInstructions::unpack(&[2, 45, 0, 0, 0]),
        Ok(CounterInstructions::Update(UpdateArgs { value: 45 }))
    );
    assert_eq!(
        CounterInstructions::unpack(&[3]),
        Ok(CounterInstructions::Reset)
    );
}

#[test]
fn unpack_ignores_trailing_bytes() {
    assert_eq!(
        CounterInstructions::unpack(&[0, 99, 99]),
        Ok(CounterInstructions::Increment)
    );
    assert_eq!(
        CounterInstructions::unpack(&[2, 0xFF, 0xFF, 0xFF, 0xFF, 7]),
        Ok(CounterInstructions::Update(UpdateArgs { value: u32::MAX }))
    );
}

#[test]
fn empty_instruction_rejected_without_mutation() {
    let mut accounts = vec![vec![5u8, 0, 0, 0]];
    let r = process_instruction(&mut accounts, &[]);
    assert_eq!(r, Err(CounterError::InvalidInstruction));
    assert_eq!(accounts, vec![vec![5u8, 0, 0, 0]]);
}

#[test]
fn unknown_opcode_rejected() {
    assert_eq!(
        CounterInstructions::unpack(&[4]),
        Err(CounterError::InvalidInstruction)
    );
    assert_eq!(
        CounterInstructions::unpack(&[255, 1, 2, 3, 4]),
        Err(CounterError::InvalidInstruction)
    );
    let mut accounts = vec![vec![0u8; 4]];
    let r = process_instruction(&mut accounts, &[4]);
    assert_eq!(r, Err(CounterError::InvalidInstruction));
    assert_eq!(accounts, vec![vec![0u8; 4]]);
}

#[test]
fn truncated_update_rejected() {
    assert_eq!(
        CounterInstructions::unpack(&[2]),
        Err(CounterError::InvalidInstructionData)
    );
    assert_eq!(
        CounterInstructions::unpack(&[2, 1]),
        Err(CounterError::InvalidInstructionData)
    );
    assert_eq!(
        CounterInstructions::unpack(&[2, 1, 2, 3]),
        Err(CounterError::InvalidInstructionData)
    );
    let mut accounts = vec![vec![0u8; 4]];
    let r = process_instruction(&mut accounts, &[2, 1, 2, 3]);
    assert_eq!(r, Err(CounterError::InvalidInstructionData));
    assert_eq!(accounts, vec![vec![0u8; 4]]);
}

#[test]
fn missing_account_rejected() {
    let mut accounts: Vec<Vec<u8>> = vec![];
    let r = process_instruction(&mut accounts, &[0]);
    assert_eq!(r, Err(CounterError::NotEnoughAccounts));
    assert!(accounts.is_empty());
}

#[test]
fn wrong_buffer_length_rejected_without_mutation() {
    let mut short = vec![vec![0u8; 3]];
    assert_eq!(
        process_instruction(&mut short, &[0]),
        Err(CounterError::InvalidAccountData)
    );
    assert_eq!(short, vec![vec![0u8; 3]]);

    let mut long = vec![vec![0u8; 5]];
    assert_eq!(
        process_instruction(&mut long, &[0]),
        Err(CounterError::InvalidAccountData)
    );
    assert_eq!(long, vec![vec![0u8; 5]]);
}

#[test]
fn increment_at_maximum_fails_without_mutation() {
    let mut accounts = vec![vec![0xFFu8; 4]];
    let r = process_instruction(&mut accounts, &[0]);
    assert_eq!(r, Err(CounterError::ArithmeticOverflow));
    assert_eq!(accounts, vec![vec![0xFFu8; 4]]);
}

#[test]
fn decrement_at_zero_fails_without_mutation() {
    let mut accounts = vec![vec![0u8; 4]];
    let r = process_instruction(&mut accounts, &[1]);
    assert_eq!(r, Err(CounterError::ArithmeticUnderflow));
    assert_eq!(accounts, vec![vec![0u8; 4]]);
}

#[test]
fn increment_then_decrement_restores_value() {
    let mut accounts = vec![vec![7u8, 0, 0, 0]];
    process_instruction(&mut accounts, &[0]).unwrap();
    assert_eq!(counter_of(&accounts), 8);
    process_instruction(&mut accounts, &[1]).unwrap();
    assert_eq!(counter_of(&accounts), 7);
}

#[test]
fn update_sets_value_regardless_of_prior() {
    let mut accounts = vec![vec![0x99u8, 0x11, 0x22, 0x33]];
    let mut data: Vec<u8> = vec![2];
    data.extend_from_slice(&u32::MAX.to_le_bytes());
    process_instruction(&mut accounts, &data).unwrap();
    assert_eq!(counter_of(&accounts), u32::MAX);

    let mut data_zero: Vec<u8> = vec![2];
    data_zero.extend_from_slice(&0u32.to_le_bytes());
    process_instruction(&mut accounts, &data_zero).unwrap();
    assert_eq!(counter_of(&accounts), 0);
}

#[test]
fn reset_yields_zero_regardless_of_prior() {
    let mut accounts = vec![vec![0xFFu8; 4]];
    process_instruction(&mut accounts, &[3]).unwrap();
    assert_eq!(counter_of(&accounts), 0);
}

#[test]
fn only_first_account_is_written() {
    let mut accounts = vec![vec![0u8; 4], vec![9u8, 8, 7, 6]];
    process_instruction(&mut accounts, &[0]).unwrap();
    assert_eq!(counter_of(&accounts), 1);
    assert_eq!(accounts[1], vec![9u8, 8, 7, 6]);
}
