use commit_reveal::compute::{division_based, is_prime};
use commit_reveal::counter::{greeting_from_bytes, greeting_to_bytes, process_instruction, GreetingStruct};
use commit_reveal::errors::ProgError;
use commit_reveal::multifunc;
use commit_reveal::pda;

const PROGRAM_ID: [u8; 32] = [7u8; 32];
const OTHER_ID: [u8; 32] = [8u8; 32];

#[test]
fn greeting_codec_is_little_endian() {
    let bytes = greeting_to_bytes(&GreetingStruct { counter: 0x0102_0304 });
    assert_eq!(bytes, vec![4, 3, 2, 1]);
    let back = greeting_from_bytes(&bytes).unwrap();
    assert_eq!(back.counter, 0x0102_0304);
    assert_eq!(
        greeting_from_bytes(&vec![1, 2, 3]),
        Err(ProgError::InvalidParameters)
    );
}

#[test]
fn counter_increments_by_one() {
    let out = process_instruction(&PROGRAM_ID, &PROGRAM_ID, &vec![0, 0, 0, 0]).unwrap();
    assert_eq!(out, vec![1, 0, 0, 0]);
    let out = process_instruction(&PROGRAM_ID, &PROGRAM_ID, &vec![255, 0, 0, 0]).unwrap();
    assert_eq!(out, vec![0, 1, 0, 0]);
}

#[test]
fn counter_wraps_at_the_limit() {
    let out = process_instruction(&PROGRAM_ID, &PROGRAM_ID, &vec![255, 255, 255, 255]).unwrap();
    assert_eq!(out, vec![0, 0, 0, 0]);
}

#[test]
fn counter_rejects_foreign_accounts_and_bad_buffers() {
    assert_eq!(
        process_instruction(&PROGRAM_ID, &OTHER_ID, &vec![0, 0, 0, 0]),
        Err(ProgError::IncorrectProgramId)
    );
    assert_eq!(
        process_instruction(&PROGRAM_ID, &PROGRAM_ID, &vec![0, 0, 0]),
        Err(ProgError::InvalidParameters)
    );
}

#[test]
fn multifunc_unpack_selects_by_flag() {
    assert_eq!(
        multifunc::Instruction::unpack(&vec![0]),
        Ok(multifunc::Instruction::FunctionA)
    );
    assert_eq!(
        multifunc::Instruction::unpack(&vec![1, 9, 9]),
        Ok(multifunc::Instruction::FunctionB)
    );
    assert_eq!(
        multifunc::Instruction::unpack(&Vec::new()),
        Err(ProgError::InvalidParameters)
    );
    assert_eq!(
        multifunc::Instruction::unpack(&vec![2]),
        Err(ProgError::InvalidFunctionFlag)
    );
    assert_eq!(
        multifunc::Processor::process_program_call(&vec![0, 4]),
        Ok(multifunc::Instruction::FunctionA)
    );
}

#[test]
fn pda_unpack_create_reads_seed_bump_and_size() {
    let input = vec![0, 3, b'a', b'b', b'c', 7, 42];
    let inst = pda::Instruction::unpack(&input).unwrap();
    assert_eq!(
        inst,
        pda::Instruction::PdaCreate { seed: b"abc".to_vec(), bump: 7, account_size: 42 }
    );
}

#[test]
fn pda_unpack_create_without_size_byte_reads_the_bump_twice() {
    // the account size is taken from the buffer's last byte, so a buffer
    // that stops at the bump hands the bump out as the size as well
    let input = vec![0, 3, b'a', b'b', b'c', 9];
    let inst = pda::Instruction::unpack(&input).unwrap();
    assert_eq!(
        inst,
        pda::Instruction::PdaCreate { seed: b"abc".to_vec(), bump: 9, account_size: 9 }
    );
}

#[test]
fn pda_unpack_write_reads_the_seed() {
    let input = vec![1, 4, b'w', b'o', b'r', b'd'];
    let inst = pda::Instruction::unpack(&input).unwrap();
    assert_eq!(inst, pda::Instruction::PdaWrite { seed: b"word".to_vec() });
    assert_eq!(
        pda::Processor::process_program_call(&input),
        Ok(pda::Instruction::PdaWrite { seed: b"word".to_vec() })
    );
}

#[test]
fn pda_unpack_rejects_short_or_unknown_input() {
    assert_eq!(
        pda::Instruction::unpack(&Vec::new()),
        Err(ProgError::InvalidParameters)
    );
    assert_eq!(
        pda::Instruction::unpack(&vec![1]),
        Err(ProgError::InvalidParameters)
    );
    assert_eq!(
        pda::Instruction::unpack(&vec![5, 0]),
        Err(ProgError::InvalidFunctionFlag)
    );
}

#[test]
fn pda_write_replaces_the_word_only_for_the_owner() {
    let mut account = pda::StringAccount { word: String::from("old") };
    assert_eq!(
        pda::write_pda(&PROGRAM_ID, &OTHER_ID, &mut account, String::from("new")),
        Err(ProgError::IncorrectProgramId)
    );
    assert_eq!(account.word, "old");
    assert_eq!(
        pda::write_pda(&PROGRAM_ID, &PROGRAM_ID, &mut account, String::from("new")),
        Ok(())
    );
    assert_eq!(account.word, "new");
}

#[test]
fn pda_creation_is_skipped_for_funded_accounts() {
    assert!(pda::pda_needs_creation(0));
    assert!(!pda::pda_needs_creation(5));
}

#[test]
fn is_prime_follows_the_division_test() {
    assert!(is_prime(&2));
    assert!(is_prime(&3));
    assert!(!is_prime(&4));
    assert!(is_prime(&5));
    assert!(!is_prime(&6));
    assert!(!is_prime(&9));
    assert!(is_prime(&17));
    assert!(!is_prime(&1000));
    assert!(is_prime(&65521));
    // the test has no candidates below 2, so 0 and 1 pass it
    assert!(is_prime(&0));
    assert!(is_prime(&1));
}

#[test]
fn division_based_finds_the_nth_prime() {
    assert_eq!(division_based(0), 2);
    assert_eq!(division_based(1), 2);
    assert_eq!(division_based(2), 3);
    assert_eq!(division_based(3), 5);
    assert_eq!(division_based(5), 11);
    assert_eq!(division_based(10), 29);
    assert_eq!(division_based(25), 97);
}
