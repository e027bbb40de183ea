use add_numbers::process_instruction;
use add_numbers::predefined_sum;
use add_numbers::AccountRef;
use add_numbers::LogBuffer;
use add_numbers::NUMBER_ONE;
use add_numbers::NUMBER_TWO;

const EXPECTED_LINES: [&str; 4] = [
    "Add predefined numbers program started.",
    "Number 1: 5",
    "Number 2: 7",
    "Sum: 12",
];

fn account(key_byte: u8, is_signer: bool, is_writable: bool) -> AccountRef {
    AccountRef { key: vec![key_byte; 32], is_signer, is_writable }
}

#[test]
fn predefined_numbers_and_sum() {
    assert_eq!(NUMBER_ONE, 5);
    assert_eq!(NUMBER_TWO, 7);
    assert_eq!(predefined_sum(), 12);
}

#[test]
fn empty_context_succeeds_with_four_lines() {
    let program_id: Vec<u8> = Vec::new();
    let accounts: Vec<AccountRef> = Vec::new();
    let data: Vec<u8> = Vec::new();
    let mut log = LogBuffer::new();

    let result = process_instruction(&program_id, &accounts, &data, &mut log);

    assert!(result.is_ok());
    assert_eq!(log.line_count(), 4);
    for (line, expected) in log.lines.iter().zip(EXPECTED_LINES.iter()) {
        assert_eq!(line, expected);
    }
}

#[test]
fn populated_context_gives_identical_output() {
    let program_id: Vec<u8> = vec![42; 32];
    let accounts = vec![account(1, true, false), account(2, false, true), account(3, false, false)];
    let data: Vec<u8> = vec![0, 1, 2, 3, 255, 254, 77];
    let mut log = LogBuffer::new();

    let result = process_instruction(&program_id, &accounts, &data, &mut log);

    assert!(result.is_ok());
    assert_eq!(log.line_count(), 4);
    for (line, expected) in log.lines.iter().zip(EXPECTED_LINES.iter()) {
        assert_eq!(line, expected);
    }
}

#[test]
fn differing_contexts_agree_line_for_line() {
    let mut log_a = LogBuffer::new();
    let mut log_b = LogBuffer::new();

    let empty: Vec<u8> = Vec::new();
    let no_accounts: Vec<AccountRef> = Vec::new();
    let result_a = process_instruction(&empty, &no_accounts, &empty, &mut log_a);

    let id: Vec<u8> = vec![9; 32];
    let accounts = vec![account(7, true, true)];
    let data: Vec<u8> = vec![200, 100, 50];
    let result_b = process_instruction(&id, &accounts, &data, &mut log_b);

    assert_eq!(result_a, result_b);
    assert_eq!(log_a.lines, log_b.lines);
}

#[test]
fn repeated_invocations_append_identical_groups() {
    let program_id: Vec<u8> = vec![5; 32];
    let accounts = vec![account(11, false, true)];
    let data: Vec<u8> = vec![8, 8, 8];
    let mut log = LogBuffer::new();

    for _ in 0..3 {
        let result = process_instruction(&program_id, &accounts, &data, &mut log);
        assert!(result.is_ok());
    }

    assert_eq!(log.line_count(), 12);
    for group in 0..3 {
        for (offset, expected) in EXPECTED_LINES.iter().enumerate() {
            assert_eq!(&log.lines[group * 4 + offset], expected);
        }
    }
}

#[test]
fn invocation_appends_after_existing_lines() {
    let mut log = LogBuffer::new();
    log.append_line(String::from("earlier diagnostic"));

    let program_id: Vec<u8> = Vec::new();
    let accounts: Vec<AccountRef> = Vec::new();
    let data: Vec<u8> = Vec::new();
    let result = process_instruction(&program_id, &accounts, &data, &mut log);

    assert!(result.is_ok());
    assert_eq!(log.line_count(), 5);
    assert_eq!(log.lines[0], "earlier diagnostic");
    for (offset, expected) in EXPECTED_LINES.iter().enumerate() {
        assert_eq!(&log.lines[1 + offset], expected);
    }
}

#[test]
fn log_buffer_records_lines_in_order() {
    let mut log = LogBuffer::new();
    assert_eq!(log.line_count(), 0);
    log.append_line(String::from("first"));
    log.append_line(String::from("second"));
    assert_eq!(log.line_count(), 2);
    assert_eq!(log.lines, vec![String::from("first"), String::from("second")]);
}
