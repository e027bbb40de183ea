//! The instruction handler: adds two predefined numbers and records four
//! diagnostic log lines, ignoring everything the host passed in.

use vstd::prelude::*;

use crate::decimal::spec_decimal;
use crate::decimal::u16_to_decimal;
use crate::logging::LogBuffer;

verus! {

/// The first predefined number.
pub const NUMBER_ONE: u16 = 5;

/// The second predefined number.
pub const NUMBER_TWO: u16 = 7;

/// The sum the handler computes on every invocation.
pub open spec fn spec_sum() -> u16 {
    (NUMBER_ONE + NUMBER_TWO) as u16
}

/// One entry of the account list that the host hands to the handler.
/// The handler accepts any such entry and never reads it.
pub struct AccountRef {
    /// The account's address bytes.
    pub key: Vec<u8>,
    /// Whether the account signed the instruction.
    pub is_signer: bool,
    /// Whether the account may be written to.
    pub is_writable: bool,
}

/// The four log lines every invocation records, oldest first.
pub open spec fn spec_log_lines() -> Seq<Seq<char>> {
    seq![
        "Add predefined numbers program started."@,
        "Number 1: "@ + spec_decimal(NUMBER_ONE as nat),
        "Number 2: "@ + spec_decimal(NUMBER_TWO as nat),
        "Sum: "@ + spec_decimal(spec_sum() as nat),
    ]
}

/// The sum of the two predefined numbers, which is always exactly 12.
pub fn predefined_sum() -> (s: u16)
    ensures
        s == spec_sum(),
        s == 12,
{
    NUMBER_ONE + NUMBER_TWO
}

/// A log line made of a label followed by a number in decimal.
fn number_line(label: &str, n: u16) -> (s: String)
    ensures
        s@ == label@ + spec_decimal(n as nat),
{
    let mut s = String::from_str(label);
    let digits = u16_to_decimal(n);
    s.append(digits.as_str());
    s
}

/// Handles one instruction: records the startup line, both predefined
/// numbers and their sum, and reports success. The error type is
/// uninformative on purpose: the handler defines no error kinds, because no
/// input is validated and the arithmetic cannot fail at these magnitudes.
///
/// Every argument the host supplies is accepted and ignored: the result and
/// the recorded lines are the same for every program identity, every account
/// list and every instruction payload, and do not depend on what the log
/// already held.
pub fn process_instruction(
    program_id: &Vec<u8>,
    accounts: &Vec<AccountRef>,
    instruction_data: &Vec<u8>,
    log: &mut LogBuffer,
) -> (r: Result<(), ()>)
    ensures
        r is Ok,
        final(log)@ == old(log)@ + spec_log_lines(),
{
    log.append_line(String::from_str("Add predefined numbers program started."));

    let number1: u16 = NUMBER_ONE;
    let number2: u16 = NUMBER_TWO;
    let sum = predefined_sum();

    log.append_line(number_line("Number 1: ", number1));
    log.append_line(number_line("Number 2: ", number2));
    log.append_line(number_line("Sum: ", sum));

    Ok(())
}

/// The four log lines have fixed, literal content, byte for byte: the
/// startup message, then `Number 1: 5`, `Number 2: 7`, and `Sum: 12`.
pub proof fn lemma_log_lines_literal()
    ensures
        spec_log_lines() == seq![
            "Add predefined numbers program started."@,
            "Number 1: 5"@,
            "Number 2: 7"@,
            "Sum: 12"@,
        ],
{
    reveal_with_fuel(spec_decimal, 3);
    reveal_strlit("Number 1: ");
    reveal_strlit("Number 2: ");
    reveal_strlit("Sum: ");
    reveal_strlit("5");
    reveal_strlit("7");
    reveal_strlit("12");
    reveal_strlit("Number 1: 5");
    reveal_strlit("Number 2: 7");
    reveal_strlit("Sum: 12");
    assert(spec_decimal(NUMBER_ONE as nat) =~= "5"@);
    assert(spec_decimal(NUMBER_TWO as nat) =~= "7"@);
    assert(spec_decimal(spec_sum() as nat) =~= "12"@);
    assert("Number 1: "@ + spec_decimal(NUMBER_ONE as nat) =~= "Number 1: 5"@);
    assert("Number 2: "@ + spec_decimal(NUMBER_TWO as nat) =~= "Number 2: 7"@);
    assert("Sum: "@ + spec_decimal(spec_sum() as nat) =~= "Sum: 12"@);
    assert(spec_log_lines() =~= seq![
        "Add predefined numbers program started."@,
        "Number 1: 5"@,
        "Number 2: 7"@,
        "Sum: 12"@,
    ]);
}

/// The log contents after `n` complete invocations that started from an
/// empty log.
pub open spec fn spec_log_after(n: nat) -> Seq<Seq<char>>
    decreases n,
{
    if n == 0 {
        Seq::<Seq<char>>::empty()
    } else {
        spec_log_after((n - 1) as nat) + spec_log_lines()
    }
}

/// Group `k` of a log: its lines at positions `4 * k` up to `4 * k + 4`.
pub open spec fn spec_log_group(log: Seq<Seq<char>>, k: int) -> Seq<Seq<char>> {
    log.subrange(4 * k, 4 * k + 4)
}

/// Repeated invocations are independent and identical: after `n` of them
/// the log holds exactly `n` groups of four lines, and every group is the
/// same fixed four lines, with nothing carried over between invocations.
pub proof fn lemma_repeated_invocations(n: nat)
    ensures
        spec_log_after(n).len() == 4 * n,
        forall|k: int| 0 <= k < n ==> #[trigger] spec_log_group(spec_log_after(n), k)
            == spec_log_lines(),
    decreases n,
{
    if n > 0 {
        let prev = (n - 1) as nat;
        lemma_repeated_invocations(prev);
        assert(spec_log_lines().len() == 4);
        assert forall|k: int| 0 <= k < n implies #[trigger] spec_log_group(
            spec_log_after(n),
            k,
        ) == spec_log_lines() by {
            if k < prev {
                assert(spec_log_group(spec_log_after(n), k) =~= spec_log_group(
                    spec_log_after(prev),
                    k,
                ));
            } else {
                assert(spec_log_group(spec_log_after(n), k) =~= spec_log_lines());
            }
        }
    }
}

} // verus!
