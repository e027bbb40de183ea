//! A minimal instruction handler: on every invocation it adds two predefined
//! numbers, records four diagnostic log lines, and reports success.
//!
//! The handler ignores its invocation context entirely: no input is validated,
//! parsed, or read, so no input can be rejected.

mod decimal;
mod handler;
mod logging;

pub use decimal::spec_decimal;
pub use decimal::u16_to_decimal;
pub use handler::lemma_log_lines_literal;
pub use handler::lemma_repeated_invocations;
pub use handler::process_instruction;
pub use handler::predefined_sum;
pub use handler::spec_log_after;
pub use handler::spec_log_group;
pub use handler::spec_log_lines;
pub use handler::spec_sum;
pub use handler::AccountRef;
pub use handler::NUMBER_ONE;
pub use handler::NUMBER_TWO;
pub use logging::LogBuffer;
