//! A greeting service that counts the requests it handles.
//!
//! The greeting logic is kept apart from any transport: a caller hands in the
//! optional name taken from a request and gets back the response body.

mod counter;
mod decimal;
mod greeting;
mod hello;
mod laws;

pub use counter::{count_after, next_count, RequestCounter};
pub use decimal::{append_decimal, decimal_digits, digit_char, to_decimal};
pub use greeting::{chosen_name, default_name, greeting, greeting_text, name_or_default};
pub use hello::{HelloWorld, SequentialGreeter};
pub use laws::{
    lemma_consecutive_counts_differ, lemma_count_after, lemma_counts_cover_range,
    lemma_default_greeting, lemma_named_greeting, lemma_sequential_counts,
};
