//! Reading the user's answers to prompts.
use vstd::prelude::*;
use crate::text::{chars_of, lower_of, lowercase, parse_u64, parse_u64_spec, string_from, trim_spec, trimmed};

verus! {

/// Prompts for confirmation, a choice or text.
pub struct Interactive;

impl Interactive {
    /// An answer confirms where, trimmed and lower-cased, it is `y` or `yes`.
    pub fn is_confirmation(input: &str) -> (r: bool)
        ensures
            r == (lower_of(trim_spec(input@)) == "y"@ || lower_of(trim_spec(input@)) == "yes"@),
    {
        let t = string_from(&trimmed(&chars_of(input)));
        let l = lowercase(t.as_str());
        l == String::from_str("y") || l == String::from_str("yes")
    }

    /// The choice that an answer makes among `n_options` numbered from 1:
    /// `Some(None)` for 0 (cancel), `Some(Some(i))` for option `i + 1`, and
    /// `None` for anything else, which is asked again.
    pub fn selection(input: &str, n_options: usize) -> (r: Option<Option<usize>>)
        ensures
            match parse_u64_spec(trim_spec(input@)) {
                Some(n) => if n == 0 {
                    r == Some(Option::<usize>::None)
                } else if n <= n_options {
                    r == Some(Some((n - 1) as usize))
                } else {
                    r is None
                },
                None => r is None,
            },
    {
        let t = trimmed(&chars_of(input));
        match parse_u64(&t) {
            Some(n) => {
                if n == 0 {
                    Some(None)
                } else if n <= n_options as u64 {
                    Some(Some((n - 1) as usize))
                } else {
                    None
                }
            },
            None => None,
        }
    }
}

} // verus!
