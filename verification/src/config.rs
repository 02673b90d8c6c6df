//! Runtime configuration of a retry loop.
//!
//! The wrapper reads two environment variables each time it is called. The
//! caller hands over their text (or `None` where a variable is unset); the
//! functions here turn that text into a [`RetryConfig`] or say which of the
//! two is malformed.

use vstd::prelude::*;
use vstd::string::StringSliceAdditionalSpecFns;

verus! {

/// Name of the environment variable that holds the retry count.
pub const RETRIES_VAR: &'static str = "MARK_FLAKY_TESTS_RETRIES";

/// Name of the environment variable that holds the strictness flag.
pub const STRICT_VAR: &'static str = "MARK_FLAKY_TESTS_STRICT";

/// Retry count used when the variable is unset.
pub const DEFAULT_RETRIES: usize = 3;

/// Why the configuration could not be read.
#[derive(Clone, Copy, Debug, PartialEq, Eq, Structural)]
pub enum ConfigError {
    /// The retry count is not a decimal number that fits in `usize`.
    RetriesNotANumber,
    /// The strictness flag is neither `true` nor `false`.
    StrictNotABoolean,
}

/// What a retry loop is run with.
#[derive(Clone, Copy, Debug, PartialEq, Eq, Structural)]
pub struct RetryConfig {
    /// Upper bound on the number of attempts, the final one included.
    pub retries: usize,
    /// Whether the loop stops at the first classified failure.
    pub strict: bool,
}

/// `b` is an ASCII decimal digit.
pub open spec fn is_digit(b: u8) -> bool {
    48 <= b <= 57
}

/// The number a digit stands for; zero for any other byte.
pub open spec fn digit_value(b: u8) -> nat {
    if is_digit(b) {
        (b - 48) as nat
    } else {
        0
    }
}

/// Every byte of `s` is a decimal digit.
pub open spec fn all_digits(s: Seq<u8>) -> bool {
    forall|i: int| 0 <= i < s.len() ==> is_digit(#[trigger] s[i])
}

/// The number that the digits of `s` write in base ten.
pub open spec fn digits_value(s: Seq<u8>) -> nat
    decreases s.len(),
{
    if s.len() == 0 {
        0
    } else {
        digits_value(s.drop_last()) * 10 + digit_value(s.last())
    }
}

/// `s` without one leading plus sign.
pub open spec fn unsigned_part(s: Seq<u8>) -> Seq<u8> {
    if s.len() > 0 && s[0] == 43 {
        s.skip(1)
    } else {
        s
    }
}

/// The count that the bytes `s` spell: an optional `+`, then one or more
/// decimal digits and nothing else, with a value of at most `usize::MAX`.
pub open spec fn spec_parse_count(s: Seq<u8>) -> Option<usize> {
    let d = unsigned_part(s);
    if d.len() > 0 && all_digits(d) && digits_value(d) <= usize::MAX {
        Some(digits_value(d) as usize)
    } else {
        None
    }
}

/// The flag that `s` spells: exactly `true` or exactly `false`.
pub open spec fn spec_parse_flag(s: Seq<char>) -> Option<bool> {
    if s == "true"@ {
        Some(true)
    } else if s == "false"@ {
        Some(false)
    } else {
        None
    }
}

/// The retry count for a variable's text; the default where it is unset.
pub open spec fn spec_retries(var: Option<&str>) -> Option<usize> {
    match var {
        None => Some(DEFAULT_RETRIES),
        Some(text) => spec_parse_count(text.spec_bytes()),
    }
}

/// The strictness flag for a variable's text; `false` where it is unset.
pub open spec fn spec_strict(var: Option<&str>) -> Option<bool> {
    match var {
        None => Some(false),
        Some(text) => spec_parse_flag(text@),
    }
}

/// The configuration for the text of the two variables. The retry count is
/// looked at first, so its error wins where both are malformed.
pub open spec fn spec_from_vars(retries: Option<&str>, strict: Option<&str>) -> Result<
    RetryConfig,
    ConfigError,
> {
    match (spec_retries(retries), spec_strict(strict)) {
        (None, _) => Err(ConfigError::RetriesNotANumber),
        (Some(_), None) => Err(ConfigError::StrictNotABoolean),
        (Some(n), Some(s)) => Ok(RetryConfig { retries: n, strict: s }),
    }
}

/// A prefix of a digit string never writes a larger number than the whole.
pub proof fn lemma_prefix_value_le(s: Seq<u8>, k: int)
    requires
        0 <= k <= s.len(),
    ensures
        digits_value(s.take(k)) <= digits_value(s),
    decreases s.len(),
{
    if k == s.len() {
        assert(s.take(k) =~= s);
    } else {
        lemma_prefix_value_le(s.drop_last(), k);
        assert(s.drop_last().take(k) =~= s.take(k));
    }
}

/// A byte that is no digit, other than a plus sign in front, leaves no count
/// to read.
pub proof fn law_non_digit_is_rejected(s: Seq<u8>, i: int)
    requires
        0 <= i < s.len(),
        !is_digit(s[i]),
        !(i == 0 && s[0] == 43),
    ensures
        spec_parse_count(s) is None,
{
    let d = unsigned_part(s);
    if s[0] == 43 {
        assert(d[i - 1] == s[i]);
    } else {
        assert(d[i] == s[i]);
    }
}

/// A retry count that cannot be read is an error whatever the strictness
/// flag holds; the default is used for an unset variable only.
pub proof fn law_malformed_retries_is_an_error(retries: &str, strict: Option<&str>)
    requires
        spec_parse_count(retries.spec_bytes()) is None,
    ensures
        spec_from_vars(Some(retries), strict) == Err::<RetryConfig, ConfigError>(
            ConfigError::RetriesNotANumber,
        ),
{
}

/// Parses a retry count as `usize::from_str` reads one.
pub fn parse_count(text: &str) -> (r: Option<usize>)
    ensures
        r == spec_parse_count(text.spec_bytes()),
{
    let bytes = text.as_bytes();
    let n: usize = bytes.len();
    let start: usize = if n > 0 && bytes[0] == 43 {
        1
    } else {
        0
    };
    let ghost d = unsigned_part(bytes@);
    if start == n {
        return None;
    }
    let mut acc: usize = 0;
    let mut i: usize = start;
    while i < n
        invariant
            start <= i <= n,
            n == bytes@.len(),
            bytes@ == text.spec_bytes(),
            d == unsigned_part(bytes@),
            d == bytes@.skip(start as int),
            d.len() == n - start,
            all_digits(d.take(i - start)),
            acc == digits_value(d.take(i - start)),
        decreases n - i,
    {
        let b: u8 = bytes[i];
        let ghost k = i - start;
        assert(d[k] == b);
        if b < 48 || b > 57 {
            assert(!is_digit(d[k]));
            return None;
        }
        let dig: usize = (b - 48) as usize;
        proof {
            assert(d.take(k + 1).drop_last() =~= d.take(k));
            assert(d.take(k + 1).last() == b);
            assert(digits_value(d.take(k + 1)) == acc * 10 + dig);
        }
        if acc > (usize::MAX - dig) / 10 {
            proof {
                lemma_prefix_value_le(d, k + 1);
            }
            return None;
        }
        acc = acc * 10 + dig;
        i = i + 1;
    }
    proof {
        assert(d.take(n - start) =~= d);
    }
    Some(acc)
}

/// Parses a strictness flag as `bool::from_str` reads one.
pub fn parse_flag(text: &str) -> (r: Option<bool>)
    ensures
        r == spec_parse_flag(text@),
{
    let owned = text.to_owned();
    if owned == "true".to_owned() {
        Some(true)
    } else if owned == "false".to_owned() {
        Some(false)
    } else {
        None
    }
}

impl ConfigError {
    /// The text with which the wrapper aborts.
    pub open spec fn spec_message(self) -> Seq<char> {
        match self {
            ConfigError::RetriesNotANumber => "`MARK_FLAKY_TESTS_RETRIES` must contain a number"@,
            ConfigError::StrictNotABoolean => "`MARK_FLAKY_TESTS_STRICT` must contain a boolean"@,
        }
    }

    /// Gives the text with which the wrapper aborts.
    pub fn message(self) -> (r: &'static str)
        ensures
            r@ == self.spec_message(),
    {
        match self {
            ConfigError::RetriesNotANumber => "`MARK_FLAKY_TESTS_RETRIES` must contain a number",
            ConfigError::StrictNotABoolean => "`MARK_FLAKY_TESTS_STRICT` must contain a boolean",
        }
    }
}

impl Default for RetryConfig {
    /// The configuration where neither variable is set.
    fn default() -> (r: RetryConfig)
        ensures
            r == (RetryConfig { retries: DEFAULT_RETRIES, strict: false }),
    {
        RetryConfig { retries: DEFAULT_RETRIES, strict: false }
    }
}

impl RetryConfig {
    /// Reads the configuration from the text of the two variables, `None`
    /// standing for a variable that is unset.
    pub fn from_vars(retries: Option<&str>, strict: Option<&str>) -> (r: Result<
        RetryConfig,
        ConfigError,
    >)
        ensures
            r == spec_from_vars(retries, strict),
    {
        let count = match retries {
            None => Some(DEFAULT_RETRIES),
            Some(text) => parse_count(text),
        };
        let n: usize = match count {
            Some(n) => n,
            None => { return Err(ConfigError::RetriesNotANumber); },
        };
        let flag = match strict {
            None => Some(false),
            Some(text) => parse_flag(text),
        };
        match flag {
            Some(s) => Ok(RetryConfig { retries: n, strict: s }),
            None => Err(ConfigError::StrictNotABoolean),
        }
    }
}

} // verus!
