//! Settings of the prover: where the service is, and how long a call may take.

use vstd::prelude::*;
use vstd::string::{StrSliceExecFns, StringExecFns};
use crate::outcome::ProverError;

verus! {

/// Seconds a single proof may take where the settings say nothing else.
pub const DEFAULT_PROOF_TIMEOUT_SECS: u64 = 3600;

/// Seconds a batch may take where the settings say nothing else.
pub const DEFAULT_BATCH_TIMEOUT_SECS: u64 = 3600;

/// A decimal digit.
pub open spec fn is_digit(c: char) -> bool {
    '0' <= c && c <= '9'
}

/// The number that a decimal digit stands for.
pub open spec fn digit_value(c: char) -> nat {
    (c as u32 - '0' as u32) as nat
}

/// The number that `digits` writes in base ten.
pub open spec fn decimal_value(digits: Seq<char>) -> nat
    decreases digits.len(),
{
    if digits.len() == 0 {
        0
    } else {
        10 * decimal_value(digits.drop_last()) + digit_value(digits.last())
    }
}

/// At least one character, and decimal digits only.
pub open spec fn is_decimal(digits: Seq<char>) -> bool {
    digits.len() > 0 && forall|i: int| 0 <= i < digits.len() ==> is_digit(#[trigger] digits[i])
}

/// The text without the plus sign that may stand in front of a number.
pub open spec fn without_sign(text: Seq<char>) -> Seq<char> {
    if text.len() > 0 && text[0] == '+' {
        text.drop_first()
    } else {
        text
    }
}

/// The number of seconds that a setting holds: decimal digits, with or
/// without a plus sign in front, that stay within 64 bits. Anything else,
/// white space included, is no number.
pub open spec fn spec_parse_secs(text: Seq<char>) -> Option<u64> {
    let digits = without_sign(text);
    if is_decimal(digits) && decimal_value(digits) <= u64::MAX {
        Some(decimal_value(digits) as u64)
    } else {
        None
    }
}

proof fn lemma_decimal_value_of_prefix(digits: Seq<char>, k: int)
    requires
        0 <= k <= digits.len(),
    ensures
        decimal_value(digits.take(k)) <= decimal_value(digits),
    decreases digits.len(),
{
    if k < digits.len() {
        lemma_decimal_value_of_prefix(digits.drop_last(), k);
        assert(digits.drop_last().take(k) =~= digits.take(k));
    } else {
        assert(digits.take(k) =~= digits);
    }
}

/// Reads the number of seconds that a setting holds, if it holds one.
pub fn parse_secs(text: &str) -> (secs: Option<u64>)
    ensures
        secs == spec_parse_secs(text@),
{
    let n: usize = text.unicode_len();
    let mut i: usize = 0;
    if n > 0 && text.get_char(0) == '+' {
        i = 1;
    }
    let start: usize = i;
    let ghost digits = without_sign(text@);
    if i == n {
        return None;
    }
    let mut value: u64 = 0;
    while i < n
        invariant
            start <= i <= n,
            n == text@.len(),
            digits == without_sign(text@),
            digits == text@.subrange(start as int, n as int),
            forall|j: int| 0 <= j < i - start ==> is_digit(#[trigger] digits[j]),
            value == decimal_value(digits.take(i - start)),
        decreases n - i,
    {
        let c: char = text.get_char(i);
        assert(c == digits[i - start]);
        if !(c >= '0' && c <= '9') {
            return None;
        }
        let d: u64 = (c as u32 - '0' as u32) as u64;
        proof {
            let longer = digits.take(i - start + 1);
            lemma_decimal_value_of_prefix(digits, i - start + 1);
            assert(longer.drop_last() =~= digits.take(i - start));
        }
        let shifted: u64 = match value.checked_mul(10) {
            Some(shifted) => shifted,
            None => {
                return None;
            },
        };
        value = match shifted.checked_add(d) {
            Some(sum) => sum,
            None => {
                return None;
            },
        };
        i = i + 1;
    }
    assert(digits.take(n - start) =~= digits);
    Some(value)
}

/// Mathematical value of a [`ProverConfig`].
pub struct ProverConfigView {
    pub service_location: Seq<char>,
    pub single_proof_timeout: u64,
    pub batch_proof_timeout: u64,
}

/// The settings of a prover.
#[derive(Debug, PartialEq, Eq)]
pub struct ProverConfig {
    /// Base URL of the proving service. It has no default.
    pub service_location: String,
    /// Seconds a single proof may take. The default is
    /// [`DEFAULT_PROOF_TIMEOUT_SECS`].
    pub single_proof_timeout: u64,
    /// Seconds a batch may take. The default is
    /// [`DEFAULT_BATCH_TIMEOUT_SECS`].
    pub batch_proof_timeout: u64,
}

impl View for ProverConfig {
    type V = ProverConfigView;

    open spec fn view(&self) -> ProverConfigView {
        ProverConfigView {
            service_location: self.service_location@,
            single_proof_timeout: self.single_proof_timeout,
            batch_proof_timeout: self.batch_proof_timeout,
        }
    }
}

impl Clone for ProverConfig {
    fn clone(&self) -> (copy: ProverConfig)
        ensures
            copy@ == self@,
    {
        ProverConfig {
            service_location: self.service_location.clone(),
            single_proof_timeout: self.single_proof_timeout,
            batch_proof_timeout: self.batch_proof_timeout,
        }
    }
}

/// Mathematical value of a setting that may be absent.
pub open spec fn setting_view(setting: Option<&str>) -> Option<Seq<char>> {
    match setting {
        Some(text) => Some(text@),
        None => None,
    }
}

/// The timeout that a setting asks for: the default where it is absent, and
/// none where it is present and no number.
pub open spec fn spec_timeout(setting: Option<Seq<char>>, default: u64) -> Option<u64> {
    match setting {
        Some(text) => spec_parse_secs(text),
        None => Some(default),
    }
}

/// The configuration that three settings give. The service location must be
/// present, and each timeout that is present must be a number of seconds.
pub open spec fn spec_from_settings(
    service_location: Option<Seq<char>>,
    proof_timeout_secs: Option<Seq<char>>,
    batch_timeout_secs: Option<Seq<char>>,
) -> Result<ProverConfigView, ProverError> {
    let single = spec_timeout(proof_timeout_secs, DEFAULT_PROOF_TIMEOUT_SECS);
    let batch = spec_timeout(batch_timeout_secs, DEFAULT_BATCH_TIMEOUT_SECS);
    if service_location is Some && single is Some && batch is Some {
        Ok(
            ProverConfigView {
                service_location: service_location->0,
                single_proof_timeout: single->0,
                batch_proof_timeout: batch->0,
            },
        )
    } else {
        Err(ProverError::Configuration)
    }
}

/// Mathematical value of a configuration that may have been refused.
pub open spec fn config_result_view(result: Result<ProverConfig, ProverError>) -> Result<
    ProverConfigView,
    ProverError,
> {
    match result {
        Ok(config) => Ok(config@),
        Err(e) => Err(e),
    }
}

fn timeout_of(setting: Option<&str>, default: u64) -> (timeout: Option<u64>)
    ensures
        timeout == spec_timeout(setting_view(setting), default),
{
    match setting {
        Some(text) => parse_secs(text),
        None => Some(default),
    }
}

impl ProverConfig {
    /// The configuration for the service at `service_location`, with the
    /// default timeouts.
    pub fn new(service_location: &str) -> (config: ProverConfig)
        ensures
            config@ == (ProverConfigView {
                service_location: service_location@,
                single_proof_timeout: DEFAULT_PROOF_TIMEOUT_SECS,
                batch_proof_timeout: DEFAULT_BATCH_TIMEOUT_SECS,
            }),
    {
        ProverConfig {
            service_location: String::from_str(service_location),
            single_proof_timeout: DEFAULT_PROOF_TIMEOUT_SECS,
            batch_proof_timeout: DEFAULT_BATCH_TIMEOUT_SECS,
        }
    }

    /// The configuration that three settings give, each as the text found
    /// for it, or `None` where nothing was found.
    pub fn from_settings(
        service_location: Option<&str>,
        proof_timeout_secs: Option<&str>,
        batch_timeout_secs: Option<&str>,
    ) -> (config: Result<ProverConfig, ProverError>)
        ensures
            config_result_view(config) == spec_from_settings(
                setting_view(service_location),
                setting_view(proof_timeout_secs),
                setting_view(batch_timeout_secs),
            ),
    {
        let single = timeout_of(proof_timeout_secs, DEFAULT_PROOF_TIMEOUT_SECS);
        let batch = timeout_of(batch_timeout_secs, DEFAULT_BATCH_TIMEOUT_SECS);
        match (service_location, single, batch) {
            (Some(url), Some(single_proof_timeout), Some(batch_proof_timeout)) => Ok(
                ProverConfig {
                    service_location: String::from_str(url),
                    single_proof_timeout,
                    batch_proof_timeout,
                },
            ),
            _ => Err(ProverError::Configuration),
        }
    }
}

} // verus!
