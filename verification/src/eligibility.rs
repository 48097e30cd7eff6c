//! Eligibility: a balance ceiling applied right before a transfer.

use vstd::prelude::*;
use vstd::utf8::encode_utf8;

verus! {

/// Base units in one whole unit of the ledger's currency.
pub const BASE_UNITS_PER_WHOLE: u128 = 100_000_000;

/// The verdict on one recipient.
#[derive(Debug, Clone)]
pub struct EligibilityDecision {
    pub eligible: bool,
    pub reason: Option<String>,
}

/// Why no verdict was reached.
#[derive(Debug, Clone)]
pub enum GateError {
    /// The backend answered with text that is no unsigned decimal number.
    UnparsableBalance,
    /// The balance could not be read; the backend's message is kept verbatim.
    ReadFailed(String),
}

/// The reason attached to every negative verdict.
pub open spec fn over_limit_reason() -> Seq<char> {
    "Address balance exceeds faucet eligibility threshold"@
}

pub open spec fn is_digit(b: u8) -> bool {
    48 <= b <= 57
}

pub open spec fn all_digits(s: Seq<u8>) -> bool {
    forall|i: int| 0 <= i < s.len() ==> is_digit(#[trigger] s[i])
}

/// The number that a run of decimal digits denotes.
pub open spec fn digits_value(s: Seq<u8>) -> nat
    decreases s.len(),
{
    if s.len() == 0 {
        0
    } else {
        digits_value(s.drop_last()) * 10 + (s.last() - 48) as nat
    }
}

/// The text without one leading plus sign.
pub open spec fn unsigned_part(s: Seq<u8>) -> Seq<u8> {
    if s.len() > 0 && s[0] == 43 {
        s.subrange(1, s.len() as int)
    } else {
        s
    }
}

/// The balance that a text denotes: an optional plus sign, then one or more
/// decimal digits whose value fits in 128 bits. Anything else denotes none.
pub open spec fn parsed_balance(s: Seq<u8>) -> Option<u128> {
    let d = unsigned_part(s);
    if d.len() > 0 && all_digits(d) && digits_value(d) <= u128::MAX {
        Some(digits_value(d) as u128)
    } else {
        None
    }
}

/// A limit given in whole units, in base units.
pub open spec fn spec_base_units(whole: u64) -> u128 {
    (whole * BASE_UNITS_PER_WHOLE) as u128
}

/// The verdict owed for a balance that was read and a limit in base units.
pub open spec fn is_eligible(balance: u128, max_allowed_balance: u128) -> bool {
    balance < max_allowed_balance
}

/// A longer run of digits denotes no smaller number than any of its prefixes.
pub proof fn lemma_digits_value_prefix(s: Seq<u8>, k: int)
    requires
        all_digits(s),
        0 <= k <= s.len(),
    ensures
        digits_value(s.subrange(0, k)) <= digits_value(s),
    decreases s.len() - k,
{
    if k == s.len() {
        assert(s.subrange(0, k) =~= s);
    } else {
        lemma_digits_value_prefix(s, k + 1);
        let t = s.subrange(0, k + 1);
        assert(t.drop_last() =~= s.subrange(0, k));
        assert(is_digit(s[k]));
        assert(t.last() == s[k]);
    }
}

/// Converts a limit in whole units to base units.
pub fn base_units(whole: u64) -> (r: u128)
    ensures
        r == spec_base_units(whole),
        r == whole * 100_000_000,
{
    assert(whole * 100_000_000 <= u128::MAX) by (nonlinear_arith)
        requires
            whole <= u64::MAX,
    ;
    let w: u128 = whole.into();
    w * BASE_UNITS_PER_WHOLE
}

/// Reads a balance as the backend prints it.
pub fn parse_balance(text: &str) -> (r: Option<u128>)
    ensures
        r == parsed_balance(encode_utf8(text@)),
{
    let bytes = text.as_bytes();
    let n: usize = bytes.len();
    let start: usize = if n > 0 && bytes[0] == 43u8 { 1 } else { 0 };
    let ghost d = unsigned_part(bytes@);
    if start == n {
        return None;
    }
    let mut acc: u128 = 0;
    let mut i: usize = start;
    while i < n
        invariant
            start <= i <= n,
            n == bytes@.len(),
            bytes@ == encode_utf8(text@),
            d == unsigned_part(bytes@),
            d.len() == n - start,
            d.len() > 0,
            forall|j: int| 0 <= j < d.len() ==> d[j] == bytes@[start + j],
            all_digits(d.subrange(0, i - start)),
            acc == digits_value(d.subrange(0, i - start)),
        decreases n - i,
    {
        let b: u8 = bytes[i];
        let ghost upto = d.subrange(0, i - start);
        let ghost next = d.subrange(0, i - start + 1);
        proof {
            assert(next.drop_last() =~= upto);
            assert(next.last() == b);
            assert(d[i - start] == b);
        }
        if b < 48u8 || b > 57u8 {
            assert(!is_digit(d[i - start]));
            return None;
        }
        let digit: u128 = (b - 48u8).into();
        if acc > (u128::MAX - digit) / 10 {
            proof {
                assert(digits_value(next) > u128::MAX);
                if all_digits(d) {
                    lemma_digits_value_prefix(d, i - start + 1);
                }
            }
            return None;
        }
        acc = acc * 10 + digit;
        proof {
            assert forall|j: int| 0 <= j < next.len() implies is_digit(#[trigger] next[j]) by {
                if j < upto.len() {
                    assert(next[j] == upto[j]);
                }
            }
        }
        i = i + 1;
    }
    proof {
        assert(d.subrange(0, n - start) =~= d);
    }
    Some(acc)
}

/// What is owed for a balance text and a limit in base units: text that
/// denotes no balance is a fault of its own; a balance at or above the limit is
/// refused with the reason; a balance below it passes without one.
pub open spec fn gate_answer(
    r: Result<EligibilityDecision, GateError>,
    balance: Seq<char>,
    max_allowed_balance: u128,
) -> bool {
    match parsed_balance(encode_utf8(balance)) {
        None => r == Err::<EligibilityDecision, GateError>(GateError::UnparsableBalance),
        Some(b) => {
            &&& r is Ok
            &&& r->Ok_0.eligible == is_eligible(b, max_allowed_balance)
            &&& r->Ok_0.eligible ==> r->Ok_0.reason is None
            &&& !r->Ok_0.eligible ==> r->Ok_0.reason is Some && r->Ok_0.reason->Some_0@
                == over_limit_reason()
        },
    }
}

/// Decides on a balance that was read as text, against a limit in base units.
pub fn decide_eligibility(balance: &str, max_allowed_balance: u128) -> (r: Result<
    EligibilityDecision,
    GateError,
>)
    ensures
        gate_answer(r, balance@, max_allowed_balance),
{
    match parse_balance(balance) {
        None => Err(GateError::UnparsableBalance),
        Some(b) => {
            if b >= max_allowed_balance {
                Ok(
                    EligibilityDecision {
                        eligible: false,
                        reason: Some(
                            "Address balance exceeds faucet eligibility threshold".to_owned(),
                        ),
                    },
                )
            } else {
                Ok(EligibilityDecision { eligible: true, reason: None })
            }
        },
    }
}

/// The verdict on the outcome of one balance read.
///
/// A read that failed is passed on with the backend's message; a read that
/// succeeded is decided as `gate_answer` says.
pub fn check_eligibility(read: Result<String, String>, max_allowed_balance: u128) -> (r: Result<
    EligibilityDecision,
    GateError,
>)
    ensures
        match read {
            Err(message) => r == Err::<EligibilityDecision, GateError>(
                GateError::ReadFailed(message),
            ),
            Ok(text) => gate_answer(r, text@, max_allowed_balance),
        },
{
    match read {
        Err(message) => Err(GateError::ReadFailed(message)),
        Ok(text) => decide_eligibility(text.as_str(), max_allowed_balance),
    }
}

/// Whatever the limit, a balance text is either refused as unreadable or
/// decided by comparison alone: at or above the limit it is ineligible, below
/// it eligible, and a balance equal to the limit is ineligible.
pub proof fn lemma_gate_threshold(
    r: Result<EligibilityDecision, GateError>,
    balance: Seq<char>,
    max_allowed_balance: u128,
)
    requires
        gate_answer(r, balance, max_allowed_balance),
    ensures
        parsed_balance(encode_utf8(balance)) is None <==> r is Err,
        r is Err ==> r->Err_0 == GateError::UnparsableBalance,
        r is Ok ==> (r->Ok_0.eligible <==> parsed_balance(encode_utf8(balance))->Some_0
            < max_allowed_balance),
        parsed_balance(encode_utf8(balance)) == Some(max_allowed_balance) ==> r is Ok
            && !r->Ok_0.eligible,
{
}

} // verus!
