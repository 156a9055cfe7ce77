//! The short text a worker's last error is shown as, and the retry window
//! a rate-limit message announces.

use vstd::prelude::*;

use regex::Regex;

use crate::orchestrator::events::{truncate_for_display, truncate_spec};
use crate::text::{
    append_decimal, contains_seq, contains_str, decimal, lower_seq, parse_unsigned,
    parse_unsigned_spec, to_ascii_lowercase,
};

verus! {

pub const WORKER_LAST_ERROR_MAX_CHARS: usize = 200;

/// An amount followed by a unit of hours, minutes or seconds, ignoring case.
pub const RATE_LIMIT_WINDOW_PATTERN: &'static str =
    r"(?i)(\d+)\s*(hours?|hrs?|hr|h|minutes?|mins?|min|m|seconds?|secs?|sec|s)";

/// The matches of a pattern in a text, left to right and not overlapping:
/// the text of the first group, the text of the second, and the character
/// that follows the second group, if any.
pub uninterp spec fn window_matches(pattern: Seq<char>, text: Seq<char>) -> Seq<
    (Seq<char>, Seq<char>, Option<char>),
>;

/// `Regex::captures_iter` of regex with the window pattern: the contract
/// names the matches as a function of the pattern and the text; the regex
/// semantics are not restated. Both groups of the pattern take part in
/// every match.
#[verifier::external_body]
fn rate_limit_windows(pattern: &str, text: &str) -> (res: Vec<(String, String, Option<char>)>)
    requires
        pattern@ == RATE_LIMIT_WINDOW_PATTERN@,
    ensures
        res@.map_values(|m: (String, String, Option<char>)| (m.0@, m.1@, m.2)) == window_matches(
            pattern@,
            text@,
        ),
{
    let re = Regex::new(pattern).unwrap();
    re.captures_iter(text).map(|c| {
        let unit = c.get(2).unwrap();
        (c[1].to_string(), unit.as_str().to_string(), text[unit.end()..].chars().next())
    }).collect()
}

/// `a * b`, saturating at `u64::MAX`.
pub open spec fn sat_mul(a: nat, b: nat) -> nat {
    if a * b > u64::MAX {
        u64::MAX as nat
    } else {
        a * b
    }
}

pub open spec fn sat_add(a: nat, b: nat) -> nat {
    if a + b > u64::MAX {
        u64::MAX as nat
    } else {
        a + b
    }
}

pub open spec fn is_ascii_alpha(c: char) -> bool {
    ('a' <= c && c <= 'z') || ('A' <= c && c <= 'Z')
}

/// The seconds a match counts for: none when its amount does not parse as
/// a `u64` or a letter follows the unit (the unit was the start of a
/// word); hours and minutes by the unit's first letter, else seconds.
pub open spec fn match_seconds(m: (Seq<char>, Seq<char>, Option<char>)) -> Option<nat> {
    match parse_unsigned_spec(m.0, u64::MAX as nat) {
        None => None,
        Some(amount) => if m.2 matches Some(c) && is_ascii_alpha(c) {
            None
        } else {
            let unit = lower_seq(m.1);
            if unit.len() > 0 && unit[0] == 'h' {
                Some(sat_mul(amount, 3600))
            } else if unit.len() > 0 && unit[0] == 'm' {
                Some(sat_mul(amount, 60))
            } else {
                Some(amount)
            }
        },
    }
}

/// The total of the counted matches (saturating), and whether any counted.
pub open spec fn window_total(ms: Seq<(Seq<char>, Seq<char>, Option<char>)>) -> (nat, bool)
    decreases ms.len(),
{
    if ms.len() == 0 {
        (0, false)
    } else {
        let (t, any) = window_total(ms.drop_last());
        match match_seconds(ms.last()) {
            Some(s) => (sat_add(t, s), true),
            None => (t, any),
        }
    }
}

/// The announced window in whole minutes, rounded up and at least one.
pub open spec fn retry_window_spec(message: Seq<char>) -> Option<nat> {
    let (total, any) = window_total(window_matches(RATE_LIMIT_WINDOW_PATTERN@, message));
    if !any {
        None
    } else {
        let minutes = sat_add(total, 59) / 60;
        Some(if minutes > 1 {
            minutes
        } else {
            1
        })
    }
}

proof fn lemma_window_total_bounded(ms: Seq<(Seq<char>, Seq<char>, Option<char>)>)
    ensures
        window_total(ms).0 <= u64::MAX,
    decreases ms.len(),
{
    if ms.len() > 0 {
        lemma_window_total_bounded(ms.drop_last());
    }
}

fn saturating_mul_u64(a: u64, b: u64) -> (res: u64)
    requires
        b > 0,
    ensures
        res == sat_mul(a as nat, b as nat),
{
    if a > u64::MAX / b {
        proof {
            assert(a * b > u64::MAX) by (nonlinear_arith)
                requires
                    a > u64::MAX / b,
                    b > 0,
            ;
        }
        u64::MAX
    } else {
        proof {
            assert(a * b <= u64::MAX) by (nonlinear_arith)
                requires
                    a <= u64::MAX / b,
                    b > 0,
            ;
        }
        a * b
    }
}

fn seconds_of(m: &(String, String, Option<char>)) -> (res: Option<u64>)
    ensures
        match res {
            Some(v) => match_seconds((m.0@, m.1@, m.2)) == Some(v as nat),
            None => match_seconds((m.0@, m.1@, m.2)) is None,
        },
{
    let amount = match parse_unsigned(m.0.as_str(), u64::MAX) {
        Some(a) => a,
        None => {
            return None;
        },
    };
    match m.2 {
        Some(c) => {
            if ('a' <= c && c <= 'z') || ('A' <= c && c <= 'Z') {
                return None;
            }
        },
        None => {},
    }
    let unit = to_ascii_lowercase(m.1.as_str());
    let first: Option<char> = if unit.unicode_len() > 0 {
        Some(unit.get_char(0))
    } else {
        None
    };
    if first == Some('h') {
        Some(saturating_mul_u64(amount, 3600))
    } else if first == Some('m') {
        Some(saturating_mul_u64(amount, 60))
    } else {
        Some(amount)
    }
}

pub fn extract_retry_window_minutes(message: &str) -> (res: Option<u64>)
    ensures
        match res {
            Some(v) => retry_window_spec(message@) == Some(v as nat),
            None => retry_window_spec(message@) is None,
        },
{
    let matches = rate_limit_windows(RATE_LIMIT_WINDOW_PATTERN, message);
    let ghost ms = matches@.map_values(|m: (String, String, Option<char>)| (m.0@, m.1@, m.2));
    let mut total: u64 = 0;
    let mut matched = false;
    let mut i: usize = 0;
    while i < matches.len()
        invariant
            i <= matches@.len(),
            ms == matches@.map_values(|m: (String, String, Option<char>)| (m.0@, m.1@, m.2)),
            window_total(ms.take(i as int)) == (total as nat, matched),
        decreases matches@.len() - i,
    {
        proof {
            assert(ms.take(i + 1).drop_last() =~= ms.take(i as int));
            assert(ms.take(i + 1).last() == ms[i as int]);
        }
        match seconds_of(&matches[i]) {
            Some(s) => {
                total = total.saturating_add(s);
                matched = true;
            },
            None => {},
        }
        i = i + 1;
    }
    proof {
        assert(ms.take(ms.len() as int) =~= ms);
    }
    if !matched {
        return None;
    }
    let minutes = total.saturating_add(59) / 60;
    Some(if minutes > 1 {
        minutes
    } else {
        1
    })
}

/// Whether an error is about a rate or usage limit (ignoring ASCII case).
pub open spec fn is_rate_limit_error(error: Seq<char>) -> bool {
    contains_seq(lower_seq(error), "rate limit"@) || contains_seq(lower_seq(error), "usage limit"@)
}

/// A worker's last error as shown: other errors cut to 200 characters; a
/// rate-limit error as its retry window in minutes when it announces one,
/// else as `rate limit: ` and the error, cut to 200 characters.
pub open spec fn rate_limit_error_text(error: Seq<char>) -> Seq<char> {
    if !is_rate_limit_error(error) {
        truncate_spec(error, WORKER_LAST_ERROR_MAX_CHARS as nat)
    } else {
        match retry_window_spec(error) {
            Some(m) => "rate limit: retry in ~"@ + decimal(m) + " min"@,
            None => truncate_spec("rate limit: "@ + error, WORKER_LAST_ERROR_MAX_CHARS as nat),
        }
    }
}

pub fn format_rate_limit_error(error: &str) -> (res: String)
    ensures
        res@ == rate_limit_error_text(error@),
{
    let normalized = to_ascii_lowercase(error);
    let is_rate_limit = contains_str(normalized.as_str(), "rate limit") || contains_str(
        normalized.as_str(),
        "usage limit",
    );
    if !is_rate_limit {
        return truncate_for_display(error, WORKER_LAST_ERROR_MAX_CHARS);
    }
    match extract_retry_window_minutes(error) {
        Some(minutes) => {
            let mut out = "rate limit: retry in ~".to_owned();
            append_decimal(&mut out, minutes);
            out.append(" min");
            out
        },
        None => {
            let mut formatted = "rate limit: ".to_owned();
            formatted.append(error);
            truncate_for_display(formatted.as_str(), WORKER_LAST_ERROR_MAX_CHARS)
        },
    }
}

} // verus!
