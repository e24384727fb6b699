//! The cool-down between two accepted submissions of one client.
//!
//! A limiter remembers, for each client identifier, the time of the last
//! submission it let through. A submission that comes before the window has
//! passed since then is turned away and leaves the remembered time as it is.
//! Times are readings of one monotonic clock, in milliseconds.

use crate::text::{char_is_ascii_digit, is_ascii_digit, to_chars};
use vstd::hash_map::StringHashMap;
use vstd::prelude::*;
use vstd::string::StringExecFns;

verus! {

/// The window, in seconds, where no setting gives another.
pub const DEFAULT_WINDOW_SECONDS: u64 = 30;

/// The time from `last` to `now`; none where the clock reads earlier than `last`.
pub open spec fn elapsed(last: u64, now: u64) -> nat {
    if now >= last {
        (now - last) as nat
    } else {
        0
    }
}

/// Whether `client` was let through less than the window before `now`.
pub open spec fn cooling_down(
    entries: Map<Seq<char>, u64>,
    window_seconds: u64,
    client: Seq<char>,
    now: u64,
) -> bool {
    entries.contains_key(client) && elapsed(entries[client], now) < window_seconds * 1000
}

/// The entries after `client` asked at `now`: unchanged where it was turned
/// away, with `now` for `client` where it was let through.
pub open spec fn recorded(
    entries: Map<Seq<char>, u64>,
    window_seconds: u64,
    client: Seq<char>,
    now: u64,
) -> Map<Seq<char>, u64> {
    if cooling_down(entries, window_seconds, client, now) {
        entries
    } else {
        entries.insert(client, now)
    }
}

/// The last accepted submission of each client, and the window between two.
pub struct RateLimiter {
    last_accepted: StringHashMap<u64>,
    window_seconds: u64,
}

impl RateLimiter {
    /// The time of the last accepted submission, by client.
    pub closed spec fn entries(&self) -> Map<Seq<char>, u64> {
        self.last_accepted@
    }

    /// The window, in seconds.
    pub closed spec fn window(&self) -> u64 {
        self.window_seconds
    }

    /// A limiter that has seen no client.
    pub fn new(window_seconds: u64) -> (limiter: RateLimiter)
        ensures
            limiter.entries() == Map::<Seq<char>, u64>::empty(),
            limiter.window() == window_seconds,
    {
        RateLimiter { last_accepted: StringHashMap::new(), window_seconds }
    }

    /// The window, in seconds.
    pub fn window_seconds(&self) -> (seconds: u64)
        ensures
            seconds == self.window(),
    {
        self.window_seconds
    }

    /// Whether `client_id` may submit at `now`; where it may, `now` becomes
    /// the time of its last accepted submission.
    pub fn check_and_record(&mut self, client_id: &str, now: u64) -> (allowed: bool)
        ensures
            allowed == !cooling_down(old(self).entries(), old(self).window(), client_id@, now),
            final(self).entries() == recorded(
                old(self).entries(),
                old(self).window(),
                client_id@,
                now,
            ),
            final(self).window() == old(self).window(),
    {
        let limited = match self.last_accepted.get(client_id) {
            Some(last) => {
                let since: u64 = if now >= *last {
                    now - *last
                } else {
                    0
                };
                since / 1000 < self.window_seconds
            },
            None => false,
        };
        if !limited {
            self.last_accepted.insert(String::from_str(client_id), now);
        }
        !limited
    }
}

/// Whether the client at `ip` has to wait at `now`; where it has not, `now`
/// becomes the time of its last accepted submission.
pub fn is_rate_limited(limiter: &mut RateLimiter, ip: &str, now: u64) -> (limited: bool)
    ensures
        limited == cooling_down(old(limiter).entries(), old(limiter).window(), ip@, now),
        final(limiter).entries() == recorded(
            old(limiter).entries(),
            old(limiter).window(),
            ip@,
            now,
        ),
        final(limiter).window() == old(limiter).window(),
{
    !limiter.check_and_record(ip, now)
}

/// Of two submissions of one client less than the window apart, where the
/// first is let through, the second is turned away.
pub proof fn lemma_second_within_window_waits(
    entries: Map<Seq<char>, u64>,
    window_seconds: u64,
    client: Seq<char>,
    first: u64,
    second: u64,
)
    requires
        !cooling_down(entries, window_seconds, client, first),
        first <= second,
        second - first < window_seconds * 1000,
    ensures
        cooling_down(recorded(entries, window_seconds, client, first), window_seconds, client, second),
{
}

/// Of two submissions of one client at least the window apart, where the
/// first is let through, the second is let through too.
pub proof fn lemma_second_after_window_passes(
    entries: Map<Seq<char>, u64>,
    window_seconds: u64,
    client: Seq<char>,
    first: u64,
    second: u64,
)
    requires
        !cooling_down(entries, window_seconds, client, first),
        first <= second,
        second - first >= window_seconds * 1000,
    ensures
        !cooling_down(
            recorded(entries, window_seconds, client, first),
            window_seconds,
            client,
            second,
        ),
{
}

/// A submission that is turned away does not move the window: the client is
/// judged next against the same accepted time as before.
pub proof fn lemma_turned_away_keeps_window(
    entries: Map<Seq<char>, u64>,
    window_seconds: u64,
    client: Seq<char>,
    now: u64,
)
    requires
        cooling_down(entries, window_seconds, client, now),
    ensures
        recorded(entries, window_seconds, client, now) == entries,
{
}

/// What one client does changes nothing for another: neither its remembered
/// time nor the answer it gets.
pub proof fn lemma_clients_do_not_interfere(
    entries: Map<Seq<char>, u64>,
    window_seconds: u64,
    client: Seq<char>,
    now: u64,
    other: Seq<char>,
    later: u64,
)
    requires
        client != other,
    ensures
        recorded(entries, window_seconds, client, now).contains_key(other) == entries.contains_key(
            other,
        ),
        entries.contains_key(other) ==> recorded(entries, window_seconds, client, now)[other]
            == entries[other],
        cooling_down(recorded(entries, window_seconds, client, now), window_seconds, other, later)
            == cooling_down(entries, window_seconds, other, later),
{
}

/// The number that a text of decimal digits stands for.
pub open spec fn digits_value(digits: Seq<char>) -> nat
    decreases digits.len(),
{
    if digits.len() == 0 {
        0
    } else {
        digits_value(digits.drop_last()) * 10 + (digits.last() as nat - 48) as nat
    }
}

/// The digits of a number written with an optional `+` before them.
pub open spec fn unsigned_digits(text: Seq<char>) -> Seq<char> {
    if text.len() > 0 && text[0] == '+' {
        text.drop_first()
    } else {
        text
    }
}

/// The number that `text` is, as `u64::from_str` reads it: decimal digits, at
/// least one, after an optional `+`, and no more than a `u64` holds.
pub open spec fn parsed_u64(text: Seq<char>) -> Option<u64> {
    let digits = unsigned_digits(text);
    if digits.len() > 0 && (forall|k: int| 0 <= k < digits.len() ==> is_ascii_digit(#[trigger] digits[k]))
        && digits_value(digits) <= u64::MAX {
        Some(digits_value(digits) as u64)
    } else {
        None
    }
}

proof fn lemma_digits_value_grows(digits: Seq<char>, k: int)
    requires
        0 <= k <= digits.len(),
        forall|j: int| 0 <= j < digits.len() ==> is_ascii_digit(#[trigger] digits[j]),
    ensures
        digits_value(digits.take(k)) <= digits_value(digits),
    decreases digits.len() - k,
{
    if k == digits.len() {
        assert(digits.take(k) =~= digits);
    } else {
        lemma_digits_value_grows(digits, k + 1);
        assert(digits.take(k + 1).drop_last() =~= digits.take(k));
    }
}

/// Reads a number as `str::parse::<u64>` does.
pub fn parse_u64(text: &str) -> (number: Option<u64>)
    ensures
        number == parsed_u64(text@),
{
    let chars = to_chars(text);
    let n: usize = chars.len();
    let start: usize = if n > 0 && chars[0] == '+' {
        1
    } else {
        0
    };
    let ghost digits = unsigned_digits(text@);
    assert(digits =~= chars@.skip(start as int));
    if start == n {
        return None;
    }
    let mut value: u64 = 0;
    let mut i: usize = start;
    while i < n
        invariant
            chars@ == text@,
            n == chars.len(),
            digits == chars@.skip(start as int),
            digits == unsigned_digits(text@),
            start <= i <= n,
            start < n,
            forall|k: int| 0 <= k < i - start ==> is_ascii_digit(#[trigger] digits[k]),
            value == digits_value(digits.take(i - start)),
        decreases n - i,
    {
        let c = chars[i];
        if !char_is_ascii_digit(c) {
            assert(!is_ascii_digit(digits[i - start]));
            return None;
        }
        let d: u64 = (c as u32 - 48) as u64;
        proof {
            assert(digits.take(i - start + 1).drop_last() =~= digits.take(i - start));
            assert(digits.take(i - start + 1).last() == c);
        }
        if value > (u64::MAX - d) / 10 {
            proof {
                assert(digits_value(digits.take(i - start + 1)) == value * 10 + d);
                if forall|k: int| 0 <= k < digits.len() ==> is_ascii_digit(#[trigger] digits[k]) {
                    lemma_digits_value_grows(digits, i - start + 1);
                }
            }
            return None;
        }
        value = value * 10 + d;
        i += 1;
    }
    proof {
        assert(digits.take(n - start) =~= digits);
    }
    Some(value)
}

/// The window that a setting asks for: the number of seconds it holds, and
/// the default where there is no setting or it is no number.
pub open spec fn window_for(setting: Option<Seq<char>>) -> u64 {
    match setting {
        Some(text) => match parsed_u64(text) {
            Some(seconds) => seconds,
            None => DEFAULT_WINDOW_SECONDS,
        },
        None => DEFAULT_WINDOW_SECONDS,
    }
}

/// The window, in seconds, that the setting asks for.
pub fn window_from_setting(setting: Option<&str>) -> (seconds: u64)
    ensures
        seconds == window_for(
            match setting {
                Some(text) => Some(text@),
                None => None,
            },
        ),
{
    match setting {
        Some(text) => match parse_u64(text) {
            Some(seconds) => seconds,
            None => DEFAULT_WINDOW_SECONDS,
        },
        None => DEFAULT_WINDOW_SECONDS,
    }
}

} // verus!
