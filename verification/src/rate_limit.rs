//! Rate-limit (HTTP 429) handling: reading `Retry-After`, the local exponential backoff, the
//! cooldown countdown, and the cooldown state the dashboard keeps between requests.

use vstd::prelude::*;

use crate::text::{
    chars_of, decimal, digit_char, is_white, lead_ws, push_decimal, push_str, trail_ws, trim,
    trim_spec, trim_start_spec,
};
use crate::theme;
use crate::view::{lemma_warn_prefix_is_warning, status_kind_spec, StatusKind};

verus! {

/// HTTP status Spotify returns when the rolling request budget is exceeded.
pub const TOO_MANY_REQUESTS: u16 = 429;
/// Upper bound applied to a server `Retry-After` (seconds).
pub const RETRY_AFTER_MAX_SECS: u64 = 300;
/// Base of the local exponential backoff used when the server sends no usable `Retry-After`.
pub const BACKOFF_BASE_SECS: u64 = 2;
/// Cap of the local exponential backoff (does not apply to a server `Retry-After`).
pub const BACKOFF_CAP_SECS: u64 = 60;

// ---- integer parsing ----------------------------------------------------------

/// Whether `c` is an ASCII decimal digit.
pub open spec fn is_digit(c: char) -> bool {
    '0' <= c && c <= '9'
}

/// The value of a string of decimal digits.
pub open spec fn digits_value(d: Seq<char>) -> nat
    decreases d.len(),
{
    if d.len() == 0 {
        0
    } else {
        digits_value(d.drop_last()) * 10 + ((d.last() as nat) - 48) as nat
    }
}

/// `s` without one leading `+`.
pub open spec fn sign_stripped(s: Seq<char>) -> Seq<char> {
    if s.len() > 0 && s[0] == '+' { s.drop_first() } else { s }
}

/// Every character of `d` is a decimal digit.
pub open spec fn all_digits(d: Seq<char>) -> bool {
    forall|i: int| 0 <= i < d.len() ==> is_digit(#[trigger] d[i])
}

/// What `str::parse::<u64>` accepts: an optional `+` followed by at least one decimal digit, with a
/// value that fits in `u64`. Anything else (a sign `-`, whitespace, a fraction, an HTTP date) is an
/// error.
pub open spec fn parse_u64_spec(s: Seq<char>) -> Option<u64> {
    let body = sign_stripped(s);
    if body.len() > 0 && all_digits(body) && digits_value(body) <= u64::MAX {
        Some(digits_value(body) as u64)
    } else {
        None
    }
}

proof fn lemma_digits_value_grows(d: Seq<char>, i: int)
    requires
        0 <= i <= d.len(),
        forall|k: int| 0 <= k < d.len() ==> is_digit(#[trigger] d[k]),
    ensures
        digits_value(d.take(i)) <= digits_value(d),
    decreases d.len() - i,
{
    if i < d.len() {
        lemma_digits_value_grows(d, i + 1);
        assert(d.take(i + 1).drop_last() =~= d.take(i));
    } else {
        assert(d.take(i) =~= d);
    }
}

/// Parse an unsigned 64-bit integer the way `str::parse::<u64>` does.
pub fn parse_u64(s: &[char]) -> (r: Option<u64>)
    ensures
        r == parse_u64_spec(s@),
{
    let start: usize = if s.len() > 0 && s[0] == '+' { 1 } else { 0 };
    let ghost body = sign_stripped(s@);
    assert(body =~= s@.skip(start as int));
    if start >= s.len() {
        return None;
    }
    let mut acc: u64 = 0;
    let mut i: usize = start;
    while i < s.len()
        invariant
            start <= i <= s@.len(),
            body =~= s@.skip(start as int),
            body == sign_stripped(s@),
            forall|k: int| 0 <= k < i - start ==> is_digit(#[trigger] body[k]),
            acc as nat == digits_value(body.take(i - start)),
        decreases s.len() - i,
    {
        let c = s[i];
        assert(body[i - start] == c);
        if !('0' <= c && c <= '9') {
            assert(!is_digit(body[i - start]));
            return None;
        }
        let d = (c as u32 - 48) as u64;
        assert(body.take(i - start + 1).drop_last() =~= body.take(i - start));
        if acc > (u64::MAX - d) / 10 {
            proof {
                let j = i - start;
                assert(body.take(j + 1).last() == c);
                assert(digits_value(body.take(j + 1)) == digits_value(body.take(j)) * 10 + d);
                assert(acc * 10 + d > u64::MAX) by (nonlinear_arith)
                    requires
                        acc > (u64::MAX - d) / 10,
                        d <= 9,
                ;
                if all_digits(body) {
                    lemma_digits_value_grows(body, j + 1);
                }
            }
            return None;
        }
        acc = acc * 10 + d;
        i = i + 1;
    }
    assert(body.take(body.len() as int) =~= body);
    Some(acc)
}

// ---- Retry-After and backoff ----------------------------------------------------

/// What `parse_retry_after` returns: integer seconds (surrounding whitespace allowed), capped.
pub open spec fn retry_after_spec(value: Seq<char>) -> Option<u64> {
    match parse_u64_spec(trim_spec(value)) {
        Some(n) => Some(if n <= RETRY_AFTER_MAX_SECS { n } else { RETRY_AFTER_MAX_SECS }),
        None => None,
    }
}

/// Parse a `Retry-After` header value. Only integer seconds are honored; the HTTP-date form and any
/// non-numeric value yield `None`. The result is clamped to [`RETRY_AFTER_MAX_SECS`].
pub fn parse_retry_after(value: &str) -> (r: Option<u64>)
    ensures
        r == retry_after_spec(value@),
{
    let t = trim(&chars_of(value));
    match parse_u64(&t) {
        Some(n) => Some(if n <= RETRY_AFTER_MAX_SECS { n } else { RETRY_AFTER_MAX_SECS }),
        None => None,
    }
}

/// `BACKOFF_BASE_SECS * 2^e`.
pub open spec fn doubled(e: nat) -> nat
    decreases e,
{
    if e == 0 { BACKOFF_BASE_SECS as nat } else { 2 * doubled((e - 1) as nat) }
}

/// What `backoff_secs(hits)` returns.
pub open spec fn backoff_spec(hits: nat) -> nat {
    let e: nat = if hits <= 1 { 0 } else if hits - 1 >= 6 { 6 } else { (hits - 1) as nat };
    let v = doubled(e);
    if v <= BACKOFF_CAP_SECS { v } else { BACKOFF_CAP_SECS as nat }
}

/// The local exponential backoff for the `hits`-th consecutive 429 (1-based): `base * 2^(hits-1)`,
/// clamped to [`BACKOFF_CAP_SECS`]. `hits == 0` is treated as the first hit.
pub fn backoff_secs(hits: u32) -> (r: u64)
    ensures
        r == backoff_spec(hits as nat),
{
    let exp: u32 = if hits <= 1 { 0 } else if hits - 1 >= 6 { 6 } else { hits - 1 };
    let mut v: u64 = BACKOFF_BASE_SECS;
    let mut k: u32 = 0;
    while k < exp
        invariant
            k <= exp <= 6,
            v == doubled(k as nat),
            v <= 128,
        decreases exp - k,
    {
        v = v * 2;
        k = k + 1;
        assert(doubled(k as nat) == 2 * doubled((k - 1) as nat));
        assert(k <= 6 ==> doubled(k as nat) <= 128) by {
            reveal_with_fuel(doubled, 7);
        }
    }
    if v <= BACKOFF_CAP_SECS { v } else { BACKOFF_CAP_SECS }
}

/// How long to wait after a 429: the server `Retry-After` when present (already capped), otherwise
/// the local exponential backoff for the current consecutive-hit count.
pub fn wait_secs(retry_after: Option<u64>, hits: u32) -> (r: u64)
    ensures
        r == (match retry_after { Some(s) => s as nat, None => backoff_spec(hits as nat) }),
{
    match retry_after {
        Some(s) => s,
        None => backoff_secs(hits),
    }
}

/// A detected 429. `retry_after` is the server-provided wait (seconds, already capped) when the
/// header is present and parseable as an integer.
#[derive(Debug, Clone, Copy, PartialEq, Eq, Structural)]
pub struct RateLimitHit {
    pub retry_after: Option<u64>,
}

/// Classify an HTTP failure as a 429, reading the server `Retry-After` if any. `None` when the
/// status is not 429.
pub fn rate_limit_hit(status: u16, retry_after_header: Option<&str>) -> (r: Option<RateLimitHit>)
    ensures
        status != TOO_MANY_REQUESTS ==> r is None,
        status == TOO_MANY_REQUESTS ==> r == Some(RateLimitHit {
            retry_after: match retry_after_header { Some(h) => retry_after_spec(h@), None => None },
        }),
{
    if status != TOO_MANY_REQUESTS {
        return None;
    }
    let retry_after = match retry_after_header {
        Some(h) => parse_retry_after(h),
        None => None,
    };
    Some(RateLimitHit { retry_after })
}

/// Remaining cooldown (milliseconds) at `now_ms`, or `None` when not (or no longer) blocked.
pub fn remaining(until_ms: Option<u64>, now_ms: u64) -> (r: Option<u64>)
    ensures
        r == (match until_ms {
            Some(u) => if u > now_ms { Some((u - now_ms) as u64) } else { None },
            None => None,
        }),
{
    match until_ms {
        Some(u) => if u > now_ms { Some(u - now_ms) } else { None },
        None => None,
    }
}

/// The countdown text for `secs` seconds.
pub open spec fn rate_limit_status_spec(secs: nat) -> Seq<char> {
    theme::WARN@ + " Rate limited by Spotify — retrying in "@ + decimal(secs) + "s"@
}

/// The rate-limit countdown shown on the status line. Starts with the warning glyph so the status
/// line classifies it as a warning.
pub fn rate_limit_status(remaining_secs: u64) -> (r: String)
    ensures
        r@ == rate_limit_status_spec(remaining_secs as nat),
{
    let mut r = String::from_str(theme::WARN);
    push_str(&mut r, " Rate limited by Spotify — retrying in ");
    push_decimal(&mut r, remaining_secs as u128);
    push_str(&mut r, "s");
    r
}

// ---- cooldown state -------------------------------------------------------------

/// The 429 cooldown the dashboard keeps: while `until_ms` lies in the future every API call is
/// held back. `hits` counts consecutive 429s and drives the local backoff.
#[derive(Debug, Clone, Copy, PartialEq, Eq, Structural)]
pub struct RateLimiter {
    pub until_ms: Option<u64>,
    pub hits: u32,
}

/// `now_ms + secs * 1000`, saturating.
pub open spec fn deadline(now_ms: nat, secs: nat) -> u64 {
    if now_ms + secs * 1000 > u64::MAX { u64::MAX } else { (now_ms + secs * 1000) as u64 }
}

/// Whether the limiter holds calls back at `now_ms`.
pub open spec fn is_blocked(l: RateLimiter, now_ms: nat) -> bool {
    l.until_ms matches Some(u) && u > now_ms
}

/// The consecutive-hit count after one more 429 (saturating).
pub open spec fn hits_after(hits: u32) -> u32 {
    if hits == u32::MAX { u32::MAX } else { (hits + 1) as u32 }
}

/// The wait (seconds) a 429 arms when it is the `hits`-th in a row: the server's `Retry-After`,
/// or the local backoff.
pub open spec fn wait_spec(hit: RateLimitHit, hits: nat) -> nat {
    match hit.retry_after {
        Some(s) => s as nat,
        None => backoff_spec(hits),
    }
}

/// The limiter after a 429 at `now_ms`: one more hit, and a deadline `wait_spec` seconds on.
pub open spec fn noted(l0: RateLimiter, l1: RateLimiter, hit: RateLimitHit, now_ms: nat) -> bool {
    &&& l1.hits == hits_after(l0.hits)
    &&& l1.until_ms == Some(deadline(now_ms, wait_spec(hit, l1.hits as nat)))
}

/// The whole seconds left of a cooldown at `now_ms`, never below 1.
pub open spec fn countdown_secs(l: RateLimiter, now_ms: nat) -> nat {
    match l.until_ms {
        Some(u) => if (u - now_ms) / 1000 >= 1 { ((u - now_ms) / 1000) as nat } else { 1 },
        None => 1,
    }
}

impl RateLimiter {
    /// No cooldown.
    pub fn new() -> (l: RateLimiter)
        ensures
            l.until_ms is None,
            l.hits == 0,
    {
        RateLimiter { until_ms: None, hits: 0 }
    }

    /// Record a detected 429 at `now_ms`: bump the consecutive-hit count and arm the cooldown from
    /// the server `Retry-After` (or the local backoff). Returns the status line to show.
    pub fn note(&mut self, hit: RateLimitHit, now_ms: u64) -> (status: String)
        ensures
            noted(*old(self), *final(self), hit, now_ms as nat),
            status@ == rate_limit_status_spec(wait_spec(hit, final(self).hits as nat)),
            final(self).hits == (if old(self).hits == u32::MAX { u32::MAX } else { (old(self).hits + 1) as u32 }),
            ({
                let secs = match hit.retry_after { Some(s) => s as nat, None => backoff_spec(final(self).hits as nat) };
                &&& final(self).until_ms == Some(deadline(now_ms as nat, secs))
                &&& status@ == rate_limit_status_spec(secs)
            }),
    {
        self.hits = if self.hits == u32::MAX { u32::MAX } else { self.hits + 1 };
        let secs = wait_secs(hit.retry_after, self.hits);
        let ms: u64 = if secs > u64::MAX / 1000 { u64::MAX } else { secs * 1000 };
        let until = if now_ms > u64::MAX - ms { u64::MAX } else { now_ms + ms };
        assert(until == deadline(now_ms as nat, secs as nat)) by (nonlinear_arith)
            requires
                ms == (if secs > u64::MAX / 1000 { u64::MAX as int } else { secs * 1000 }),
                until == (if now_ms > u64::MAX - ms { u64::MAX as int } else { now_ms + ms }),
        ;
        self.until_ms = Some(until);
        rate_limit_status(secs)
    }

    /// If a cooldown is active at `now_ms`, the countdown status (seconds floored, but never below 1
    /// while still blocked); `None` when not blocked.
    pub fn blocked(&self, now_ms: u64) -> (status: Option<String>)
        ensures
            status is Some <==> is_blocked(*self, now_ms as nat),
            status matches Some(s) ==> s@ == rate_limit_status_spec(countdown_secs(*self, now_ms as nat)),
            status matches Some(s) ==> exists|secs: nat| secs >= 1 && s@ == rate_limit_status_spec(secs)
                && (self.until_ms matches Some(u) && secs == (if (u - now_ms) / 1000 >= 1 { ((u - now_ms) / 1000) as nat } else { 1 })),
    {
        match remaining(self.until_ms, now_ms) {
            Some(d) => {
                let secs = if d / 1000 >= 1 { d / 1000 } else { 1 };
                Some(rate_limit_status(secs))
            },
            None => None,
        }
    }

    /// End any cooldown and reset the consecutive-hit count (after a call the server accepted).
    pub fn clear(&mut self)
        ensures
            final(self).until_ms is None,
            final(self).hits == 0,
    {
        self.until_ms = None;
        self.hits = 0;
    }
}

/// A cooldown armed at `now_ms` holds calls back until its deadline and no longer; clearing it
/// lifts it at once.
pub proof fn lemma_cooldown_window(l: RateLimiter, now_ms: nat, secs: nat, later: nat)
    requires
        l.until_ms == Some(deadline(now_ms, secs)),
    ensures
        secs > 0 && later < now_ms + secs * 1000 && now_ms + secs * 1000 <= u64::MAX ==> is_blocked(l, later),
        later >= deadline(now_ms, secs) ==> !is_blocked(l, later),
        !is_blocked(RateLimiter { until_ms: None, hits: 0 }, later),
{
}


/// The cooldown countdown always reads as a warning on the status line, never as a success.
pub proof fn lemma_countdown_is_a_warning(secs: nat)
    ensures
        status_kind_spec(rate_limit_status_spec(secs)) == StatusKind::Warn,
{
    let rest = " Rate limited by Spotify — retrying in "@ + decimal(secs) + "s"@;
    assert(rate_limit_status_spec(secs) =~= theme::WARN@ + rest);
    lemma_warn_prefix_is_warning(rest);
}

/// The decimal text of `n` is digits only, with value `n`, and no whitespace at either end.
proof fn lemma_decimal_text(n: nat)
    ensures
        decimal(n).len() > 0,
        all_digits(decimal(n)),
        digits_value(decimal(n)) == n,
        !is_white(decimal(n)[0]),
        !is_white(decimal(n).last()),
        decimal(n)[0] != '+',
    decreases n,
{
    let d = decimal(n);
    if n < 10 {
        assert(d =~= seq![digit_char(n)]);
        assert(d.drop_last() =~= Seq::<char>::empty());
        assert((digit_char(n) as nat) == 48 + n);
        assert((digit_char(n) as u32) == 48 + n);
        assert(d.last() == digit_char(n));
        assert(digits_value(d) == digits_value(d.drop_last()) * 10 + ((d.last() as nat) - 48) as nat);
        assert(digits_value(d.drop_last()) == 0);
    } else {
        lemma_decimal_text(n / 10);
        let p = decimal(n / 10);
        let c = digit_char(n % 10);
        assert(d == p.push(c));
        assert(d.drop_last() =~= p);
        assert((c as nat) == 48 + n % 10);
        assert((c as u32) == 48 + n % 10);
        assert(d.last() == c);
        assert(digits_value(d) == digits_value(p) * 10 + n % 10);
        assert(digits_value(p) == n / 10);
        assert((n / 10) * 10 + n % 10 == n) by (nonlinear_arith);
        assert(digits_value(p) * 10 == (n / 10) * 10);
        assert forall|i: int| 0 <= i < d.len() implies is_digit(#[trigger] d[i]) by {
            if i < p.len() {
                assert(d[i] == p[i]);
            }
        }
        assert(d[0] == p[0]);
    }
}

/// A `Retry-After` of `n` seconds, written as plain decimal digits, is honored as it is up to
/// [`RETRY_AFTER_MAX_SECS`] and capped there beyond it.
pub proof fn lemma_retry_after_honored(n: u64)
    ensures
        n <= RETRY_AFTER_MAX_SECS ==> retry_after_spec(decimal(n as nat)) == Some(n),
        n > RETRY_AFTER_MAX_SECS ==> retry_after_spec(decimal(n as nat)) == Some(RETRY_AFTER_MAX_SECS),
{
    let d = decimal(n as nat);
    lemma_decimal_text(n as nat);
    assert(lead_ws(d) == 0);
    assert(trim_start_spec(d) =~= d);
    assert(trail_ws(d) == 0);
    assert(trim_spec(d) =~= d);
    assert(sign_stripped(d) == d);
}


} // verus!
