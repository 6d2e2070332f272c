use vstd::prelude::*;

use chrono::TimeZone;

verus! {

/// Whether every character of `s` is a decimal digit.
pub open spec fn all_digits(s: Seq<char>) -> bool {
    forall|i: int| 0 <= i < s.len() ==> '0' <= #[trigger] s[i] && s[i] <= '9'
}

/// The number the decimal digits `s` spell.
pub open spec fn digits_value(s: Seq<char>) -> int
    decreases s.len(),
{
    if s.len() == 0 {
        0
    } else {
        digits_value(s.drop_last()) * 10 + (s.last() as int - '0' as int)
    }
}

/// The signed 64-bit number `s` spells in decimal: an optional sign, then
/// at least one digit; `None` when `s` is not of that form or the number
/// does not fit.
pub open spec fn decimal_i64(s: Seq<char>) -> Option<int> {
    let neg = s.len() > 0 && s[0] == '-';
    let d = if s.len() > 0 && (s[0] == '-' || s[0] == '+') {
        s.drop_first()
    } else {
        s
    };
    let v = if neg {
        -digits_value(d)
    } else {
        digits_value(d)
    };
    if d.len() > 0 && all_digits(d) && i64::MIN <= v <= i64::MAX {
        Some(v)
    } else {
        None
    }
}

const DIGITS_CAP: u128 = 0x1_0000_0000_0000_0000;

/// Parses a signed 64-bit decimal number.
pub fn parse_i64(s: &str) -> (r: Option<i64>)
    ensures
        match r {
            Some(v) => decimal_i64(s@) == Some(v as int),
            None => decimal_i64(s@) is None,
        },
{
    let n = s.unicode_len();
    let mut start: usize = 0;
    let mut neg = false;
    if n > 0 {
        let c = s.get_char(0);
        if c == '-' || c == '+' {
            start = 1;
            neg = c == '-';
        }
    }
    let ghost d = s@.subrange(start as int, n as int);
    proof {
        if start == 1 {
            assert(d =~= s@.drop_first());
        } else {
            assert(d =~= s@);
        }
    }
    if start >= n {
        return None;
    }
    let mut acc: u128 = 0;
    let mut i: usize = start;
    while i < n
        invariant
            start <= i <= n,
            n == s@.len(),
            d == s@.subrange(start as int, n as int),
            d == (if s@.len() > 0 && (s@[0] == '-' || s@[0] == '+') {
                s@.drop_first()
            } else {
                s@
            }),
            neg == (s@.len() > 0 && s@[0] == '-'),
            all_digits(s@.subrange(start as int, i as int)),
            acc as int == if digits_value(s@.subrange(start as int, i as int)) < DIGITS_CAP {
                digits_value(s@.subrange(start as int, i as int))
            } else {
                DIGITS_CAP as int
            },
            digits_value(s@.subrange(start as int, i as int)) >= 0,
        decreases n - i,
    {
        let c = s.get_char(i);
        let ghost pre = s@.subrange(start as int, i as int);
        let ghost next = s@.subrange(start as int, i + 1);
        proof {
            assert(next.drop_last() =~= pre);
        }
        if c < '0' || c > '9' {
            proof {
                assert(d[i - start] == c);
                assert(!all_digits(d));
                assert(decimal_i64(s@) is None);
            }
            return None;
        }
        let digit = ((c as u32) - ('0' as u32)) as u128;
        if acc >= DIGITS_CAP {
            acc = DIGITS_CAP;
        } else {
            let v = acc * 10 + digit;
            acc = if v >= DIGITS_CAP {
                DIGITS_CAP
            } else {
                v
            };
        }
        proof {
            assert(all_digits(next)) by {
                assert forall|j: int| 0 <= j < next.len() implies '0' <= #[trigger] next[j]
                    && next[j] <= '9' by {
                    if j < pre.len() {
                        assert(next[j] == pre[j]);
                    }
                }
            }
        }
        i = i + 1;
    }
    proof {
        assert(s@.subrange(start as int, i as int) == d);
    }
    if neg {
        if acc > 0x8000_0000_0000_0000 {
            return None;
        }
        if acc == 0x8000_0000_0000_0000 {
            return Some(i64::MIN);
        }
        Some(-(acc as i64))
    } else {
        if acc > 0x7fff_ffff_ffff_ffff {
            return None;
        }
        Some(acc as i64)
    }
}

/// Splits microseconds since the epoch into whole seconds, rounded down,
/// and the nanoseconds within that second.
pub fn split_micros(t: i64) -> (r: (i64, u32))
    ensures
        r.0 * 1_000_000 + r.1 / 1000 == t,
        r.1 % 1000 == 0,
        r.1 < 1_000_000_000,
{
    if t >= 0 {
        let u = t as u64;
        let secs = (u / 1_000_000) as i64;
        let rem = (u % 1_000_000) as u32;
        (secs, rem * 1000)
    } else {
        let a = (-(t + 1)) as u64;
        let q = a / 1_000_000;
        let rem = (999_999 - a % 1_000_000) as u32;
        let secs = -(q as i64) - 1;
        (secs, rem * 1000)
    }
}

/// The largest number of seconds from the epoch, either way, that a
/// journal timestamp may span: far inside chrono's range of dates, so that
/// no local offset can push a time out of it.
pub const MAX_EPOCH_SECS: i64 = 8_000_000_000_000;

/// A journal timestamp, in microseconds, whose instant chrono can show in
/// any time zone.
pub open spec fn micros_in_range(t: int) -> bool {
    -(MAX_EPOCH_SECS as int) * 1_000_000 <= t <= (MAX_EPOCH_SECS as int) * 1_000_000
}

/// Relies on chrono's `Local::timestamp_opt` and
/// `DateTime::to_rfc3339_opts` with microseconds: the local time of `secs`
/// seconds and `nanos` nanoseconds after the epoch in RFC 3339.
/// `timestamp_opt` fails only for an instant out of chrono's range, and
/// `to_rfc3339_opts` panics only where the local offset pushes the time out
/// of that range; `secs` is kept far inside it. (`Local` itself stops the
/// process when the machine's time-zone data cannot be read at all.) The
/// text depends on the machine's time zone.
#[verifier::external_body]
fn local_rfc3339_micros(secs: i64, nanos: u32) -> (r: Option<String>)
    requires
        nanos < 1_000_000_000,
        -MAX_EPOCH_SECS <= secs <= MAX_EPOCH_SECS,
    ensures
        r is Some,
{
    chrono::Local.timestamp_opt(secs, nanos).single().map(
        |t| t.to_rfc3339_opts(chrono::SecondsFormat::Micros, false),
    )
}

/// The local RFC 3339 form, with microseconds, of a journal timestamp
/// given in microseconds since the epoch; `None` exactly when the instant is
/// out of range.
pub fn timestamp_of_micros(t: i64) -> (r: Option<String>)
    ensures
        r is Some <==> micros_in_range(t as int),
{
    if t < -MAX_EPOCH_SECS * 1_000_000 || t > MAX_EPOCH_SECS * 1_000_000 {
        return None;
    }
    let (secs, nanos) = split_micros(t);
    local_rfc3339_micros(secs, nanos)
}

} // verus!
