use vstd::prelude::*;
use crate::date::{timestamp_text_of, utc_representable, LocalTime, Timestamp};
use crate::error::Error;
use crate::number::Number;
use crate::text::{decimal, decimal_i64, decimal_u64, signed_decimal};

verus! {

/// Microseconds in a second.
pub const MICROS_PER_SEC: u64 = 1_000_000;

/// The whole seconds in `v` microseconds, rounded down: the instant lies
/// in that second, also before the epoch.
pub open spec fn micros_secs(v: int) -> int {
    v / 1_000_000
}

/// The nanoseconds of `v` microseconds within the second of
/// [`micros_secs`]: from 0 to 999 999 000.
pub open spec fn micros_nanos(v: int) -> u32 {
    ((v % 1_000_000) * 1000) as u32
}

/// The text of a failed timestamp lookup.
pub open spec fn lookup_failure(me: LocalTime, ts: Seq<char>) -> Seq<char> {
    match me {
        LocalTime::Ambiguous(a, b) => "value is an ambiguous timestamp: "@ + ts
            + ", could be either of "@ + timestamp_text_of(a.spec_secs(), a.spec_nanos()) + ", "@
            + timestamp_text_of(b.spec_secs(), b.spec_nanos()),
        _ => "value is not a legal timestamp: "@ + ts,
    }
}

/// The instant of a time-zone lookup, or an error that names the looked-up
/// value `ts` when there is no instant or more than one.
pub fn chrono_from(me: LocalTime, ts: &str) -> (r: Result<Timestamp, Error>)
    ensures
        match me {
            LocalTime::Single(t) => r == Ok::<Timestamp, Error>(t),
            _ => r matches Err(Error::ResponseDataFailure(m)) && m@ == lookup_failure(me, ts@),
        },
{
    match me {
        LocalTime::Missing => {
            let mut m = "value is not a legal timestamp: ".to_owned();
            m.append(ts);
            Err(Error::ResponseDataFailure(m))
        },
        LocalTime::Ambiguous(a, b) => {
            let mut m = "value is an ambiguous timestamp: ".to_owned();
            m.append(ts);
            m.append(", could be either of ");
            m.append(a.to_text().as_str());
            m.append(", ");
            m.append(b.to_text().as_str());
            Err(Error::ResponseDataFailure(m))
        },
        LocalTime::Single(t) => Ok(t),
    }
}

/// The instant `value` microseconds after the epoch (before it, for a
/// negative `value`), or an error naming `value` where there is none.
pub fn visit_i64(value: i64) -> (r: Result<Timestamp, Error>)
    ensures
        utc_representable(micros_secs(value as int) as i64, micros_nanos(value as int)) ==> (r matches Ok(t)
            && t.spec_secs() == micros_secs(value as int) && t.spec_nanos() == micros_nanos(value as int)),
        !utc_representable(micros_secs(value as int) as i64, micros_nanos(value as int)) ==> (r matches Err(
            Error::ResponseDataFailure(m),
        ) && m@ == "value is not a legal timestamp: "@ + signed_decimal(value as int)),
{
    let (secs, nanos): (i64, u32) = if value >= 0 {
        let v = value as u64;
        ((v / MICROS_PER_SEC) as i64, ((v % MICROS_PER_SEC) * 1000) as u32)
    } else {
        let magnitude: u64 = if value == i64::MIN {
            9_223_372_036_854_775_808u64
        } else {
            (-value) as u64
        };
        let q = magnitude / MICROS_PER_SEC;
        let rem = magnitude % MICROS_PER_SEC;
        proof {
            vstd::arithmetic::div_mod::lemma_fundamental_div_mod(magnitude as int, 1_000_000);
            assert(magnitude as int == q * 1_000_000 + rem);
            assert(q <= 9_223_372_036_854) by (nonlinear_arith)
                requires
                    magnitude as int == q * 1_000_000 + rem,
                    rem >= 0,
                    magnitude <= 9_223_372_036_854_775_808u64,
            ;
        }
        if rem == 0 {
            proof {
                vstd::arithmetic::div_mod::lemma_fundamental_div_mod_converse(value as int, 1_000_000, -(q as int), 0);
            }
            (-(q as i64), 0)
        } else {
            proof {
                assert(value as int == (-(q as int) - 1) * 1_000_000 + (1_000_000 - rem)) by (nonlinear_arith)
                    requires
                        magnitude as int == q * 1_000_000 + rem,
                        value as int == -(magnitude as int),
                ;
                vstd::arithmetic::div_mod::lemma_fundamental_div_mod_converse(
                    value as int,
                    1_000_000,
                    -(q as int) - 1,
                    1_000_000 - rem,
                );
            }
            (-(q as i64) - 1, ((MICROS_PER_SEC - rem) * 1000) as u32)
        }
    };
    let text = decimal_i64(value);
    chrono_from(Timestamp::from_unix(secs, nanos), text.as_str())
}

/// The instant `value` microseconds after the epoch, or an error naming
/// `value` where there is none.
pub fn visit_u64(value: u64) -> (r: Result<Timestamp, Error>)
    ensures
        utc_representable(micros_secs(value as int) as i64, micros_nanos(value as int)) ==> (r matches Ok(t)
            && t.spec_secs() == micros_secs(value as int) && t.spec_nanos() == micros_nanos(value as int)),
        !utc_representable(micros_secs(value as int) as i64, micros_nanos(value as int)) ==> (r matches Err(
            Error::ResponseDataFailure(m),
        ) && m@ == "value is not a legal timestamp: "@ + decimal(value as nat)),
{
    let secs = (value / MICROS_PER_SEC) as i64;
    let nanos = ((value % MICROS_PER_SEC) * 1000) as u32;
    let text = decimal_u64(value);
    chrono_from(Timestamp::from_unix(secs, nanos), text.as_str())
}

/// Whether a microsecond count, unsigned or signed, has an instant.
pub open spec fn micros_representable(n: Number) -> bool {
    match n {
        Number::UInt(u) => utc_representable(micros_secs(u as int) as i64, micros_nanos(u as int)),
        Number::Int(i) => utc_representable(micros_secs(i as int) as i64, micros_nanos(i as int)),
        _ => false,
    }
}

/// The count of microseconds of a whole number.
pub open spec fn micros_count(n: Number) -> int {
    match n {
        Number::UInt(u) => u as int,
        Number::Int(i) => i as int,
        _ => 0,
    }
}

/// The instant of a microsecond count: an unsigned or a signed integer.
pub fn deserialize(n: Number) -> (r: Result<Timestamp, Error>)
    ensures
        micros_representable(n) ==> (r matches Ok(t) && t.spec_secs() == micros_secs(micros_count(n))
            && t.spec_nanos() == micros_nanos(micros_count(n))),
        !micros_representable(n) ==> (r matches Err(Error::ResponseDataFailure(_))),
{
    match n {
        Number::UInt(u) => visit_u64(u),
        Number::Int(i) => visit_i64(i),
        _ => Err(Error::ResponseDataFailure("a unix timestamp in microseconds".to_owned())),
    }
}
} // verus!
