//! Telemetry samples and their wire encoding.
//!
//! The sensor reports temperature and humidity as tenths-of-a-unit integers.
//! The published payload carries them in physical units (°C, %RH) with one
//! fractional digit, inside a small fixed JSON object, so a reading of 149
//! tenths goes out as `14.9`. The encoder is written here over bytes and
//! proved against [`payload_spec`]; no serializer is taken on trust.

use vstd::prelude::*;

verus! {

/// ASCII `{`.
pub const LBRACE: u8 = 123;

/// ASCII `}`.
pub const RBRACE: u8 = 125;

/// ASCII `"`.
pub const QUOTE: u8 = 34;

/// ASCII `:`.
pub const COLON: u8 = 58;

/// ASCII `,`.
pub const COMMA: u8 = 44;

/// ASCII `-`.
pub const MINUS: u8 = 45;

/// ASCII `.`.
pub const DOT: u8 = 46;

/// ASCII `d`.
pub const KEY_D: u8 = 100;

/// ASCII `t`.
pub const KEY_T: u8 = 116;

/// ASCII `h`.
pub const KEY_H: u8 = 104;

/// One sensor reading, produced once per sampling period, published once,
/// then discarded: a dropped sample is acceptable and is never retried.
#[derive(Clone, Copy, PartialEq, Eq, Structural, Debug)]
pub struct TelemetrySample {
    /// Temperature in tenths of a degree Celsius, as the driver reports it.
    pub temperature_tenths: i16,
    /// Relative humidity in tenths of a percent, as the driver reports it.
    pub humidity_tenths: u16,
    /// Optional sequence counter; encoded as 0 when absent.
    pub seq: Option<u32>,
}

/// The decimal digits of `n`, most significant first, no sign and no
/// leading zero except for `n == 0` itself.
pub open spec fn dec_digits(n: nat) -> Seq<u8>
    decreases n,
{
    if n < 10 {
        seq![(48 + n) as u8]
    } else {
        dec_digits(n / 10).push((48 + n % 10) as u8)
    }
}

/// A tenths-of-a-unit integer rendered in physical units: optional minus
/// sign, whole part, decimal point, exactly one fractional digit.
pub open spec fn tenths_digits(v: int) -> Seq<u8> {
    let a = if v < 0 { -v } else { v };
    let sign: Seq<u8> = if v < 0 { seq![MINUS] } else { Seq::empty() };
    sign + dec_digits((a / 10) as nat) + seq![DOT] + dec_digits((a % 10) as nat)
}

/// The value the `d` field carries: the sequence counter, or 0 when none
/// was assigned.
pub open spec fn counter_value(s: TelemetrySample) -> u32 {
    match s.seq {
        Some(n) => n,
        None => 0,
    }
}

/// The bytes published for a sample: a JSON object with short keys,
/// `{"d":<counter>,"t":<temperature>,"h":<humidity>}`, the two readings in
/// physical units with one fractional digit.
pub open spec fn payload_spec(s: TelemetrySample) -> Seq<u8> {
    seq![LBRACE, QUOTE, KEY_D, QUOTE, COLON] + dec_digits(counter_value(s) as nat)
        + seq![COMMA, QUOTE, KEY_T, QUOTE, COLON] + tenths_digits(s.temperature_tenths as int)
        + seq![COMMA, QUOTE, KEY_H, QUOTE, COLON] + tenths_digits(s.humidity_tenths as int)
        + seq![RBRACE]
}

/// Appends the decimal digits of `n`.
fn push_decimal(out: &mut Vec<u8>, n: u32)
    ensures
        final(out)@ == old(out)@ + dec_digits(n as nat),
    decreases n,
{
    if n >= 10 {
        push_decimal(out, n / 10);
    }
    out.push(48 + (n % 10) as u8);
    proof {
        assert(final(out)@ =~= old(out)@ + dec_digits(n as nat));
    }
}

/// Appends a tenths-of-a-unit integer in physical units, one fractional
/// digit.
fn push_tenths(out: &mut Vec<u8>, tenths: i32)
    requires
        -32768 <= tenths <= 65535,
    ensures
        final(out)@ == old(out)@ + tenths_digits(tenths as int),
{
    let a: u32 = if tenths < 0 {
        out.push(MINUS);
        (-tenths) as u32
    } else {
        tenths as u32
    };
    push_decimal(out, a / 10);
    out.push(DOT);
    push_decimal(out, a % 10);
    proof {
        assert(final(out)@ =~= old(out)@ + tenths_digits(tenths as int));
    }
}

impl TelemetrySample {
    /// A fresh sample from a driver reading and an optional sequence
    /// counter.
    pub fn new(temperature_tenths: i16, humidity_tenths: u16, seq: Option<u32>) -> (s:
        TelemetrySample)
        ensures
            s.temperature_tenths == temperature_tenths,
            s.humidity_tenths == humidity_tenths,
            s.seq == seq,
    {
        TelemetrySample { temperature_tenths, humidity_tenths, seq }
    }

    /// Serializes the sample to the exact bytes of [`payload_spec`]: the
    /// tenths integers leave divided by ten, with one fractional digit.
    pub fn encode(&self) -> (r: Vec<u8>)
        ensures
            r@ == payload_spec(*self),
    {
        let mut out: Vec<u8> = Vec::new();
        out.push(LBRACE);
        out.push(QUOTE);
        out.push(KEY_D);
        out.push(QUOTE);
        out.push(COLON);
        let d: u32 = match self.seq {
            Some(n) => n,
            None => 0,
        };
        push_decimal(&mut out, d);
        out.push(COMMA);
        out.push(QUOTE);
        out.push(KEY_T);
        out.push(QUOTE);
        out.push(COLON);
        push_tenths(&mut out, self.temperature_tenths as i32);
        out.push(COMMA);
        out.push(QUOTE);
        out.push(KEY_H);
        out.push(QUOTE);
        out.push(COLON);
        push_tenths(&mut out, self.humidity_tenths as i32);
        out.push(RBRACE);
        proof {
            assert(out@ =~= payload_spec(*self));
        }
        out
    }
}

} // verus!
