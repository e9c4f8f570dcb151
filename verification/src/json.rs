//! Canonical JSON building blocks on byte sequences.
//!
//! The gateway signs the canonical serialization of a record, so the byte
//! form must be fixed and reproducible: object keys in declaration order,
//! no whitespace, strings escaped exactly as below.

use vstd::prelude::*;

verus! {

/// Lower-case hexadecimal digit for a value below 16.
pub open spec fn hex_digit(d: u8) -> u8 {
    if d < 10 {
        (48 + d) as u8
    } else {
        (87 + d) as u8
    }
}

/// How one byte of string content appears inside a JSON string literal:
/// quote and backslash get a backslash escape, the control bytes with
/// short escapes use them, the remaining control bytes become `\u00XX`
/// with lower-case hex, and every other byte stands as itself.
pub open spec fn escape_byte(b: u8) -> Seq<u8> {
    if b == 34 {
        seq![92u8, 34u8]
    } else if b == 92 {
        seq![92u8, 92u8]
    } else if b == 8 {
        seq![92u8, 98u8]
    } else if b == 9 {
        seq![92u8, 116u8]
    } else if b == 10 {
        seq![92u8, 110u8]
    } else if b == 12 {
        seq![92u8, 102u8]
    } else if b == 13 {
        seq![92u8, 114u8]
    } else if b < 32 {
        seq![92u8, 117u8, 48u8, 48u8, hex_digit(b / 16), hex_digit(b % 16)]
    } else {
        seq![b]
    }
}

/// The escaped form of a whole byte string.
pub open spec fn escaped(s: Seq<u8>) -> Seq<u8>
    decreases s.len(),
{
    if s.len() == 0 {
        Seq::empty()
    } else {
        escaped(s.drop_last()) + escape_byte(s.last())
    }
}

/// A JSON string literal: the escaped content between double quotes.
pub open spec fn quoted(s: Seq<u8>) -> Seq<u8> {
    seq![34u8] + escaped(s) + seq![34u8]
}

/// Decimal digits of `n`, most significant first.
pub open spec fn dec_digits(n: u64) -> Seq<u8>
    decreases n,
{
    if n < 10 {
        seq![(48 + n) as u8]
    } else {
        dec_digits(n / 10) + seq![(48 + (n % 10)) as u8]
    }
}

/// Appends every byte of `src` to `out`.
pub fn push_all(out: &mut Vec<u8>, src: &Vec<u8>)
    ensures
        final(out)@ == old(out)@ + src@,
{
    let mut i: usize = 0;
    while i < src.len()
        invariant
            i <= src.len(),
            out@ == old(out)@ + src@.take(i as int),
        decreases src.len() - i,
    {
        out.push(src[i]);
        proof {
            assert(src@.take(i + 1) =~= src@.take(i as int).push(src@[i as int]));
            assert(out@ =~= old(out)@ + src@.take(i + 1));
        }
        i += 1;
    }
    proof {
        assert(src@.take(src@.len() as int) =~= src@);
    }
}

/// Appends the escaped form of the single byte `b` to `out`.
pub fn push_escaped_byte(out: &mut Vec<u8>, b: u8)
    ensures
        final(out)@ == old(out)@ + escape_byte(b),
{
    if b == 34 {
        out.push(92);
        out.push(34);
    } else if b == 92 {
        out.push(92);
        out.push(92);
    } else if b == 8 {
        out.push(92);
        out.push(98);
    } else if b == 9 {
        out.push(92);
        out.push(116);
    } else if b == 10 {
        out.push(92);
        out.push(110);
    } else if b == 12 {
        out.push(92);
        out.push(102);
    } else if b == 13 {
        out.push(92);
        out.push(114);
    } else if b < 32 {
        out.push(92);
        out.push(117);
        out.push(48);
        out.push(48);
        let hi = b / 16;
        let lo = b % 16;
        out.push(if hi < 10 { 48 + hi } else { 87 + hi });
        out.push(if lo < 10 { 48 + lo } else { 87 + lo });
    } else {
        out.push(b);
    }
    assert(out@ =~= old(out)@ + escape_byte(b));
}

/// Appends the escaped form of `s` to `out`.
pub fn push_escaped(out: &mut Vec<u8>, s: &Vec<u8>)
    ensures
        final(out)@ == old(out)@ + escaped(s@),
{
    let mut i: usize = 0;
    while i < s.len()
        invariant
            i <= s.len(),
            out@ == old(out)@ + escaped(s@.take(i as int)),
        decreases s.len() - i,
    {
        push_escaped_byte(out, s[i]);
        proof {
            assert(s@.take(i + 1).drop_last() =~= s@.take(i as int));
            assert(s@.take(i + 1).last() == s@[i as int]);
            assert(out@ =~= old(out)@ + escaped(s@.take(i + 1)));
        }
        i += 1;
    }
    proof {
        assert(s@.take(s@.len() as int) =~= s@);
    }
}

/// Appends the JSON string literal for `s` to `out`.
pub fn push_quoted(out: &mut Vec<u8>, s: &Vec<u8>)
    ensures
        final(out)@ == old(out)@ + quoted(s@),
{
    out.push(34);
    push_escaped(out, s);
    out.push(34);
    assert(out@ =~= old(out)@ + quoted(s@));
}

/// Appends the decimal representation of `n` to `out`.
pub fn push_u64(out: &mut Vec<u8>, n: u64)
    ensures
        final(out)@ == old(out)@ + dec_digits(n),
    decreases n,
{
    if n < 10 {
        out.push(48 + (n as u8));
        assert(out@ =~= old(out)@ + dec_digits(n));
    } else {
        push_u64(out, n / 10);
        out.push(48 + ((n % 10) as u8));
        assert(out@ =~= old(out)@ + dec_digits(n));
    }
}

/// The bytes of `{"version":`.
pub open spec fn key_version() -> Seq<u8> {
    seq![123u8, 34u8, 118u8, 101u8, 114u8, 115u8, 105u8, 111u8, 110u8, 34u8, 58u8]
}

/// Appends `key_version()` to `out`.
pub fn push_key_version(out: &mut Vec<u8>)
    ensures
        final(out)@ == old(out)@ + key_version(),
{
    out.push(123);
    out.push(34);
    out.push(118);
    out.push(101);
    out.push(114);
    out.push(115);
    out.push(105);
    out.push(111);
    out.push(110);
    out.push(34);
    out.push(58);
    assert(out@ =~= old(out)@ + key_version());
}

/// The bytes of `,"msg_type":`.
pub open spec fn key_msg_type() -> Seq<u8> {
    seq![44u8, 34u8, 109u8, 115u8, 103u8, 95u8, 116u8, 121u8, 112u8, 101u8, 34u8, 58u8]
}

/// Appends `key_msg_type()` to `out`.
pub fn push_key_msg_type(out: &mut Vec<u8>)
    ensures
        final(out)@ == old(out)@ + key_msg_type(),
{
    out.push(44);
    out.push(34);
    out.push(109);
    out.push(115);
    out.push(103);
    out.push(95);
    out.push(116);
    out.push(121);
    out.push(112);
    out.push(101);
    out.push(34);
    out.push(58);
    assert(out@ =~= old(out)@ + key_msg_type());
}

/// The bytes of `,"device_id":`.
pub open spec fn key_device_id() -> Seq<u8> {
    seq![44u8, 34u8, 100u8, 101u8, 118u8, 105u8, 99u8, 101u8, 95u8, 105u8, 100u8, 34u8, 58u8]
}

/// Appends `key_device_id()` to `out`.
pub fn push_key_device_id(out: &mut Vec<u8>)
    ensures
        final(out)@ == old(out)@ + key_device_id(),
{
    out.push(44);
    out.push(34);
    out.push(100);
    out.push(101);
    out.push(118);
    out.push(105);
    out.push(99);
    out.push(101);
    out.push(95);
    out.push(105);
    out.push(100);
    out.push(34);
    out.push(58);
    assert(out@ =~= old(out)@ + key_device_id());
}

/// The bytes of `,"site_id":`.
pub open spec fn key_site_id() -> Seq<u8> {
    seq![44u8, 34u8, 115u8, 105u8, 116u8, 101u8, 95u8, 105u8, 100u8, 34u8, 58u8]
}

/// Appends `key_site_id()` to `out`.
pub fn push_key_site_id(out: &mut Vec<u8>)
    ensures
        final(out)@ == old(out)@ + key_site_id(),
{
    out.push(44);
    out.push(34);
    out.push(115);
    out.push(105);
    out.push(116);
    out.push(101);
    out.push(95);
    out.push(105);
    out.push(100);
    out.push(34);
    out.push(58);
    assert(out@ =~= old(out)@ + key_site_id());
}

/// The bytes of `,"sent_at":`.
pub open spec fn key_sent_at() -> Seq<u8> {
    seq![44u8, 34u8, 115u8, 101u8, 110u8, 116u8, 95u8, 97u8, 116u8, 34u8, 58u8]
}

/// Appends `key_sent_at()` to `out`.
pub fn push_key_sent_at(out: &mut Vec<u8>)
    ensures
        final(out)@ == old(out)@ + key_sent_at(),
{
    out.push(44);
    out.push(34);
    out.push(115);
    out.push(101);
    out.push(110);
    out.push(116);
    out.push(95);
    out.push(97);
    out.push(116);
    out.push(34);
    out.push(58);
    assert(out@ =~= old(out)@ + key_sent_at());
}

/// The bytes of `,"seq":`.
pub open spec fn key_seq() -> Seq<u8> {
    seq![44u8, 34u8, 115u8, 101u8, 113u8, 34u8, 58u8]
}

/// Appends `key_seq()` to `out`.
pub fn push_key_seq(out: &mut Vec<u8>)
    ensures
        final(out)@ == old(out)@ + key_seq(),
{
    out.push(44);
    out.push(34);
    out.push(115);
    out.push(101);
    out.push(113);
    out.push(34);
    out.push(58);
    assert(out@ =~= old(out)@ + key_seq());
}

/// The bytes of `,"measurements":[`.
pub open spec fn key_measurements() -> Seq<u8> {
    seq![44u8, 34u8, 109u8, 101u8, 97u8, 115u8, 117u8, 114u8, 101u8, 109u8, 101u8, 110u8, 116u8, 115u8, 34u8, 58u8, 91u8]
}

/// Appends `key_measurements()` to `out`.
pub fn push_key_measurements(out: &mut Vec<u8>)
    ensures
        final(out)@ == old(out)@ + key_measurements(),
{
    out.push(44);
    out.push(34);
    out.push(109);
    out.push(101);
    out.push(97);
    out.push(115);
    out.push(117);
    out.push(114);
    out.push(101);
    out.push(109);
    out.push(101);
    out.push(110);
    out.push(116);
    out.push(115);
    out.push(34);
    out.push(58);
    out.push(91);
    assert(out@ =~= old(out)@ + key_measurements());
}

/// The bytes of `{"parameter":`.
pub open spec fn key_parameter() -> Seq<u8> {
    seq![123u8, 34u8, 112u8, 97u8, 114u8, 97u8, 109u8, 101u8, 116u8, 101u8, 114u8, 34u8, 58u8]
}

/// Appends `key_parameter()` to `out`.
pub fn push_key_parameter(out: &mut Vec<u8>)
    ensures
        final(out)@ == old(out)@ + key_parameter(),
{
    out.push(123);
    out.push(34);
    out.push(112);
    out.push(97);
    out.push(114);
    out.push(97);
    out.push(109);
    out.push(101);
    out.push(116);
    out.push(101);
    out.push(114);
    out.push(34);
    out.push(58);
    assert(out@ =~= old(out)@ + key_parameter());
}

/// The bytes of `,"value":`.
pub open spec fn key_value() -> Seq<u8> {
    seq![44u8, 34u8, 118u8, 97u8, 108u8, 117u8, 101u8, 34u8, 58u8]
}

/// Appends `key_value()` to `out`.
pub fn push_key_value(out: &mut Vec<u8>)
    ensures
        final(out)@ == old(out)@ + key_value(),
{
    out.push(44);
    out.push(34);
    out.push(118);
    out.push(97);
    out.push(108);
    out.push(117);
    out.push(101);
    out.push(34);
    out.push(58);
    assert(out@ =~= old(out)@ + key_value());
}

/// The bytes of `,"unit":`.
pub open spec fn key_unit() -> Seq<u8> {
    seq![44u8, 34u8, 117u8, 110u8, 105u8, 116u8, 34u8, 58u8]
}

/// Appends `key_unit()` to `out`.
pub fn push_key_unit(out: &mut Vec<u8>)
    ensures
        final(out)@ == old(out)@ + key_unit(),
{
    out.push(44);
    out.push(34);
    out.push(117);
    out.push(110);
    out.push(105);
    out.push(116);
    out.push(34);
    out.push(58);
    assert(out@ =~= old(out)@ + key_unit());
}

/// The bytes of `{"payload":`.
pub open spec fn key_payload() -> Seq<u8> {
    seq![123u8, 34u8, 112u8, 97u8, 121u8, 108u8, 111u8, 97u8, 100u8, 34u8, 58u8]
}

/// Appends `key_payload()` to `out`.
pub fn push_key_payload(out: &mut Vec<u8>)
    ensures
        final(out)@ == old(out)@ + key_payload(),
{
    out.push(123);
    out.push(34);
    out.push(112);
    out.push(97);
    out.push(121);
    out.push(108);
    out.push(111);
    out.push(97);
    out.push(100);
    out.push(34);
    out.push(58);
    assert(out@ =~= old(out)@ + key_payload());
}

/// The bytes of `,"signature":`.
pub open spec fn key_signature() -> Seq<u8> {
    seq![44u8, 34u8, 115u8, 105u8, 103u8, 110u8, 97u8, 116u8, 117u8, 114u8, 101u8, 34u8, 58u8]
}

/// Appends `key_signature()` to `out`.
pub fn push_key_signature(out: &mut Vec<u8>)
    ensures
        final(out)@ == old(out)@ + key_signature(),
{
    out.push(44);
    out.push(34);
    out.push(115);
    out.push(105);
    out.push(103);
    out.push(110);
    out.push(97);
    out.push(116);
    out.push(117);
    out.push(114);
    out.push(101);
    out.push(34);
    out.push(58);
    assert(out@ =~= old(out)@ + key_signature());
}

} // verus!
