//! Session-id sanitization and the small pure helpers of the start protocol:
//! format validation, channel-count resolution and output-path derivation.
use vstd::prelude::*;

verus! {

use crate::errors::RecordingError;
use vstd::string::StringExecFns;

/// The UTF-8 bytes of a character sequence, as a `String` stores them.
pub open spec fn string_bytes(s: Seq<char>) -> Seq<u8> {
    vstd::utf8::encode_utf8(s)
}

/// The bytes a sanitized session id may contain: ASCII alphanumerics,
/// `-` and `_`.
pub open spec fn is_allowed_byte(b: u8) -> bool {
    (48 <= b <= 57) || (65 <= b <= 90) || (97 <= b <= 122) || b == 45 || b == 95
}

/// The characters a sanitized session id may contain.
pub open spec fn is_allowed_char(c: char) -> bool {
    is_allowed_byte(c as u8) && (c as u32) < 128
}

/// ASCII decimal digits.
pub open spec fn is_digit_char(c: char) -> bool {
    48 <= (c as u32) <= 57
}

/// The allowed bytes of a byte string, in order.
pub open spec fn filtered_bytes(bs: Seq<u8>) -> Seq<u8> {
    bs.filter(|b: u8| is_allowed_byte(b))
}

/// ASCII bytes read as characters.
pub open spec fn ascii_chars(bs: Seq<u8>) -> Seq<char> {
    bs.map_values(|b: u8| b as char)
}

/// The decimal digits of `n`, as ASCII bytes, most significant first.
pub open spec fn spec_decimal_digits(n: nat) -> Seq<u8>
    decreases n,
{
    if n < 10 {
        seq![(48 + n) as u8]
    } else {
        spec_decimal_digits(n / 10).push((48 + n % 10) as u8)
    }
}

/// Milliseconds since the Unix epoch, or zero when the clock precedes it.
///
/// Relies on std::time::SystemTime::now and Duration::as_millis; the value
/// depends on the clock, so nothing is promised of it.
#[verifier::external_body]
pub fn now_millis() -> i64 {
    std::time::SystemTime::now()
        .duration_since(std::time::UNIX_EPOCH)
        .map(|d| d.as_millis() as i64)
        .unwrap_or(0)
}

/// Builds a `String` from ASCII bytes.
///
/// Relies on String::from_utf8: bytes below 128 are valid UTF-8 and decode
/// one byte to one character.
#[verifier::external_body]
fn ascii_bytes_to_string(v: Vec<u8>) -> (r: String)
    requires
        forall|i: int| 0 <= i < v@.len() ==> v@[i] < 128,
    ensures
        r@ == ascii_chars(v@),
{
    String::from_utf8(v).unwrap_or_default()
}

/// Appends the decimal digits of `n` to `out`, most significant first.
fn push_decimal_digits(n: u64, out: &mut Vec<u8>)
    ensures
        final(out)@ == old(out)@ + spec_decimal_digits(n as nat),
    decreases n,
{
    if n >= 10 {
        push_decimal_digits(n / 10, out);
    }
    out.push(48 + (n % 10) as u8);
}

proof fn lemma_decimal_digits_are_digits(n: nat)
    ensures
        spec_decimal_digits(n).len() > 0,
        forall|i: int|
            0 <= i < spec_decimal_digits(n).len() ==> 48 <= #[trigger] spec_decimal_digits(
                n,
            )[i] <= 57,
    decreases n,
{
    if n >= 10 {
        lemma_decimal_digits_are_digits(n / 10);
    }
}

/// The millisecond timestamp rendered as its decimal digit string; a clock
/// value below zero renders as zero's digits.
fn timestamp_string(t: i64) -> (r: String)
    ensures
        r@ == ascii_chars(spec_decimal_digits(if t >= 0 {
            t as nat
        } else {
            0nat
        })),
        r@.len() > 0,
        forall|i: int| 0 <= i < r@.len() ==> is_digit_char(#[trigger] r@[i]),
{
    let n: u64 = if t >= 0 {
        t as u64
    } else {
        0
    };
    let mut digits: Vec<u8> = Vec::new();
    push_decimal_digits(n, &mut digits);
    proof {
        lemma_decimal_digits_are_digits(n as nat);
    }
    let r = ascii_bytes_to_string(digits);
    proof {
        assert forall|i: int| 0 <= i < r@.len() implies is_digit_char(#[trigger] r@[i]) by {
            assert(r@[i] == spec_decimal_digits(n as nat)[i] as char);
        }
    }
    r
}

/// Derives the session id from a caller-supplied one: only alphanumerics,
/// `-` and `_` are kept; when no id was supplied, or nothing is left after
/// filtering, the current millisecond timestamp's digits stand in.
pub fn sanitize_id(id: Option<String>) -> (r: String)
    ensures
        r@.len() > 0,
        forall|i: int| 0 <= i < r@.len() ==> is_allowed_char(#[trigger] r@[i]),
        match id {
            Some(s) => if filtered_bytes(string_bytes(s@)).len() > 0 {
                r@ == ascii_chars(filtered_bytes(string_bytes(s@)))
            } else {
                forall|i: int| 0 <= i < r@.len() ==> is_digit_char(#[trigger] r@[i])
            },
            None => forall|i: int| 0 <= i < r@.len() ==> is_digit_char(#[trigger] r@[i]),
        },
{
    let raw: String = match id {
        Some(s) => s,
        None => {
            return timestamp_string(now_millis());
        },
    };
    let bytes: &[u8] = raw.as_str().as_bytes();
    let mut kept: Vec<u8> = Vec::new();
    let mut i: usize = 0;
    while i < bytes.len()
        invariant
            i <= bytes@.len(),
            kept@ == filtered_bytes(bytes@.take(i as int)),
        decreases bytes@.len() - i,
    {
        proof {
            reveal(Seq::filter);
            assert(bytes@.take(i + 1).drop_last() == bytes@.take(i as int));
            assert(bytes@.take(i + 1).last() == bytes@[i as int]);
        }
        let b = bytes[i];
        if (48 <= b && b <= 57) || (65 <= b && b <= 90) || (97 <= b && b <= 122) || b == 45 || b
            == 95 {
            kept.push(b);
        }
        i += 1;
    }
    proof {
        assert(bytes@.take(bytes@.len() as int) == bytes@);
        lemma_filtered_bytes_allowed(bytes@);
    }
    if kept.len() == 0 {
        timestamp_string(now_millis())
    } else {
        let r = ascii_bytes_to_string(kept);
        proof {
            assert forall|i2: int| 0 <= i2 < r@.len() implies is_allowed_char(
                #[trigger] r@[i2],
            ) by {
                assert(r@[i2] == filtered_bytes(bytes@)[i2] as char);
                assert(is_allowed_byte(filtered_bytes(bytes@)[i2]));
            }
        }
        r
    }
}

/// An ASCII uppercase letter folded to lowercase; other bytes unchanged.
pub open spec fn ascii_lower_byte(b: u8) -> u8 {
    if 65 <= b <= 90 {
        (b + 32) as u8
    } else {
        b
    }
}

/// A byte string folded to ASCII lowercase.
pub open spec fn lowered(bs: Seq<u8>) -> Seq<u8> {
    bs.map_values(|b: u8| ascii_lower_byte(b))
}

/// Whether a requested format names the supported codec, case-insensitively:
/// its bytes folded to ASCII lowercase spell `opus`.
pub open spec fn is_supported_format(s: Seq<char>) -> bool {
    lowered(string_bytes(s)) == seq![111u8, 112u8, 117u8, 115u8]
}

fn lower_byte(b: u8) -> (r: u8)
    ensures
        r == ascii_lower_byte(b),
{
    if 65 <= b && b <= 90 {
        b + 32
    } else {
        b
    }
}

/// Accepts an absent format or one that names the supported codec,
/// case-insensitively; anything else is the invalid-format error carrying
/// the rejected name.
pub fn validate_format(format: &Option<String>) -> (r: Result<(), RecordingError>)
    ensures
        r is Ok <==> match format {
            Some(f) => is_supported_format(f@),
            None => true,
        },
        match r {
            Ok(_) => true,
            Err(e) => format matches Some(f) && e == RecordingError::InvalidFormat(*f),
        },
{
    match format {
        None => Ok(()),
        Some(f) => {
            let bs: &[u8] = f.as_str().as_bytes();
            let ok = bs.len() == 4 && lower_byte(bs[0]) == 111 && lower_byte(bs[1]) == 112
                && lower_byte(bs[2]) == 117 && lower_byte(bs[3]) == 115;
            proof {
                if ok {
                    assert(lowered(bs@) =~= seq![111u8, 112u8, 117u8, 115u8]);
                } else {
                    assert(lowered(bs@).len() == bs@.len());
                    if bs@.len() == 4 {
                        assert(lowered(bs@)[0] == ascii_lower_byte(bs@[0]));
                        assert(lowered(bs@)[1] == ascii_lower_byte(bs@[1]));
                        assert(lowered(bs@)[2] == ascii_lower_byte(bs@[2]));
                        assert(lowered(bs@)[3] == ascii_lower_byte(bs@[3]));
                    }
                }
            }
            if ok {
                Ok(())
            } else {
                Err(RecordingError::InvalidFormat(f.clone()))
            }
        },
    }
}

/// The channel count a session encodes with: an explicit request of one or
/// two channels wins; anything else falls back to what the capture source
/// reports.
pub fn effective_channels(requested: Option<u32>, capture_channels: u32) -> (r: u32)
    ensures
        r == spec_effective_channels(requested, capture_channels),
{
    match requested {
        Some(1) => 1,
        Some(2) => 2,
        _ => capture_channels,
    }
}

/// What `effective_channels` returns.
pub open spec fn spec_effective_channels(requested: Option<u32>, capture_channels: u32) -> u32 {
    match requested {
        Some(c) => if c == 1 || c == 2 {
            c
        } else {
            capture_channels
        },
        None => capture_channels,
    }
}

/// The output file path of a session: `<dir>/<id>.opus`.
pub fn output_file_name(dir: &String, id: &String) -> (r: String)
    ensures
        r@ == dir@ + "/"@ + id@ + ".opus"@,
{
    let mut p = dir.clone();
    p.append("/");
    p.append(id.as_str());
    p.append(".opus");
    p
}

/// Every byte a filter keeps satisfies the filter's test.
proof fn lemma_filtered_bytes_allowed(bs: Seq<u8>)
    ensures
        forall|i: int|
            0 <= i < filtered_bytes(bs).len() ==> is_allowed_byte(#[trigger] filtered_bytes(bs)[i]),
{
    reveal(Seq::filter);
    broadcast use vstd::seq_lib::group_filter_ensures;
}

} // verus!
