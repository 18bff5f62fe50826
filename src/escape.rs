use vstd::prelude::*;
use vstd::string::StringSliceAdditionalSpecFns;
use vstd::utf8::{encode_scalar, encode_utf8};

use crate::config::Config;
use crate::error::ViuError;

verus! {

/// The decimal digits of `n`, in ASCII, without leading zeros.
pub open spec fn decimal(n: nat) -> Seq<u8>
    decreases n,
{
    if n < 10 {
        seq![(48 + n) as u8]
    } else {
        decimal(n / 10).push((48 + n % 10) as u8)
    }
}

/// Appends the decimal digits of `n` to `out`.
pub fn push_decimal(out: &mut Vec<u8>, n: u64)
    ensures
        final(out)@ == old(out)@ + decimal(n as nat),
    decreases n,
{
    if n >= 10 {
        push_decimal(out, n / 10);
    }
    let digit = (n % 10) as u8;
    out.push(48 + digit);
    proof {
        if n >= 10 {
            assert(out@ =~= old(out)@ + decimal(n as nat));
        } else {
            assert(out@ =~= old(out)@ + decimal(n as nat));
        }
    }
}

/// Appends the bytes of `s` to `out`.
pub fn push_str(out: &mut Vec<u8>, s: &str)
    ensures
        final(out)@ == old(out)@ + s.spec_bytes(),
{
    out.extend_from_slice(s.as_bytes());
    assert(out@ =~= old(out)@ + s.spec_bytes());
}

/// The sequence that moves the cursor to column `x`, row `y`, both counted from zero.
pub open spec fn move_to_bytes(x: nat, y: nat) -> Seq<u8> {
    "\x1b[".spec_bytes() + decimal(y + 1) + ";".spec_bytes() + decimal(x + 1) + "H".spec_bytes()
}

/// The sequence that moves the cursor up `n` rows.
pub open spec fn move_up_bytes(n: nat) -> Seq<u8> {
    "\x1b[".spec_bytes() + decimal(n) + "A".spec_bytes()
}

/// The sequence that moves the cursor right `n` columns.
pub open spec fn move_right_bytes(n: nat) -> Seq<u8> {
    "\x1b[".spec_bytes() + decimal(n) + "C".spec_bytes()
}

/// `n` line feeds.
pub open spec fn newlines(n: nat) -> Seq<u8> {
    Seq::new(n, |i: int| 10u8)
}

/// Appends the sequence that moves the cursor to column `x`, row `y`.
pub fn push_move_to(out: &mut Vec<u8>, x: u16, y: u16)
    ensures
        final(out)@ == old(out)@ + move_to_bytes(x as nat, y as nat),
{
    push_str(out, "\x1b[");
    push_decimal(out, y as u64 + 1);
    push_str(out, ";");
    push_decimal(out, x as u64 + 1);
    push_str(out, "H");
    assert(out@ =~= old(out)@ + move_to_bytes(x as nat, y as nat));
}

/// Appends the sequence that moves the cursor up `n` rows.
pub fn push_move_up(out: &mut Vec<u8>, n: u16)
    ensures
        final(out)@ == old(out)@ + move_up_bytes(n as nat),
{
    push_str(out, "\x1b[");
    push_decimal(out, n as u64);
    push_str(out, "A");
    assert(out@ =~= old(out)@ + move_up_bytes(n as nat));
}

/// Appends the sequence that moves the cursor right `n` columns.
pub fn push_move_right(out: &mut Vec<u8>, n: u16)
    ensures
        final(out)@ == old(out)@ + move_right_bytes(n as nat),
{
    push_str(out, "\x1b[");
    push_decimal(out, n as u64);
    push_str(out, "C");
    assert(out@ =~= old(out)@ + move_right_bytes(n as nat));
}

/// A configuration that can be honoured: a negative vertical offset is only meaningful
/// relative to the cursor.
pub open spec fn offset_valid(config: Config) -> bool {
    !(config.absolute_offset && config.y < 0)
}

/// Whether the configuration's offset can be honoured; see `offset_valid`.
pub fn offset_is_valid(config: &Config) -> (r: bool)
    ensures
        r == offset_valid(*config),
{
    !(config.absolute_offset && config.y < 0)
}

/// What positions the cursor before an image is printed.
///
/// With an absolute offset the cursor moves to (`x`, `y`). Otherwise it moves up `-y` rows
/// when `y` is negative, or prints `y` line feeds (so that the screen scrolls when needed),
/// and then moves right `x` columns.
pub open spec fn offset_bytes(config: Config) -> Seq<u8> {
    if config.absolute_offset {
        move_to_bytes(config.x as nat, config.y as nat)
    } else {
        (if config.y < 0 {
            move_up_bytes((-config.y) as nat)
        } else {
            newlines(config.y as nat)
        }) + (if config.x > 0 {
            move_right_bytes(config.x as nat)
        } else {
            Seq::empty()
        })
    }
}

/// Positions the cursor where the image is to be printed; see `offset_bytes`.
///
/// A negative `y` together with `absolute_offset` is an invalid configuration: it is reported
/// before anything is written.
pub fn adjust_offset(out: &mut Vec<u8>, config: &Config) -> (r: Result<(), ViuError>)
    ensures
        r is Ok <==> offset_valid(*config),
        r is Ok ==> final(out)@ == old(out)@ + offset_bytes(*config),
        r is Err ==> r->Err_0 is InvalidConfiguration && final(out)@ == old(out)@,
{
    if config.absolute_offset {
        if config.y >= 0 {
            push_move_to(out, config.x, config.y as u16);
            Ok(())
        } else {
            Err(
                ViuError::InvalidConfiguration(
                    "absolute_offset is true but y offset is negative".to_owned(),
                ),
            )
        }
    } else {
        if config.y < 0 {
            let up = (0 - (config.y as i32)) as u16;
            push_move_up(out, up);
        } else {
            let n = config.y as u16;
            let mut i: u16 = 0;
            while i < n
                invariant
                    i <= n,
                    out@ == old(out)@ + newlines(i as nat),
                decreases n - i,
            {
                out.push(10);
                i = i + 1;
                assert(out@ =~= old(out)@ + newlines(i as nat));
            }
        }
        if config.x > 0 {
            push_move_right(out, config.x);
        }
        assert(out@ =~= old(out)@ + offset_bytes(*config));
        Ok(())
    }
}

/// The character of the standard base64 alphabet for the six bits `v`.
pub open spec fn base64_digit(v: int) -> u8 {
    if v < 26 {
        (65 + v) as u8
    } else if v < 52 {
        (97 + v - 26) as u8
    } else if v < 62 {
        (48 + v - 52) as u8
    } else if v == 62 {
        43
    } else {
        47
    }
}

/// The padded standard base64 encoding of `bytes`: four characters for each group of three
/// bytes, the last group padded with `=`.
pub open spec fn base64_of(bytes: Seq<u8>) -> Seq<u8>
    decreases bytes.len(),
{
    if bytes.len() == 0 {
        Seq::empty()
    } else if bytes.len() == 1 {
        let b0 = bytes[0] as int;
        seq![base64_digit(b0 / 4), base64_digit((b0 % 4) * 16), 61u8, 61u8]
    } else if bytes.len() == 2 {
        let b0 = bytes[0] as int;
        let b1 = bytes[1] as int;
        seq![
            base64_digit(b0 / 4),
            base64_digit((b0 % 4) * 16 + b1 / 16),
            base64_digit((b1 % 16) * 4),
            61u8,
        ]
    } else {
        let b0 = bytes[0] as int;
        let b1 = bytes[1] as int;
        let b2 = bytes[2] as int;
        seq![
            base64_digit(b0 / 4),
            base64_digit((b0 % 4) * 16 + b1 / 16),
            base64_digit((b1 % 16) * 4 + b2 / 64),
            base64_digit(b2 % 64),
        ] + base64_of(bytes.skip(3))
    }
}

/// Relies on `base64::engine::general_purpose::STANDARD.encode`: the padded standard
/// encoding, four characters for every started group of three bytes.
#[verifier::external_body]
pub(crate) fn base64_encode(bytes: &[u8]) -> (r: Vec<u8>)
    requires
        bytes@.len() <= isize::MAX,
    ensures
        r@ == base64_of(bytes@),
        r@.len() == 4 * ((bytes@.len() + 2) / 3),
{
    base64::Engine::encode(&base64::engine::general_purpose::STANDARD, bytes).into_bytes()
}

/// Appends the bytes `bytes` to `out`.
pub fn push_bytes(out: &mut Vec<u8>, bytes: &[u8])
    ensures
        final(out)@ == old(out)@ + bytes@,
{
    out.extend_from_slice(bytes);
    assert(out@ =~= old(out)@ + bytes@);
}

/// Appends the UTF-8 encoding of `c`.
pub fn push_char(out: &mut Vec<u8>, c: char)
    ensures
        final(out)@ == old(out)@ + encode_utf8(seq![c]),
{
    let scalar = c as u32;
    proof {
        assert(seq![c].drop_first() =~= Seq::<char>::empty());
        assert(encode_utf8(seq![c]) =~= encode_scalar(scalar) + encode_utf8(
            Seq::<char>::empty(),
        ));
    }
    if scalar <= 0x7F {
        out.push((scalar & 0x7F) as u8);
    } else if 0x80 <= scalar && scalar <= 0x7FF {
        out.push(0xC0 | ((scalar >> 6) & 0x1F) as u8);
        out.push(0x80 | (scalar & 0x3F) as u8);
    } else if 0x800 <= scalar && scalar <= 0xFFFF && !(0xD800 <= scalar && scalar <= 0xDFFF) {
        out.push(0xE0 | ((scalar >> 12) & 0x0F) as u8);
        out.push(0x80 | ((scalar >> 6) & 0x3F) as u8);
        out.push(0x80 | (scalar & 0x3F) as u8);
    } else {
        out.push(0xF0 | ((scalar >> 18) & 0x7) as u8);
        out.push(0x80 | ((scalar >> 12) & 0x3F) as u8);
        out.push(0x80 | ((scalar >> 6) & 0x3F) as u8);
        out.push(0x80 | (scalar & 0x3F) as u8);
    }
    assert(out@ =~= old(out)@ + encode_utf8(seq![c]));
}

} // verus!
