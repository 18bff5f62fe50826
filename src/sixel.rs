use vstd::prelude::*;
use vstd::string::StringSliceAdditionalSpecFns;

use crate::config::Config;
use crate::error::{ViuError, ViuResult};
use crate::escape::{adjust_offset, offset_bytes, offset_valid, push_bytes, push_str};
use crate::geometry::{best_fit, find_best_fit};
use crate::keys::{is_char, is_unknown, Key, TestKeys};
use crate::raster::{resample, resample_fits, resampled, Image};
use crate::text::{contains_str, seq_contains};

verus! {

/// Prints sixels through the native sixel library.
pub struct SixelPrinter;

/// Prints sixels encoded in Rust.
pub struct IcySixelPrinter;

/// Pixels drawn per cell, horizontally and vertically.
pub const SIXEL_CELL_WIDTH: u32 = 6;

pub const SIXEL_CELL_HEIGHT: u32 = 12;

/// The widest raster sent, in pixels: some terminals garble wider ones.
pub const SIXEL_MAX_WIDTH: u32 = 1000;

/// The characters a device attributes reply carries, in order: those of its character keys.
pub open spec fn key_chars(keys: Seq<Key>) -> Seq<char>
    decreases keys.len(),
{
    if keys.len() == 0 {
        Seq::empty()
    } else {
        key_chars(keys.drop_last()) + (match keys.last() {
            Key::Char(c) => seq![c],
            _ => Seq::empty(),
        })
    }
}

/// How many of `keys`, from the `i`-th on, a device attributes reply takes up: up to the
/// final `c`, or up to a key that could not be read, or all of them.
pub open spec fn attributes_len_from(keys: Seq<Key>, i: nat) -> nat
    decreases keys.len() - i,
{
    if i >= keys.len() {
        keys.len()
    } else if keys[i as int] is Unknown || keys[i as int] == Key::Char('c') {
        i + 1
    } else {
        attributes_len_from(keys, i + 1)
    }
}

/// Whether the parameters of a device attributes reply include 4, the sixel capability.
pub open spec fn attributes_have_sixel(chars: Seq<char>) -> bool {
    seq_contains(chars, ";4;"@) || seq_contains(chars, ";4c"@)
}

/// Gathers the characters of a device attributes reply.
pub struct AttributeCollector {
    chars: Vec<char>,
}

impl AttributeCollector {
    pub closed spec fn chars(&self) -> Seq<char> {
        self.chars@
    }

    pub fn new() -> (c: AttributeCollector)
        ensures
            c.chars() == Seq::<char>::empty(),
    {
        AttributeCollector { chars: Vec::new() }
    }

    /// Takes the next key; returns whether the reply has ended. A key that could not be read
    /// ends it without adding anything.
    pub fn push(&mut self, key: Key) -> (done: bool)
        ensures
            final(self).chars() == old(self).chars() + key_chars(seq![key]),
            done == (key is Unknown || key == Key::Char('c')),
    {
        proof {
            lemma_key_chars_single(key);
        }
        let done = is_unknown(&key) || is_char(&key, 'c');
        match key {
            Key::Char(c) => {
                self.chars.push(c);
            },
            _ => {},
        }
        assert(self.chars@ =~= old(self).chars() + key_chars(seq![key]));
        done
    }

    /// Whether the reply gathered lists the sixel capability.
    pub fn has_sixel(&self) -> (r: bool)
        ensures
            r == attributes_have_sixel(self.chars()),
    {
        contains_str(self.chars.as_slice(), ";4;") || contains_str(self.chars.as_slice(), ";4c")
    }
}

proof fn lemma_key_chars_single(k: Key)
    ensures
        key_chars(seq![k]) == (match k {
            Key::Char(c) => seq![c],
            _ => Seq::<char>::empty(),
        }),
{
    assert(seq![k].drop_last() =~= Seq::<Key>::empty());
    assert(key_chars(Seq::<Key>::empty()) == Seq::<char>::empty());
    assert(seq![k].last() == k);
    assert(key_chars(seq![k]) =~= (match k {
        Key::Char(c) => seq![c],
        _ => Seq::<char>::empty(),
    }));
}

proof fn lemma_key_chars_push(keys: Seq<Key>, k: Key)
    ensures
        key_chars(keys.push(k)) == key_chars(keys) + key_chars(seq![k]),
{
    assert(keys.push(k).drop_last() =~= keys);
    assert(keys.push(k).last() == k);
    lemma_key_chars_single(k);
}

/// Appends the primary device attributes request.
pub fn push_attributes_query(out: &mut Vec<u8>)
    ensures
        final(out)@ == old(out)@ + "\x1b[c".spec_bytes(),
{
    push_str(out, "\x1b[c");
}

/// Sends the primary device attributes request and reads the reply from `stdin`; returns
/// whether it lists the sixel capability.
pub fn check_device_attrs(stdin: &mut TestKeys, stdout: &mut Vec<u8>) -> (r: bool)
    ensures
        final(stdout)@ == old(stdout)@ + "\x1b[c".spec_bytes(),
        ({
            let script = old(stdin).pending();
            let n = attributes_len_from(script, 0) as int;
            &&& final(stdin).pending() == script.skip(n)
            &&& r == attributes_have_sixel(key_chars(script.take(n)))
        }),
{
    push_attributes_query(stdout);
    let ghost script = stdin.pending();
    let mut collector = AttributeCollector::new();
    let ghost mut i: nat = 0;
    loop
        invariant_except_break
            i <= script.len(),
            collector.chars() == key_chars(script.take(i as int)),
            stdin.pending() == script.skip(i as int),
            attributes_len_from(script, 0) == attributes_len_from(script, i),
        ensures
            collector.chars() == key_chars(script.take(attributes_len_from(script, 0) as int)),
            stdin.pending() == script.skip(attributes_len_from(script, 0) as int),
        decreases script.len() - i,
    {
        match stdin.read_key() {
            Some(key) => {
                proof {
                    assert(script.skip(i as int)[0] == script[i as int]);
                    assert(stdin.pending() =~= script.skip((i + 1) as int));
                    assert(script.take((i + 1) as int) =~= script.take(i as int).push(key));
                    lemma_key_chars_push(script.take(i as int), key);
                }
                let done = collector.push(key);
                proof {
                    i = i + 1;
                }
                if done {
                    break;
                }
            },
            None => {
                proof {
                    assert(i == script.len());
                }
                break;
            },
        }
    }
    collector.has_sixel()
}

/// The pixels that a box of `cw` × `ch` cells is drawn with.
pub open spec fn sixel_pixels(cw: int, ch: int) -> (int, int) {
    (if 6 * cw < 1000 {
        6 * cw
    } else {
        1000
    }, 12 * ch)
}

/// The raster size for a box of `cells` cells: six pixels to a column, at most 1000 in all,
/// and twelve to a row. Nothing when the height does not fit in 32 bits.
pub fn sixel_raster_size(cells: (u32, u32)) -> (r: Option<(u32, u32)>)
    ensures
        r is Some <==> sixel_pixels(cells.0 as int, cells.1 as int).1 <= u32::MAX,
        r matches Some(p) ==> (p.0 as int, p.1 as int) == sixel_pixels(
            cells.0 as int,
            cells.1 as int,
        ),
{
    let w = 6 * (cells.0 as u64);
    let h = 12 * (cells.1 as u64);
    if h > u32::MAX as u64 {
        return None;
    }
    let w = if w < 1000 {
        w as u32
    } else {
        1000
    };
    Some((w, h as u32))
}

impl SixelPrinter {
    /// The cells that `img` is printed in, and the raster in pixels that the native encoder
    /// draws them with; no raster when its height does not fit in 32 bits.
    pub fn raster_size(&self, img: &Image, config: &Config, term_size: (u16, u16)) -> (r: (
        (u32, u32),
        Option<(u32, u32)>,
    ))
        ensures
            ({
                let cells = best_fit(
                    img.width as int,
                    img.height as int,
                    config.width,
                    config.height,
                    config.preserve_aspect_ratio,
                    term_size.0 as int,
                    term_size.1 as int,
                );
                let px = sixel_pixels(cells.0, cells.1);
                &&& (r.0.0 as int, r.0.1 as int) == cells
                &&& r.1 is Some <==> px.1 <= u32::MAX
                &&& r.1 matches Some(p) ==> (p.0 as int, p.1 as int) == px
            }),
    {
        let cells = find_best_fit(
            img,
            config.width,
            config.height,
            config.preserve_aspect_ratio,
            term_size,
        );
        (cells, sixel_raster_size(cells))
    }
}

/// The sixel data that icy_sixel writes for an RGBA raster, or nothing where it refuses the
/// raster.
pub uninterp spec fn sixel_of(pixels: Seq<u8>, width: u32, height: u32) -> Option<Seq<u8>>;

/// Relies on `icy_sixel::sixel_encode` with the default options, whose quantizer is seeded
/// from them: whether it succeeds, and the sixel data, depend on the raster alone.
#[verifier::external_body]
fn sixel_encode(img: &Image) -> (r: Result<Vec<u8>, icy_sixel::SixelError>)
    requires
        img.wf(),
    ensures
        r is Ok <==> sixel_of(img.pixels@, img.width, img.height) is Some,
        r matches Ok(bytes) ==> sixel_of(img.pixels@, img.width, img.height) == Some(bytes@),
{
    let options = icy_sixel::EncodeOptions::default();
    icy_sixel::sixel_encode(&img.pixels, img.width as usize, img.height as usize, &options).map(
        |s| s.into_bytes(),
    )
}

impl IcySixelPrinter {
    /// Draws `img` as sixels in the cells that `find_best_fit` picks. Returns the size
    /// printed, in cells. Nothing is written when it fails: when the offset is invalid, when
    /// the raster would be too large, or when the encoder refuses it.
    pub fn print(
        &self,
        out: &mut Vec<u8>,
        img: &Image,
        config: &Config,
        term_size: (u16, u16),
    ) -> (r: ViuResult<(u32, u32)>)
        requires
            img.wf(),
        ensures
            ({
                let cells = best_fit(
                    img.width as int,
                    img.height as int,
                    config.width,
                    config.height,
                    config.preserve_aspect_ratio,
                    term_size.0 as int,
                    term_size.1 as int,
                );
                let px = sixel_pixels(cells.0, cells.1);
                let fits = px.1 <= u32::MAX && resample_fits(img.width as int, px.0, px.1);
                let sixel = sixel_of(
                    resampled(img.pixels@, img.width, img.height, px.0 as u32, px.1 as u32),
                    px.0 as u32,
                    px.1 as u32,
                );
                &&& r is Ok <==> fits && offset_valid(*config) && sixel is Some
                &&& r matches Err(e) ==> final(out)@ == old(out)@ && (if fits && offset_valid(
                    *config,
                ) {
                    e is IcySixelError
                } else {
                    e is InvalidConfiguration
                })
                &&& r is Ok ==> {
                    &&& r == Ok::<(u32, u32), ViuError>((cells.0 as u32, cells.1 as u32))
                    &&& final(out)@ == old(out)@ + offset_bytes(*config) + sixel->0
                }
            }),
    {
        let (w, h) = find_best_fit(
            img,
            config.width,
            config.height,
            config.preserve_aspect_ratio,
            term_size,
        );
        let (pw, ph) = match sixel_raster_size((w, h)) {
            Some(size) => size,
            None => {
                return Err(ViuError::InvalidConfiguration("the image is too large".to_owned()));
            },
        };
        let iw = img.width as u128;
        assert(16 * iw * (ph as u128) < 0x1_0000_0000_0000_0000_0000_0000 && 4 * (pw as u128) * (
        ph as u128) < 0x1_0000_0000_0000_0000_0000_0000) by (nonlinear_arith)
            requires
                iw < 0x1_0000_0000,
                pw < 0x1_0000_0000,
                ph < 0x1_0000_0000,
        ;
        if 16 * iw * (ph as u128) > isize::MAX as u128 || 4 * (pw as u128) * (ph as u128)
            > isize::MAX as u128 {
            return Err(ViuError::InvalidConfiguration("the image is too large".to_owned()));
        }
        if config.absolute_offset && config.y < 0 {
            return Err(
                ViuError::InvalidConfiguration(
                    "absolute_offset is true but y offset is negative".to_owned(),
                ),
            );
        }
        let resized = resample(img, pw, ph);
        let sixel = match sixel_encode(&resized) {
            Ok(sixel) => sixel,
            Err(e) => {
                return Err(ViuError::IcySixelError(e));
            },
        };
        match adjust_offset(out, config) {
            Ok(()) => {},
            Err(e) => {
                return Err(e);
            },
        }
        push_bytes(out, sixel.as_slice());
        Ok((w, h))
    }
}

} // verus!
