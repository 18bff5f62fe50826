use vstd::prelude::*;
use vstd::string::StringSliceAdditionalSpecFns;
use vstd::utf8::encode_utf8;

use crate::config::Config;
use crate::error::{ViuError, ViuResult};
use crate::escape::{
    adjust_offset, decimal, move_right_bytes, offset_bytes, offset_valid, push_char,
    push_move_right, push_str,
};
use crate::geometry::best_fit;
use crate::raster::{channel_index, resampled, resize, resize_fits, Image};

verus! {

/// A terminal color: 24-bit, or an index in the 256-color palette.
#[derive(Clone, Copy, Debug, PartialEq, Eq, Structural)]
pub enum Color {
    Rgb(u8, u8, u8),
    Ansi256(u8),
}

/// The colors of one cell: the glyph's color and the color behind it.
#[derive(Clone, Copy, Debug, PartialEq, Eq, Structural)]
pub struct ColorSpec {
    pub fg: Option<Color>,
    pub bg: Option<Color>,
}

impl ColorSpec {
    /// A cell with neither color set.
    pub fn new() -> (r: ColorSpec)
        ensures
            r.fg is None,
            r.bg is None,
    {
        ColorSpec { fg: None, bg: None }
    }

    pub fn set_fg(&mut self, c: Option<Color>)
        ensures
            final(self).fg == c,
            final(self).bg == old(self).bg,
    {
        self.fg = c;
    }

    pub fn set_bg(&mut self, c: Option<Color>)
        ensures
            final(self).bg == c,
            final(self).fg == old(self).fg,
    {
        self.bg = c;
    }
}

/// Prints the blocks of an image: each cell shows two pixels, the upper one as the background
/// and the lower one as the foreground of a lower half block.
pub struct BlockPrinter;

/// The checkerboard tone drawn behind transparent pixels at `row`, `col`.
pub open spec fn checker_tone(row: int, col: int) -> u8 {
    if row % 2 == col % 2 {
        102
    } else {
        153
    }
}

/// The palette entry that ansi_colours picks for a 24-bit color.
pub uninterp spec fn ansi256_of(r: u8, g: u8, b: u8) -> u8;

/// Relies on `ansi_colours::ansi256_from_rgb`: the palette index that approximates a color,
/// which depends on the color alone.
#[verifier::external_body]
fn ansi256_from_rgb(r: u8, g: u8, b: u8) -> (c: u8)
    ensures
        c == ansi256_of(r, g, b),
{
    ansi_colours::ansi256_from_rgb((r, g, b))
}

/// The color that draws `r`, `g`, `b`: itself in truecolor, else its nearest palette entry.
pub open spec fn color_of(r: u8, g: u8, b: u8, truecolor: bool) -> Color {
    if truecolor {
        Color::Rgb(r, g, b)
    } else {
        Color::Ansi256(ansi256_of(r, g, b))
    }
}

/// The color of the pixel at `x`, `y`, or none where it is transparent and the configuration
/// asks to leave such pixels undrawn.
pub open spec fn pixel_color(px: Seq<u8>, w: int, config: Config, x: int, y: int) -> Option<
    Color,
> {
    if px[channel_index(w, x, y, 3)] == 0 {
        if config.transparent {
            None
        } else {
            let t = checker_tone(y, x);
            Some(color_of(t, t, t, config.truecolor))
        }
    } else {
        Some(
            color_of(
                px[channel_index(w, x, y, 0)],
                px[channel_index(w, x, y, 1)],
                px[channel_index(w, x, y, 2)],
                config.truecolor,
            ),
        )
    }
}

/// The digits that select a color after `38;` or `48;`.
pub open spec fn color_code(c: Color) -> Seq<u8> {
    match c {
        Color::Rgb(r, g, b) => "2;".spec_bytes() + decimal(r as nat) + ";".spec_bytes() + decimal(
            g as nat,
        ) + ";".spec_bytes() + decimal(b as nat),
        Color::Ansi256(n) => "5;".spec_bytes() + decimal(n as nat),
    }
}

pub open spec fn fg_bytes(c: Color) -> Seq<u8> {
    "\x1b[38;".spec_bytes() + color_code(c) + "m".spec_bytes()
}

pub open spec fn bg_bytes(c: Color) -> Seq<u8> {
    "\x1b[48;".spec_bytes() + color_code(c) + "m".spec_bytes()
}

pub open spec fn reset_bytes() -> Seq<u8> {
    "\x1b[0m".spec_bytes()
}

/// Relies on termcolor's `Ansi::reset`: it writes `ESC[0m`.
#[verifier::external_body]
fn ansi_reset() -> (r: Vec<u8>)
    ensures
        r@ == reset_bytes(),
{
    let mut w = termcolor::Ansi::new(Vec::new());
    let _ = termcolor::WriteColor::reset(&mut w);
    w.into_inner()
}

/// Appends the sequence that resets all colors.
pub fn push_reset(out: &mut Vec<u8>)
    ensures
        final(out)@ == old(out)@ + reset_bytes(),
{
    let bytes = ansi_reset();
    out.extend_from_slice(bytes.as_slice());
    assert(out@ =~= old(out)@ + reset_bytes());
}

/// The sequence that selects the colors of a cell: a reset, then the foreground and the
/// background that are set.
pub open spec fn set_color_bytes(fg: Option<Color>, bg: Option<Color>) -> Seq<u8> {
    reset_bytes() + (match fg {
        Some(c) => fg_bytes(c),
        None => Seq::empty(),
    }) + (match bg {
        Some(c) => bg_bytes(c),
        None => Seq::empty(),
    })
}

/// Relies on termcolor's `Ansi::set_color` for a new `ColorSpec` (whose reset flag is set)
/// with only colors: it writes `ESC[0m`, then the foreground, then the background, each as
/// `ESC[38;` or `ESC[48;` followed by `5;<n>m` for a palette color or `2;<r>;<g>;<b>m` for a
/// 24-bit one, the numbers in decimal.
#[verifier::external_body]
fn ansi_set_color(fg: Option<Color>, bg: Option<Color>) -> (r: Vec<u8>)
    ensures
        r@ == set_color_bytes(fg, bg),
{
    let convert = |c: Color| match c {
        Color::Rgb(r, g, b) => termcolor::Color::Rgb(r, g, b),
        Color::Ansi256(n) => termcolor::Color::Ansi256(n),
    };
    let mut spec = termcolor::ColorSpec::new();
    spec.set_fg(fg.map(convert)).set_bg(bg.map(convert));
    let mut w = termcolor::Ansi::new(Vec::new());
    let _ = termcolor::WriteColor::set_color(&mut w, &spec);
    w.into_inner()
}

fn push_set_color(out: &mut Vec<u8>, fg: Option<Color>, bg: Option<Color>)
    ensures
        final(out)@ == old(out)@ + set_color_bytes(fg, bg),
{
    let bytes = ansi_set_color(fg, bg);
    out.extend_from_slice(bytes.as_slice());
    assert(out@ =~= old(out)@ + set_color_bytes(fg, bg));
}

/// The UTF-8 bytes of a glyph.
pub open spec fn glyph_bytes(c: char) -> Seq<u8> {
    encode_utf8(seq![c])
}

pub open spec fn upper_half_bytes() -> Seq<u8> {
    glyph_bytes('\u{2580}')
}

pub open spec fn lower_half_bytes() -> Seq<u8> {
    glyph_bytes('\u{2584}')
}

/// What one cell prints, given the colors of its lower pixel (`fg`) and its upper pixel
/// (`bg`), when `glyph` draws a cell with both colors.
///
/// On the last row of an image of odd height only the upper pixel exists: it is drawn as an
/// upper half block, or skipped. Elsewhere a cell with both colors is `glyph` in the lower
/// color over the upper color; one with a single color is the half block of that color; one
/// with none is skipped by moving the cursor right.
pub open spec fn custom_cell_bytes(
    fg: Option<Color>,
    bg: Option<Color>,
    is_last_row: bool,
    glyph: char,
) -> Seq<u8> {
    if is_last_row {
        match bg {
            Some(top) => set_color_bytes(Some(top), None) + upper_half_bytes(),
            None => move_right_bytes(1),
        }
    } else {
        match (fg, bg) {
            (None, None) => move_right_bytes(1),
            (Some(bottom), None) => set_color_bytes(Some(bottom), None) + lower_half_bytes(),
            (None, Some(top)) => set_color_bytes(Some(top), None) + upper_half_bytes(),
            (Some(bottom), Some(top)) => set_color_bytes(Some(bottom), Some(top)) + glyph_bytes(
                glyph,
            ),
        }
    }
}

/// What one cell of half blocks prints; see `custom_cell_bytes`.
pub open spec fn cell_bytes(fg: Option<Color>, bg: Option<Color>, is_last_row: bool) -> Seq<u8> {
    custom_cell_bytes(fg, bg, is_last_row, '\u{2584}')
}

/// Prints one cell whose lower pixel has the color `c.fg` and whose upper pixel has the
/// color `c.bg`, with `character` where both colors are set; see `custom_cell_bytes`.
pub fn write_custom_colored_character(
    out: &mut Vec<u8>,
    c: &ColorSpec,
    is_last_row: bool,
    character: char,
)
    ensures
        final(out)@ == old(out)@ + custom_cell_bytes(c.fg, c.bg, is_last_row, character),
{
    if is_last_row {
        match c.bg {
            Some(top) => {
                push_set_color(out, Some(top), None);
                push_char(out, '\u{2580}');
            },
            None => {
                push_move_right(out, 1);
            },
        }
    } else {
        match (c.fg, c.bg) {
            (None, None) => {
                push_move_right(out, 1);
            },
            (Some(bottom), None) => {
                push_set_color(out, Some(bottom), None);
                push_char(out, '\u{2584}');
            },
            (None, Some(top)) => {
                push_set_color(out, Some(top), None);
                push_char(out, '\u{2580}');
            },
            (Some(bottom), Some(top)) => {
                push_set_color(out, Some(bottom), Some(top));
                push_char(out, character);
            },
        }
    }
    assert(out@ =~= old(out)@ + custom_cell_bytes(c.fg, c.bg, is_last_row, character));
}

/// Prints one cell of half blocks; see `cell_bytes`.
pub fn write_colored_character(out: &mut Vec<u8>, c: &ColorSpec, is_last_row: bool)
    ensures
        final(out)@ == old(out)@ + cell_bytes(c.fg, c.bg, is_last_row),
{
    write_custom_colored_character(out, c, is_last_row, '\u{2584}');
}

/// The checkerboard color drawn behind a transparent pixel at `row`, `col`.
pub fn get_transparency_color(row: u32, col: u32, truecolor: bool) -> (c: Color)
    ensures
        c == color_of(
            checker_tone(row as int, col as int),
            checker_tone(row as int, col as int),
            checker_tone(row as int, col as int),
            truecolor,
        ),
{
    let tone: u8 = if row % 2 == col % 2 {
        102
    } else {
        153
    };
    get_color_from_pixel(tone, tone, tone, truecolor)
}

/// The color that draws a pixel of color `r`, `g`, `b`.
pub fn get_color_from_pixel(r: u8, g: u8, b: u8, truecolor: bool) -> (c: Color)
    ensures
        c == color_of(r, g, b, truecolor),
{
    if truecolor {
        Color::Rgb(r, g, b)
    } else {
        Color::Ansi256(ansi256_from_rgb(r, g, b))
    }
}

fn pixel_color_at(img: &Image, config: &Config, x: u32, y: u32) -> (c: Option<Color>)
    requires
        img.wf(),
        x < img.width,
        y < img.height,
    ensures
        c == pixel_color(img.pixels@, img.width as int, *config, x as int, y as int),
{
    let base = img.pixel_base(x, y);
    if img.pixels[base + 3] == 0 {
        if config.transparent {
            None
        } else {
            Some(get_transparency_color(y, x, config.truecolor))
        }
    } else {
        Some(
            get_color_from_pixel(
                img.pixels[base],
                img.pixels[base + 1],
                img.pixels[base + 2],
                config.truecolor,
            ),
        )
    }
}

/// The first `n` cells of cell row `r`, which covers pixel rows `2r` and `2r + 1`.
pub open spec fn row_cells(px: Seq<u8>, w: int, config: Config, r: int, n: nat) -> Seq<u8>
    decreases n,
{
    if n == 0 {
        Seq::empty()
    } else {
        row_cells(px, w, config, r, (n - 1) as nat) + cell_bytes(
            pixel_color(px, w, config, n - 1, 2 * r + 1),
            pixel_color(px, w, config, n - 1, 2 * r),
            false,
        )
    }
}

/// The first `n` cells of the last pixel row of an image of odd height.
pub open spec fn last_row_cells(px: Seq<u8>, w: int, h: int, config: Config, n: nat) -> Seq<u8>
    decreases n,
{
    if n == 0 {
        Seq::empty()
    } else {
        last_row_cells(px, w, h, config, (n - 1) as nat) + cell_bytes(
            None,
            pixel_color(px, w, config, n - 1, h - 1),
            true,
        )
    }
}

/// The move right that re-applies the horizontal offset at the start of each row.
pub open spec fn indent_bytes(config: Config) -> Seq<u8> {
    if config.x > 0 {
        move_right_bytes(config.x as nat)
    } else {
        Seq::empty()
    }
}

/// What ends cell row `r` of an image `height` pixels tall: a reset and a new line, except
/// after the last row of pixels.
pub open spec fn row_end_bytes(height: int, r: int) -> Seq<u8> {
    if 2 * r + 1 < height - 1 {
        reset_bytes() + "\r\n".spec_bytes()
    } else {
        Seq::empty()
    }
}

/// The first `n` full cell rows of the image.
pub open spec fn full_rows(px: Seq<u8>, w: int, h: int, config: Config, n: nat) -> Seq<u8>
    decreases n,
{
    if n == 0 {
        Seq::empty()
    } else {
        full_rows(px, w, h, config, (n - 1) as nat) + indent_bytes(config) + row_cells(
            px,
            w,
            config,
            n - 1,
            w as nat,
        ) + row_end_bytes(h, n - 1)
    }
}

/// Everything the block renderer prints for the `w` × `h` RGBA raster `px`, already sized to
/// its cells.
pub open spec fn block_bytes(px: Seq<u8>, w: int, h: int, config: Config) -> Seq<u8> {
    full_rows(px, w, h, config, (h / 2) as nat) + (if h % 2 == 1 {
        indent_bytes(config) + last_row_cells(px, w, h, config, w as nat)
    } else {
        Seq::empty()
    }) + reset_bytes() + "\n".spec_bytes()
}

/// Prints cell row `r`, made of pixel rows `2r` and `2r + 1`.
fn write_cell_row(out: &mut Vec<u8>, img: &Image, config: &Config, r: u32)
    requires
        img.wf(),
        r < img.height / 2,
    ensures
        final(out)@ == old(out)@ + indent_bytes(*config) + row_cells(
            img.pixels@,
            img.width as int,
            *config,
            r as int,
            img.width as nat,
        ) + row_end_bytes(img.height as int, r as int),
{
    let width = img.width;
    let height = img.height;
    if config.x > 0 {
        push_move_right(out, config.x);
    }
    let ghost row_start = out@;
    assert(row_start =~= old(out)@ + indent_bytes(*config));
    let mut x: u32 = 0;
    while x < width
        invariant
            img.wf(),
            width == img.width,
            height == img.height,
            r < height / 2,
            x <= width,
            out@ == row_start + row_cells(img.pixels@, img.width as int, *config, r as int, x as nat),
        decreases width - x,
    {
        let top = pixel_color_at(img, config, x, 2 * r);
        let bottom = pixel_color_at(img, config, x, 2 * r + 1);
        write_colored_character(out, &ColorSpec { fg: bottom, bg: top }, false);
        x = x + 1;
        assert(out@ =~= row_start + row_cells(
            img.pixels@,
            img.width as int,
            *config,
            r as int,
            x as nat,
        ));
    }
    let ghost cells_end = out@;
    if 2 * r + 1 < height - 1 {
        push_reset(out);
        push_str(out, "\r\n");
    }
    assert(out@ =~= cells_end + row_end_bytes(height as int, r as int));
}

/// Draws `img` with half blocks, pixel for pixel, two pixel rows to a cell row. Returns the
/// size printed, in cells.
fn write_blocks(out: &mut Vec<u8>, img: &Image, config: &Config) -> (r: (u32, u32))
    requires
        img.wf(),
    ensures
        final(out)@ == old(out)@ + block_bytes(img.pixels@, img.width as int, img.height as int, *config),
        r.0 == img.width,
        r.1 == img.height / 2 + img.height % 2,
{
    let width = img.width;
    let height = img.height;
    let rows = height / 2;
    let mut r: u32 = 0;
    while r < rows
        invariant
            img.wf(),
            width == img.width,
            height == img.height,
            rows == height / 2,
            r <= rows,
            out@ == old(out)@ + full_rows(
                img.pixels@,
                img.width as int,
                img.height as int,
                *config,
                r as nat,
            ),
        decreases rows - r,
    {
        write_cell_row(out, img, config, r);
        r = r + 1;
        assert(out@ =~= old(out)@ + full_rows(
            img.pixels@,
            img.width as int,
            img.height as int,
            *config,
            r as nat,
        ));
    }
    let ghost rows_end = out@;
    if height % 2 == 1 {
        if config.x > 0 {
            push_move_right(out, config.x);
        }
        let ghost row_start = out@;
        let mut x: u32 = 0;
        while x < width
            invariant
                img.wf(),
                width == img.width,
                height == img.height,
                height % 2 == 1,
                x <= width,
                out@ == row_start + last_row_cells(img.pixels@, img.width as int, img.height as int, *config, x as nat),
            decreases width - x,
        {
            let top = pixel_color_at(img, config, x, height - 1);
            write_colored_character(out, &ColorSpec { fg: None, bg: top }, true);
            x = x + 1;
            assert(out@ =~= row_start + last_row_cells(img.pixels@, img.width as int, img.height as int, *config, x as nat));
        }
        assert(out@ =~= rows_end + indent_bytes(*config) + last_row_cells(
            img.pixels@,
            img.width as int,
            img.height as int,
            *config,
            width as nat,
        ));
    }
    push_reset(out);
    push_str(out, "\n");
    assert(out@ =~= old(out)@ + block_bytes(img.pixels@, img.width as int, img.height as int, *config));
    (width, height / 2 + height % 2)
}

/// Prints `img`, already sized to its cells, with half blocks: first the cursor goes to the
/// configured offset (the horizontal offset is then re-applied at the start of every row),
/// then the rows are drawn. Returns the size printed, in cells.
///
/// A negative `y` with `absolute_offset` is an invalid configuration, reported before
/// anything is written.
pub fn print_to_writecolor(out: &mut Vec<u8>, img: &Image, config: &Config) -> (r: ViuResult<
    (u32, u32),
>)
    requires
        img.wf(),
    ensures
        r is Ok <==> offset_valid(*config),
        r matches Err(e) ==> e is InvalidConfiguration && final(out)@ == old(out)@,
        r is Ok ==> {
            &&& r == Ok::<(u32, u32), ViuError>(
                (img.width, (img.height / 2 + img.height % 2) as u32),
            )
            &&& final(out)@ == old(out)@ + offset_bytes(without_x(*config)) + block_bytes(
                img.pixels@,
                img.width as int,
                img.height as int,
                *config,
            )
        },
{
    let unshifted = Config { x: 0, ..*config };
    match adjust_offset(out, &unshifted) {
        Ok(()) => {},
        Err(e) => {
            return Err(e);
        },
    }
    Ok(write_blocks(out, img, config))
}

/// The configuration without its horizontal offset: the block renderer applies that offset
/// itself at the start of every row.
pub open spec fn without_x(config: Config) -> Config {
    Config { x: 0, ..config }
}

impl BlockPrinter {
    /// Prints `img` with half blocks, resized to its cells first unless the configuration
    /// says not to. Returns the size printed, in cells.
    ///
    /// Nothing is written when it fails: when the offset is invalid, or when the cells asked
    /// for are too many to resize the image to.
    pub fn print(
        &self,
        out: &mut Vec<u8>,
        img: &Image,
        config: &Config,
        term_size: (u16, u16),
    ) -> (r: ViuResult<(u32, u32)>)
        requires
            img.wf(),
        ensures
            ({
                let cells = best_fit(
                    img.width as int,
                    img.height as int,
                    config.width,
                    config.height,
                    config.preserve_aspect_ratio,
                    term_size.0 as int,
                    term_size.1 as int,
                );
                let start = old(out)@ + offset_bytes(without_x(*config));
                let fits = !config.resize || resize_fits(img.width as int, cells.0, cells.1);
                &&& r is Ok <==> offset_valid(*config) && fits
                &&& r matches Err(e) ==> e is InvalidConfiguration && final(out)@ == old(out)@
                &&& r is Ok && !config.resize ==> {
                    &&& r == Ok::<(u32, u32), ViuError>(
                        (img.width, (img.height / 2 + img.height % 2) as u32),
                    )
                    &&& final(out)@ == start + block_bytes(
                        img.pixels@,
                        img.width as int,
                        img.height as int,
                        *config,
                    )
                }
                &&& r is Ok && config.resize ==> {
                    &&& r == Ok::<(u32, u32), ViuError>((cells.0 as u32, cells.1 as u32))
                    &&& final(out)@ == start + block_bytes(
                        resampled(
                            img.pixels@,
                            img.width,
                            img.height,
                            cells.0 as u32,
                            (2 * cells.1) as u32,
                        ),
                        cells.0,
                        2 * cells.1,
                        *config,
                    )
                }
            }),
    {
        if config.resize {
            let resized = match resize(
                img,
                config.width,
                config.height,
                config.preserve_aspect_ratio,
                term_size,
            ) {
                Ok(resized) => resized,
                Err(e) => {
                    return Err(e);
                },
            };
            print_to_writecolor(out, &resized, config)
        } else {
            print_to_writecolor(out, img, config)
        }
    }
}

/// A `w` × `h` raster whose pixels all have the color `r`, `g`, `b` and the alpha `a`.
pub open spec fn is_solid(px: Seq<u8>, w: int, h: int, r: u8, g: u8, b: u8, a: u8) -> bool {
    forall|x: int, y: int|
        #![trigger channel_index(w, x, y, 0)]
        0 <= x < w && 0 <= y < h ==> {
            &&& px[channel_index(w, x, y, 0)] == r
            &&& px[channel_index(w, x, y, 1)] == g
            &&& px[channel_index(w, x, y, 2)] == b
            &&& px[channel_index(w, x, y, 3)] == a
        }
}

/// `n` cells whose both halves have the color `c`.
pub open spec fn solid_cells(c: Color, n: nat) -> Seq<u8>
    decreases n,
{
    if n == 0 {
        Seq::empty()
    } else {
        solid_cells(c, (n - 1) as nat) + cell_bytes(Some(c), Some(c), false)
    }
}

/// The first `n` of `total` rows of `w` cells of the color `c`: each starts at the offset,
/// holds its cells, resets the colors and ends the line.
pub open spec fn solid_rows(c: Color, w: nat, n: nat, total: nat, config: Config) -> Seq<u8>
    decreases n,
{
    if n == 0 {
        Seq::empty()
    } else {
        solid_rows(c, w, (n - 1) as nat, total, config) + indent_bytes(config) + solid_cells(c, w)
            + reset_bytes() + (if n < total {
            "\r\n".spec_bytes()
        } else {
            "\n".spec_bytes()
        })
    }
}

proof fn lemma_solid_row_cells(
    px: Seq<u8>,
    w: int,
    h: int,
    r: u8,
    g: u8,
    b: u8,
    a: u8,
    config: Config,
    row: int,
    n: nat,
)
    requires
        is_solid(px, w, h, r, g, b, a),
        a != 0,
        0 <= row,
        2 * row + 1 < h,
        n <= w,
    ensures
        row_cells(px, w, config, row, n) == solid_cells(color_of(r, g, b, config.truecolor), n),
    decreases n,
{
    if n > 0 {
        lemma_solid_row_cells(px, w, h, r, g, b, a, config, row, (n - 1) as nat);
        let x = n - 1;
        assert(px[channel_index(w, x, 2 * row, 0)] == r);
        assert(px[channel_index(w, x, 2 * row + 1, 0)] == r);
    }
}

proof fn lemma_solid_full_rows(
    px: Seq<u8>,
    w: nat,
    h: nat,
    r: u8,
    g: u8,
    b: u8,
    a: u8,
    config: Config,
    n: nat,
)
    requires
        is_solid(px, w as int, h as int, r, g, b, a),
        a != 0,
        h % 2 == 0,
        n < h / 2,
    ensures
        full_rows(px, w as int, h as int, config, n) == solid_rows(
            color_of(r, g, b, config.truecolor),
            w,
            n,
            h / 2,
            config,
        ),
    decreases n,
{
    if n > 0 {
        lemma_solid_full_rows(px, w, h, r, g, b, a, config, (n - 1) as nat);
        lemma_solid_row_cells(px, w as int, h as int, r, g, b, a, config, n - 1, w);
        let c = color_of(r, g, b, config.truecolor);
        assert(full_rows(px, w as int, h as int, config, n) =~= solid_rows(c, w, n, h / 2, config));
    }
}

/// Printing a solid, opaque image of even, non-zero height `h` and width `w` gives exactly
/// `h / 2` lines, each holding `w` cells of that color, each ending with a reset of the
/// colors and a line break.
pub proof fn lemma_solid_image_rows(
    px: Seq<u8>,
    w: nat,
    h: nat,
    r: u8,
    g: u8,
    b: u8,
    a: u8,
    config: Config,
)
    requires
        is_solid(px, w as int, h as int, r, g, b, a),
        a != 0,
        h % 2 == 0,
        h > 0,
    ensures
        block_bytes(px, w as int, h as int, config) == solid_rows(
            color_of(r, g, b, config.truecolor),
            w,
            h / 2,
            h / 2,
            config,
        ),
{
    let total = h / 2;
    let c = color_of(r, g, b, config.truecolor);
    lemma_solid_full_rows(px, w, h, r, g, b, a, config, (total - 1) as nat);
    lemma_solid_row_cells(px, w as int, h as int, r, g, b, a, config, total - 1, w);
    assert(block_bytes(px, w as int, h as int, config) =~= solid_rows(c, w, total, total, config));
}

} // verus!
