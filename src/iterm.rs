use vstd::prelude::*;
use vstd::string::StringSliceAdditionalSpecFns;

use crate::config::Config;
use crate::error::{ViuError, ViuResult};
use crate::escape::{
    adjust_offset, base64_encode, base64_of, decimal, offset_bytes, offset_valid, push_bytes,
    push_decimal, push_str,
};
use crate::geometry::{best_fit, find_best_fit};
use crate::keys::{esc_seq_is, is_char, is_status_ok, read_reply, reply_len, Key, ReplyEnd, TestKeys};
use crate::raster::Image;
use crate::text::{contains_str, seq_contains};

verus! {

/// Prints with the iTerm inline image protocol.
#[allow(non_camel_case_types)]
pub struct iTermPrinter;

/// Keys in a capabilities reply before the first that may name a feature: `ESC ] 1337;` and
/// `Capabilities`.
pub const ITERM_CAP_REPLY_SIZE: usize = 18;

/// Keys in a cell size reply before its values: `ESC ] 1337;` and `ReportCellSize`.
pub const ITERM_CELL_REPLY_SIZE: usize = 20;

/// Whether a reply to the capabilities query (ended by the status report) lists the file
/// feature `F` among the keys after its introduction and before the status report.
pub open spec fn capabilities_ok(resp: Seq<Key>) -> bool {
    &&& resp.len() >= ITERM_CAP_REPLY_SIZE + 2
    &&& esc_seq_is(resp.last(), seq!['[', '0', 'n'])
    &&& exists|i: int|
        ITERM_CAP_REPLY_SIZE <= i <= resp.len() - 2 && #[trigger] resp[i] == Key::Char('F')
}

/// The name that a cell size reply echoes.
pub open spec fn report_cell_size() -> Seq<char> {
    seq!['R', 'e', 'p', 'o', 'r', 't', 'C', 'e', 'l', 'l', 'S', 'i', 'z', 'e']
}

/// Whether the key at `i` is the first `R` of `resp` and starts the name `ReportCellSize`.
pub open spec fn echo_starts_at(resp: Seq<Key>, i: int) -> bool {
    &&& 0 <= i && i + 14 <= resp.len()
    &&& forall|j: int| 0 <= j < i ==> resp[j] != Key::Char('R')
    &&& forall|k: int| 0 <= k < 14 ==> #[trigger] resp[i + k] == Key::Char(report_cell_size()[k])
}

/// Whether `resp` echoes the cell size query's name: from the first `R` key on, the keys
/// spell `ReportCellSize`.
pub open spec fn echoes_cell_size(resp: Seq<Key>) -> bool {
    exists|i: int| #[trigger] echo_starts_at(resp, i)
}

/// Whether a reply to the cell size query (ended by the status report) echoes the query's
/// name.
pub open spec fn cell_size_ok(resp: Seq<Key>) -> bool {
    &&& resp.len() >= ITERM_CELL_REPLY_SIZE + 2
    &&& esc_seq_is(resp.last(), seq!['[', '0', 'n'])
    &&& echoes_cell_size(resp)
}

pub open spec fn capabilities_query_bytes() -> Seq<u8> {
    "\x1b]1337;Capabilities\x1b\\".spec_bytes() + "\x1b[5n".spec_bytes()
}

pub open spec fn cell_size_query_bytes() -> Seq<u8> {
    "\x1b]1337;ReportCellSize\x1b\\".spec_bytes() + "\x1b[5n".spec_bytes()
}

/// Appends the capabilities query and a status report request that ends every reply.
pub fn push_capabilities_query(out: &mut Vec<u8>)
    ensures
        final(out)@ == old(out)@ + capabilities_query_bytes(),
{
    push_str(out, "\x1b]1337;Capabilities\x1b\\");
    push_str(out, "\x1b[5n");
    assert(out@ =~= old(out)@ + capabilities_query_bytes());
}

/// Appends the cell size query and a status report request that ends every reply.
pub fn push_cell_size_query(out: &mut Vec<u8>)
    ensures
        final(out)@ == old(out)@ + cell_size_query_bytes(),
{
    push_str(out, "\x1b]1337;ReportCellSize\x1b\\");
    push_str(out, "\x1b[5n");
    assert(out@ =~= old(out)@ + cell_size_query_bytes());
}

/// Accepts a capabilities reply that lists the file feature; see `capabilities_ok`.
pub fn classify_capabilities_reply(response: Vec<Key>) -> (r: ViuResult)
    ensures
        r is Ok <==> capabilities_ok(response@),
        r is Err ==> (r->Err_0 matches ViuError::ItermResponse(v) && v@ == response@),
{
    let len = response.len();
    if len < ITERM_CAP_REPLY_SIZE + 2 || !is_status_ok(&response[len - 1]) {
        return Err(ViuError::ItermResponse(response));
    }
    let mut i: usize = ITERM_CAP_REPLY_SIZE;
    while i <= len - 2
        invariant
            len == response@.len(),
            len >= ITERM_CAP_REPLY_SIZE + 2,
            ITERM_CAP_REPLY_SIZE <= i <= len - 1,
            esc_seq_is(response@.last(), seq!['[', '0', 'n']),
            forall|j: int| ITERM_CAP_REPLY_SIZE <= j < i ==> response@[j] != Key::Char('F'),
        decreases len - 1 - i,
    {
        if is_char(&response[i], 'F') {
            assert(response@[i as int] == Key::Char('F'));
            return Ok(());
        }
        i = i + 1;
    }
    assert(!capabilities_ok(response@));
    Err(ViuError::ItermResponse(response))
}

/// Accepts a cell size reply that echoes the query's name; see `cell_size_ok`.
pub fn classify_cell_size_reply(response: Vec<Key>) -> (r: ViuResult)
    ensures
        r is Ok <==> cell_size_ok(response@),
        r is Err ==> (r->Err_0 matches ViuError::ItermResponse(v) && v@ == response@),
{
    let len = response.len();
    if len < ITERM_CELL_REPLY_SIZE + 2 || !is_status_ok(&response[len - 1]) {
        return Err(ViuError::ItermResponse(response));
    }
    let expected = ['R', 'e', 'p', 'o', 'r', 't', 'C', 'e', 'l', 'l', 'S', 'i', 'z', 'e'];
    assert(expected@ =~= report_cell_size());
    let mut consumed: usize = 0;
    let mut i: usize = 0;
    let mut stopped = false;
    while i < len && consumed < 14 && !stopped
        invariant
            len == response@.len(),
            consumed <= i <= len,
            consumed <= 14,
            expected@ == report_cell_size(),
            forall|j: int| 0 <= j < i - consumed ==> response@[j] != Key::Char('R'),
            forall|k: int|
                0 <= k < consumed ==> #[trigger] response@[i - consumed + k] == Key::Char(
                    report_cell_size()[k],
                ),
            stopped ==> consumed != 0 && i < len && response@[i as int] != Key::Char(
                report_cell_size()[consumed as int],
            ),
        decreases len - i + (if stopped {
            0int
        } else {
            1int
        }),
    {
        if is_char(&response[i], expected[consumed]) {
            consumed = consumed + 1;
            i = i + 1;
            proof {
                assert forall|k: int| 0 <= k < consumed implies #[trigger] response@[i - consumed
                    + k] == Key::Char(report_cell_size()[k]) by {
                    if k < consumed - 1 {
                        assert(response@[(i - 1) - (consumed - 1) + k] == Key::Char(
                            report_cell_size()[k],
                        ));
                    }
                }
            }
        } else if consumed != 0 {
            stopped = true;
        } else {
            i = i + 1;
        }
    }
    let ghost start = i - consumed;
    proof {
        if consumed == 14 {
            assert(echoes_cell_size(response@)) by {
                assert forall|k: int| 0 <= k < 14 implies #[trigger] response@[start + k]
                    == Key::Char(report_cell_size()[k]) by {
                    assert(response@[i - consumed + k] == Key::Char(report_cell_size()[k]));
                }
                assert(echo_starts_at(response@, start));
            }
        } else {
            assert(!echoes_cell_size(response@)) by {
                if echoes_cell_size(response@) {
                    let w = choose|w: int| echo_starts_at(response@, w);
                    assert(response@[w + 0] == Key::Char(report_cell_size()[0]));
                    assert(report_cell_size()[0] == 'R');
                    if consumed == 0 {
                        assert(w < i);
                    } else {
                        assert(response@[start + 0] == Key::Char(report_cell_size()[0]));
                        assert(w == start);
                        if stopped {
                            assert(response@[w + consumed] == Key::Char(
                                report_cell_size()[consumed as int],
                            ));
                        }
                    }
                }
            }
        }
    }
    if consumed == 14 {
        Ok(())
    } else {
        Err(ViuError::ItermResponse(response))
    }
}

/// Asks the terminal for its capabilities and reads its reply from `stdin` up to the status
/// report.
pub fn has_iterm_support_capabilities(stdout: &mut Vec<u8>, stdin: &mut TestKeys) -> (r: ViuResult)
    ensures
        final(stdout)@ == old(stdout)@ + capabilities_query_bytes(),
        ({
            let script = old(stdin).pending();
            let n = reply_len(ReplyEnd::StatusReport, script) as int;
            &&& final(stdin).pending() == script.skip(n)
            &&& r is Ok <==> capabilities_ok(script.take(n))
            &&& r is Err ==> (r->Err_0 matches ViuError::ItermResponse(v) && v@ == script.take(n))
        }),
{
    push_capabilities_query(stdout);
    let response = read_reply(stdin, ReplyEnd::StatusReport);
    classify_capabilities_reply(response)
}

/// Asks the terminal for its cell size and reads its reply from `stdin` up to the status
/// report.
pub fn has_iterm_support_reportcellsize(stdout: &mut Vec<u8>, stdin: &mut TestKeys) -> (r:
    ViuResult)
    ensures
        final(stdout)@ == old(stdout)@ + cell_size_query_bytes(),
        ({
            let script = old(stdin).pending();
            let n = reply_len(ReplyEnd::StatusReport, script) as int;
            &&& final(stdin).pending() == script.skip(n)
            &&& r is Ok <==> cell_size_ok(script.take(n))
            &&& r is Err ==> (r->Err_0 matches ViuError::ItermResponse(v) && v@ == script.take(n))
        }),
{
    push_cell_size_query(stdout);
    let response = read_reply(stdin, ReplyEnd::StatusReport);
    classify_cell_size_reply(response)
}

/// Whether a terminal program name is one of those known to show inline images.
pub open spec fn names_iterm_program(v: Seq<char>) -> bool {
    ||| seq_contains(v, "iTerm"@)
    ||| seq_contains(v, "WezTerm"@)
    ||| seq_contains(v, "mintty"@)
    ||| seq_contains(v, "rio"@)
    ||| seq_contains(v, "WarpTerminal"@)
}

/// Whether a terminal name from `LC_TERMINAL` is one of those known to show inline images.
pub open spec fn names_iterm_terminal(v: Seq<char>) -> bool {
    ||| seq_contains(v, "iTerm"@)
    ||| seq_contains(v, "WezTerm"@)
    ||| seq_contains(v, "mintty"@)
    ||| seq_contains(v, "rio"@)
}

/// Whether the environment names a terminal that shows inline images: `TERM_PROGRAM` or
/// `LC_TERMINAL` names one, or `KONSOLE_VERSION` is set to something (Konsole has no
/// program name of its own).
pub fn is_iterm_environment(
    term_program: Option<&str>,
    lc_terminal: Option<&str>,
    konsole_version: Option<&str>,
) -> (r: bool)
    ensures
        r == iterm_environment(term_program, lc_terminal, konsole_version),
{
    if let Some(p) = term_program {
        let v = crate::text::chars_of(p);
        if contains_str(v.as_slice(), "iTerm") || contains_str(v.as_slice(), "WezTerm")
            || contains_str(v.as_slice(), "mintty") || contains_str(v.as_slice(), "rio")
            || contains_str(v.as_slice(), "WarpTerminal") {
            return true;
        }
    }
    if let Some(t) = lc_terminal {
        let v = crate::text::chars_of(t);
        if contains_str(v.as_slice(), "iTerm") || contains_str(v.as_slice(), "WezTerm")
            || contains_str(v.as_slice(), "mintty") || contains_str(v.as_slice(), "rio") {
            return true;
        }
    }
    if let Some(k) = konsole_version {
        return k.unicode_len() > 0;
    }
    false
}

/// What shows the image file `content` in `cw` × `ch` cells, keeping its aspect ratio.
pub open spec fn iterm_bytes(content: Seq<u8>, cw: int, ch: int) -> Seq<u8> {
    "\x1b]1337;File=inline=1;preserveAspectRatio=1;size=".spec_bytes() + decimal(
        content.len(),
    ) + ";width=".spec_bytes() + decimal(cw as nat) + ";height=".spec_bytes() + decimal(
        ch as nat,
    ) + ":".spec_bytes() + base64_of(content) + "\x07\n".spec_bytes()
}

/// Shows the image file `img_content`, which holds `img`, in the cells that `find_best_fit`
/// picks for `img`. Returns the size printed, in cells.
pub fn print_buffer(
    out: &mut Vec<u8>,
    img: &Image,
    img_content: &[u8],
    config: &Config,
    term_size: (u16, u16),
) -> (r: ViuResult<(u32, u32)>)
    requires
        img_content@.len() <= isize::MAX,
    ensures
        r is Ok <==> offset_valid(*config),
        r is Err ==> r->Err_0 is InvalidConfiguration && final(out)@ == old(out)@,
        r is Ok ==> {
            let cells = best_fit(
                img.width as int,
                img.height as int,
                config.width,
                config.height,
                config.preserve_aspect_ratio,
                term_size.0 as int,
                term_size.1 as int,
            );
            &&& r == Ok::<(u32, u32), ViuError>((cells.0 as u32, cells.1 as u32))
            &&& final(out)@ == old(out)@ + offset_bytes(*config) + iterm_bytes(
                img_content@,
                cells.0,
                cells.1,
            )
        },
{
    match adjust_offset(out, config) {
        Ok(()) => {},
        Err(e) => {
            return Err(e);
        },
    }
    let ghost start = out@;
    let (w, h) = find_best_fit(
        img,
        config.width,
        config.height,
        config.preserve_aspect_ratio,
        term_size,
    );
    push_str(out, "\x1b]1337;File=inline=1;preserveAspectRatio=1;size=");
    push_decimal(out, img_content.len() as u64);
    push_str(out, ";width=");
    push_decimal(out, w as u64);
    push_str(out, ";height=");
    push_decimal(out, h as u64);
    push_str(out, ":");
    let encoded = base64_encode(img_content);
    push_bytes(out, encoded.as_slice());
    push_str(out, "\x07\n");
    assert(out@ =~= start + iterm_bytes(img_content@, w as int, h as int));
    Ok((w, h))
}

/// The bytes of the PNG file that the image codec writes for an RGBA raster, or nothing
/// where it refuses the raster.
pub uninterp spec fn png_of(pixels: Seq<u8>, width: u32, height: u32) -> Option<Seq<u8>>;

/// Relies on `image::codecs::png::PngEncoder::write_image` for an RGBA8 buffer of the right
/// length: whether it succeeds, and the PNG file it writes, depend on the raster alone; the
/// file is in a `Vec`, which never holds more than `isize::MAX` bytes.
#[verifier::external_body]
fn encode_png(img: &Image) -> (r: Result<Vec<u8>, image::ImageError>)
    requires
        img.wf(),
    ensures
        r is Ok <==> png_of(img.pixels@, img.width, img.height) is Some,
        r matches Ok(bytes) ==> png_of(img.pixels@, img.width, img.height) == Some(bytes@)
            && bytes@.len() <= isize::MAX,
{
    let mut bytes: Vec<u8> = Vec::new();
    let encoder = image::codecs::png::PngEncoder::new(&mut bytes);
    let written = image::ImageEncoder::write_image(
        encoder,
        &img.pixels,
        img.width,
        img.height,
        image::ExtendedColorType::Rgba8,
    );
    written.map(|()| bytes)
}

impl iTermPrinter {
    /// Encodes `img` as PNG and shows it; see `print_buffer`. Nothing is written when the
    /// encoder fails.
    pub fn print(
        &self,
        out: &mut Vec<u8>,
        img: &Image,
        config: &Config,
        term_size: (u16, u16),
    ) -> (r: ViuResult<(u32, u32)>)
        requires
            img.wf(),
        ensures
            ({
                let png = png_of(img.pixels@, img.width, img.height);
                &&& r is Ok <==> png is Some && offset_valid(*config)
                &&& r matches Err(e) ==> final(out)@ == old(out)@ && (if png is None {
                    e is Image
                } else {
                    e is InvalidConfiguration
                })
                &&& r is Ok ==> {
                    let cells = best_fit(
                        img.width as int,
                        img.height as int,
                        config.width,
                        config.height,
                        config.preserve_aspect_ratio,
                        term_size.0 as int,
                        term_size.1 as int,
                    );
                    &&& r == Ok::<(u32, u32), ViuError>((cells.0 as u32, cells.1 as u32))
                    &&& final(out)@ == old(out)@ + offset_bytes(*config) + iterm_bytes(
                        png->0,
                        cells.0,
                        cells.1,
                    )
                }
            }),
    {
        let png = match encode_png(img) {
            Ok(png) => png,
            Err(e) => {
                return Err(ViuError::Image(e));
            },
        };
        print_buffer(out, img, png.as_slice(), config, term_size)
    }
}

/// Where an iTerm support probe stands: the query to send next, the environment left to
/// consult, or the answer.
#[derive(Clone, Copy, Debug, PartialEq, Eq, Structural)]
pub enum ItermProbe {
    /// Send the capabilities query and read up to the status report.
    AskCapabilities,
    /// Send the cell size query and read up to the status report.
    AskCellSize,
    /// Both queries failed: decide by the environment (`is_iterm_environment`).
    AskEnvironment,
    /// The probe is over.
    Done(bool),
}

/// The step after `reply` answered the query of `state`: the cell size query is only owed
/// after the capabilities query failed, and the environment only after both failed.
pub open spec fn iterm_probe_after(state: ItermProbe, reply: Seq<Key>) -> ItermProbe {
    match state {
        ItermProbe::AskCapabilities => if capabilities_ok(reply) {
            ItermProbe::Done(true)
        } else {
            ItermProbe::AskCellSize
        },
        ItermProbe::AskCellSize => if cell_size_ok(reply) {
            ItermProbe::Done(true)
        } else {
            ItermProbe::AskEnvironment
        },
        _ => state,
    }
}

/// Moves the probe on after the terminal's `reply`; see `iterm_probe_after`.
pub fn iterm_probe_next(state: ItermProbe, reply: Vec<Key>) -> (next: ItermProbe)
    ensures
        next == iterm_probe_after(state, reply@),
{
    match state {
        ItermProbe::AskCapabilities => {
            if classify_capabilities_reply(reply).is_ok() {
                ItermProbe::Done(true)
            } else {
                ItermProbe::AskCellSize
            }
        },
        ItermProbe::AskCellSize => {
            if classify_cell_size_reply(reply).is_ok() {
                ItermProbe::Done(true)
            } else {
                ItermProbe::AskEnvironment
            }
        },
        _ => state,
    }
}

/// The environment's part of the decision: whether `TERM_PROGRAM`, `LC_TERMINAL` or
/// `KONSOLE_VERSION` name a terminal that shows inline images.
pub open spec fn iterm_environment(
    term_program: Option<&str>,
    lc_terminal: Option<&str>,
    konsole_version: Option<&str>,
) -> bool {
    (term_program matches Some(p) && names_iterm_program(p@)) || (lc_terminal matches Some(t)
        && names_iterm_terminal(t@)) || (konsole_version matches Some(k) && k@.len() > 0)
}

/// Probes the terminal's iTerm support on the scripted input `stdin`: the capabilities query,
/// then, only if that failed, the cell size query, then, only if that failed too, the
/// environment variables' values given.
pub fn check_iterm_support(
    stdin: &mut TestKeys,
    stdout: &mut Vec<u8>,
    term_program: Option<&str>,
    lc_terminal: Option<&str>,
    konsole_version: Option<&str>,
) -> (r: bool)
    ensures
        ({
            let script = old(stdin).pending();
            let n1 = reply_len(ReplyEnd::StatusReport, script) as int;
            let rest = script.skip(n1);
            let n2 = reply_len(ReplyEnd::StatusReport, rest) as int;
            if capabilities_ok(script.take(n1)) {
                &&& final(stdout)@ == old(stdout)@ + capabilities_query_bytes()
                &&& final(stdin).pending() == rest
                &&& r
            } else {
                &&& final(stdout)@ == old(stdout)@ + capabilities_query_bytes()
                    + cell_size_query_bytes()
                &&& final(stdin).pending() == rest.skip(n2)
                &&& r == (cell_size_ok(rest.take(n2)) || iterm_environment(
                    term_program,
                    lc_terminal,
                    konsole_version,
                ))
            }
        }),
{
    push_capabilities_query(stdout);
    let reply = read_reply(stdin, ReplyEnd::StatusReport);
    let state = iterm_probe_next(ItermProbe::AskCapabilities, reply);
    let state = match state {
        ItermProbe::AskCellSize => {
            push_cell_size_query(stdout);
            let reply = read_reply(stdin, ReplyEnd::StatusReport);
            iterm_probe_next(ItermProbe::AskCellSize, reply)
        },
        _ => state,
    };
    match state {
        ItermProbe::Done(found) => found,
        _ => is_iterm_environment(term_program, lc_terminal, konsole_version),
    }
}

} // verus!
