use vstd::prelude::*;
use vstd::string::StringSliceAdditionalSpecFns;

use crate::config::Config;
use crate::error::{ViuError, ViuResult};
use crate::escape::{
    adjust_offset, base64_encode, base64_of, decimal, offset_bytes, offset_valid, push_bytes,
    push_decimal, push_str,
};
use crate::geometry::{best_fit, find_best_fit};
use crate::keys::{esc_seq_is, is_char, read_reply, reply_len, Key, ReplyEnd, TestKeys};
use crate::raster::Image;

verus! {

/// Prints with the Kitty graphics protocol.
pub struct KittyPrinter;

/// How far the terminal supports the Kitty graphics protocol.
#[derive(Clone, Copy, Debug, PartialEq, Eq, Structural)]
pub enum KittySupport {
    /// The protocol is not supported.
    Unsupported,
    /// The terminal runs on this machine: image data can be handed over in a file.
    Local,
    /// The terminal is elsewhere: image data has to travel in escape sequences.
    Remote,
}

/// Whether `k` is the `i`-th key of the reply `ESC _ G i = 3 1 ; O K ESC \`, with which a
/// terminal accepts a graphics query.
pub open spec fn kitty_ok_at(i: int, k: Key) -> bool {
    if i == 0 {
        esc_seq_is(k, seq!['_'])
    } else if i == 9 {
        esc_seq_is(k, seq!['\\'])
    } else {
        k == Key::Char(seq!['G', 'i', '=', '3', '1', ';', 'O', 'K'][i - 1])
    }
}

/// Whether `keys` start with the reply that accepts a graphics query.
pub open spec fn starts_with_kitty_ok(keys: Seq<Key>) -> bool {
    keys.len() >= 10 && forall|i: int| 0 <= i < 10 ==> #[trigger] kitty_ok_at(i, keys[i])
}

fn kitty_ok_at_exec(i: usize, k: &Key) -> (r: bool)
    requires
        i < 10,
    ensures
        r == kitty_ok_at(i as int, *k),
{
    if i == 0 || i == 9 {
        let c = if i == 0 {
            '_'
        } else {
            '\\'
        };
        match k {
            Key::UnknownEscSeq(v) => {
                let r = v.len() == 1 && v[0] == c;
                assert(r ==> v@ =~= seq![c]);
                r
            },
            _ => false,
        }
    } else {
        let expected = ['G', 'i', '=', '3', '1', ';', 'O', 'K'];
        assert(expected@ =~= seq!['G', 'i', '=', '3', '1', ';', 'O', 'K']);
        is_char(k, expected[i - 1])
    }
}

/// Accepts a reply that starts with the graphics acknowledgement; any other reply is an
/// error that carries it.
pub fn classify_kitty_reply(response: Vec<Key>) -> (r: ViuResult)
    ensures
        r is Ok <==> starts_with_kitty_ok(response@),
        r is Err ==> (r->Err_0 matches ViuError::KittyResponse(v) && v@ == response@),
{
    if response.len() < 10 {
        return Err(ViuError::KittyResponse(response));
    }
    let mut i: usize = 0;
    while i < 10
        invariant
            i <= 10,
            response@.len() >= 10,
            forall|j: int| 0 <= j < i ==> #[trigger] kitty_ok_at(j, response@[j]),
        decreases 10 - i,
    {
        if !kitty_ok_at_exec(i, &response[i]) {
            return Err(ViuError::KittyResponse(response));
        }
        i = i + 1;
    }
    Ok(())
}

/// Accepts a reply that is exactly the status report `ESC [ 0 n`.
pub fn classify_status_reply(response: Vec<Key>) -> (r: ViuResult)
    ensures
        r is Ok <==> response@.len() == 1 && esc_seq_is(response@[0], seq!['[', '0', 'n']),
        r is Err ==> (r->Err_0 matches ViuError::KittyResponse(v) && v@ == response@),
{
    if response.len() == 1 && crate::keys::is_status_ok(&response[0]) {
        Ok(())
    } else {
        Err(ViuError::KittyResponse(response))
    }
}

/// The query for inline images (a one-pixel image that is checked but not shown), followed
/// by a primary device attributes request that every terminal answers.
pub open spec fn remote_query_bytes() -> Seq<u8> {
    "\x1b_Gi=31,s=1,v=1,a=q,t=d,f=24;AAAA\x1b\\".spec_bytes() + "\x1b[c".spec_bytes()
}

/// The query for images read from the file at `path`.
pub open spec fn local_query_bytes(path: Seq<u8>) -> Seq<u8> {
    "\x1b_Gi=31,s=1,v=1,a=q,t=t;".spec_bytes() + base64_of(path) + "\x1b\\".spec_bytes()
}

/// The device status report request.
pub open spec fn status_query_bytes() -> Seq<u8> {
    "\x1b[5n".spec_bytes()
}

/// Appends the query for inline images; see `remote_query_bytes`.
pub fn push_remote_query(out: &mut Vec<u8>)
    ensures
        final(out)@ == old(out)@ + remote_query_bytes(),
{
    push_str(out, "\x1b_Gi=31,s=1,v=1,a=q,t=d,f=24;AAAA\x1b\\");
    push_str(out, "\x1b[c");
    assert(out@ =~= old(out)@ + remote_query_bytes());
}

/// Appends the query for images read from the file at `path`.
pub fn push_local_query(out: &mut Vec<u8>, path: &str)
    requires
        path.spec_bytes().len() <= isize::MAX,
    ensures
        final(out)@ == old(out)@ + local_query_bytes(path.spec_bytes()),
{
    push_str(out, "\x1b_Gi=31,s=1,v=1,a=q,t=t;");
    let encoded = base64_encode(path.as_bytes());
    push_bytes(out, encoded.as_slice());
    push_str(out, "\x1b\\");
    assert(out@ =~= old(out)@ + local_query_bytes(path.spec_bytes()));
}

/// Appends the device status report request; see `status_query_bytes`.
pub fn push_status_query(out: &mut Vec<u8>)
    ensures
        final(out)@ == old(out)@ + status_query_bytes(),
{
    push_str(out, "\x1b[5n");
}

/// Asks whether the terminal shows inline images, and reads its reply from `stdin` up to the
/// end of the device attributes reply.
pub fn has_remote_support(stdin: &mut TestKeys, stdout: &mut Vec<u8>) -> (r: ViuResult)
    ensures
        final(stdout)@ == old(stdout)@ + remote_query_bytes(),
        ({
            let script = old(stdin).pending();
            let n = reply_len(ReplyEnd::DeviceAttributes, script) as int;
            &&& final(stdin).pending() == script.skip(n)
            &&& r is Ok <==> starts_with_kitty_ok(script.take(n))
            &&& r is Err ==> (r->Err_0 matches ViuError::KittyResponse(v) && v@ == script.take(n))
        }),
{
    push_remote_query(stdout);
    let response = read_reply(stdin, ReplyEnd::DeviceAttributes);
    classify_kitty_reply(response)
}

/// Asks whether the terminal shows an image from the file at `path`, and reads its reply
/// from `stdin` up to the string terminator. Only ask after `has_remote_support` succeeded:
/// a terminal without the protocol never answers this query.
pub fn has_local_support(stdin: &mut TestKeys, stdout: &mut Vec<u8>, path: &str) -> (r: ViuResult)
    requires
        path.spec_bytes().len() <= isize::MAX,
    ensures
        final(stdout)@ == old(stdout)@ + local_query_bytes(path.spec_bytes()),
        ({
            let script = old(stdin).pending();
            let n = reply_len(ReplyEnd::StringTerminator, script) as int;
            &&& final(stdin).pending() == script.skip(n)
            &&& r is Ok <==> starts_with_kitty_ok(script.take(n))
            &&& r is Err ==> (r->Err_0 matches ViuError::KittyResponse(v) && v@ == script.take(n))
        }),
{
    push_local_query(stdout, path);
    let response = read_reply(stdin, ReplyEnd::StringTerminator);
    classify_kitty_reply(response)
}

/// Sends a device status report request and waits for its reply, so that the terminal has
/// read an image file before the file is removed.
pub fn wait_for_dsr(stdin: &mut TestKeys, stdout: &mut Vec<u8>) -> (r: ViuResult)
    ensures
        final(stdout)@ == old(stdout)@ + status_query_bytes(),
        ({
            let script = old(stdin).pending();
            let n = reply_len(ReplyEnd::StatusReport, script) as int;
            let reply = script.take(n);
            &&& final(stdin).pending() == script.skip(n)
            &&& r is Ok <==> reply.len() == 1 && esc_seq_is(reply[0], seq!['[', '0', 'n'])
            &&& r is Err ==> (r->Err_0 matches ViuError::KittyResponse(v) && v@ == reply)
        }),
{
    push_status_query(stdout);
    let response = read_reply(stdin, ReplyEnd::StatusReport);
    classify_status_reply(response)
}

/// The escape sequences that carry `data` after its first chunk: one for each further chunk
/// of at most 4096 bytes, from byte `from` on, each saying whether more chunks follow.
pub open spec fn kitty_chunks(data: Seq<u8>, from: int) -> Seq<u8>
    decreases data.len() - from,
{
    if from >= data.len() || from < 0 {
        Seq::empty()
    } else {
        let end = if from + 4096 < data.len() {
            from + 4096
        } else {
            data.len() as int
        };
        "\x1b_Gm=".spec_bytes() + (if end < data.len() {
            "1".spec_bytes()
        } else {
            "0".spec_bytes()
        }) + ";".spec_bytes() + data.subrange(from, end) + "\x1b\\".spec_bytes() + kitty_chunks(
            data,
            end,
        )
    }
}

/// The size keys of a transmission: the image's `w` × `h` pixels and the `cw` × `ch` cells it
/// is shown in.
pub open spec fn size_fields(w: int, h: int, cw: int, ch: int) -> Seq<u8> {
    decimal(w as nat) + ",v=".spec_bytes() + decimal(h as nat) + ",c=".spec_bytes() + decimal(
        cw as nat,
    ) + ",r=".spec_bytes() + decimal(ch as nat)
}

/// What transmits an image of `w` × `h` pixels, shown in `cw` × `ch` cells, whose encoded
/// RGBA data is `data`: a first sequence that describes the image and carries the first 4096
/// bytes, then `kitty_chunks`.
pub open spec fn kitty_remote_bytes(w: int, h: int, cw: int, ch: int, data: Seq<u8>) -> Seq<u8> {
    let first = if data.len() < 4096 {
        data.len() as int
    } else {
        4096
    };
    "\x1b_Gf=32,a=T,t=d,s=".spec_bytes() + size_fields(w, h, cw, ch)
        + ",m=1;".spec_bytes() + data.subrange(0, first) + "\x1b\\".spec_bytes() + kitty_chunks(
        data,
        first,
    )
}

/// What shows an image of `w` × `h` pixels in `cw` × `ch` cells from the file at `path`.
pub open spec fn kitty_local_bytes(w: int, h: int, cw: int, ch: int, path: Seq<u8>) -> Seq<u8> {
    "\x1b_Gf=32,s=".spec_bytes() + size_fields(w, h, cw, ch)
        + ",a=T,t=t;".spec_bytes() + base64_of(path) + "\x1b\\".spec_bytes()
}

fn push_size_fields(out: &mut Vec<u8>, w: u32, h: u32, cw: u32, ch: u32)
    ensures
        final(out)@ == old(out)@ + size_fields(w as int, h as int, cw as int, ch as int),
{
    push_decimal(out, w as u64);
    push_str(out, ",v=");
    push_decimal(out, h as u64);
    push_str(out, ",c=");
    push_decimal(out, cw as u64);
    push_str(out, ",r=");
    push_decimal(out, ch as u64);
    assert(out@ =~= old(out)@ + size_fields(w as int, h as int, cw as int, ch as int));
}

fn push_chunks(out: &mut Vec<u8>, data: &Vec<u8>, from: usize)
    requires
        from <= data@.len(),
    ensures
        final(out)@ == old(out)@ + kitty_chunks(data@, from as int),
{
    let len = data.len();
    let mut pos = from;
    let ghost target = old(out)@ + kitty_chunks(data@, from as int);
    while pos < len
        invariant
            len == data@.len(),
            from <= pos <= len,
            target == out@ + kitty_chunks(data@, pos as int),
        decreases len - pos,
    {
        let end = if len - pos > 4096 {
            pos + 4096
        } else {
            len
        };
        let ghost before = out@;
        push_str(out, "\x1b_Gm=");
        if end < len {
            push_str(out, "1");
        } else {
            push_str(out, "0");
        }
        push_str(out, ";");
        push_bytes(out, &data.as_slice()[pos..end]);
        push_str(out, "\x1b\\");
        assert(before + kitty_chunks(data@, pos as int) =~= out@ + kitty_chunks(
            data@,
            end as int,
        ));
        pos = end;
    }
    assert(out@ =~= target);
}

#[verifier::rlimit(30)]
fn push_remote_sequences(out: &mut Vec<u8>, w: u32, h: u32, cw: u32, ch: u32, data: &Vec<u8>)
    ensures
        final(out)@ == old(out)@ + kitty_remote_bytes(
            w as int,
            h as int,
            cw as int,
            ch as int,
            data@,
        ),
{
    let first = if data.len() < 4096 {
        data.len()
    } else {
        4096
    };
    let ghost fields = size_fields(w as int, h as int, cw as int, ch as int);
    push_str(out, "\x1b_Gf=32,a=T,t=d,s=");
    push_size_fields(out, w, h, cw, ch);
    push_str(out, ",m=1;");
    let ghost head = out@;
    assert(head =~= old(out)@ + "\x1b_Gf=32,a=T,t=d,s=".spec_bytes() + fields + ",m=1;".spec_bytes());
    push_bytes(out, &data.as_slice()[0..first]);
    push_str(out, "\x1b\\");
    let ghost first_chunk = out@;
    assert(first_chunk =~= head + data@.subrange(0, first as int) + "\x1b\\".spec_bytes());
    push_chunks(out, data, first);
    assert(out@ =~= old(out)@ + kitty_remote_bytes(w as int, h as int, cw as int, ch as int, data@));
}

impl KittyPrinter {
    /// Sends the image's RGBA data through escape sequences, base64 encoded and cut into
    /// chunks; see `kitty_remote_bytes`. Returns the size printed, in cells.
    pub fn print_remote(
        &self,
        out: &mut Vec<u8>,
        img: &Image,
        config: &Config,
        term_size: (u16, u16),
    ) -> (r: ViuResult<(u32, u32)>)
        requires
            img.wf(),
            img.pixels@.len() <= isize::MAX,
        ensures
            r is Ok <==> offset_valid(*config),
            r is Err ==> r->Err_0 is InvalidConfiguration && final(out)@ == old(out)@,
            r is Ok ==> {
                let cells = best_fit(
                    img.width as int,
                    img.height as int,
                    config.width,
                    config.height,
                    config.preserve_aspect_ratio,
                    term_size.0 as int,
                    term_size.1 as int,
                );
                &&& r == Ok::<(u32, u32), ViuError>((cells.0 as u32, cells.1 as u32))
                &&& final(out)@ == old(out)@ + offset_bytes(*config) + kitty_remote_bytes(
                    img.width as int,
                    img.height as int,
                    cells.0,
                    cells.1,
                    base64_of(img.pixels@),
                )
            },
    {
        let encoded = base64_encode(img.pixels.as_slice());
        match adjust_offset(out, config) {
            Ok(()) => {},
            Err(e) => {
                return Err(e);
            },
        }
        let (w, h) = find_best_fit(
            img,
            config.width,
            config.height,
            config.preserve_aspect_ratio,
            term_size,
        );
        push_remote_sequences(out, img.width, img.height, w, h, &encoded);
        Ok((w, h))
    }

    /// Shows the image from the file at `path`, which holds its RGBA data (see
    /// `kitty_local_bytes`), then asks for a device status report. Returns the size printed,
    /// in cells. The caller reads the status reply before it removes the file: once the
    /// terminal answers, it has read the file.
    pub fn print_local(
        &self,
        out: &mut Vec<u8>,
        img: &Image,
        config: &Config,
        term_size: (u16, u16),
        path: &str,
    ) -> (r: ViuResult<(u32, u32)>)
        requires
            path.spec_bytes().len() <= isize::MAX,
        ensures
            r is Ok <==> offset_valid(*config),
            r is Err ==> r->Err_0 is InvalidConfiguration && final(out)@ == old(out)@,
            r is Ok ==> {
                let cells = best_fit(
                    img.width as int,
                    img.height as int,
                    config.width,
                    config.height,
                    config.preserve_aspect_ratio,
                    term_size.0 as int,
                    term_size.1 as int,
                );
                &&& r == Ok::<(u32, u32), ViuError>((cells.0 as u32, cells.1 as u32))
                &&& final(out)@ == old(out)@ + offset_bytes(*config) + kitty_local_bytes(
                    img.width as int,
                    img.height as int,
                    cells.0,
                    cells.1,
                    path.spec_bytes(),
                ) + status_query_bytes()
            },
    {
        match adjust_offset(out, config) {
            Ok(()) => {},
            Err(e) => {
                return Err(e);
            },
        }
        let ghost start = out@;
        let (w, h) = find_best_fit(
            img,
            config.width,
            config.height,
            config.preserve_aspect_ratio,
            term_size,
        );
        push_str(out, "\x1b_Gf=32,s=");
        push_size_fields(out, img.width, img.height, w, h);
        push_str(out, ",a=T,t=t;");
        let encoded = base64_encode(path.as_bytes());
        push_bytes(out, encoded.as_slice());
        push_str(out, "\x1b\\");
        assert(out@ =~= start + kitty_local_bytes(
            img.width as int,
            img.height as int,
            w as int,
            h as int,
            path.spec_bytes(),
        ));
        push_status_query(out);
        Ok((w, h))
    }
}

/// Ends the line after an image `width` cells wide, unless the image reaches the right edge
/// of a terminal `term_width` columns wide: there the terminal has already moved the cursor
/// to the next line.
pub fn print_newline(out: &mut Vec<u8>, config: &Config, width: u32, term_width: u16)
    ensures
        config.x + width < term_width ==> final(out)@ == old(out)@ + "\n".spec_bytes(),
        config.x + width >= term_width ==> final(out)@ == old(out)@,
{
    if (config.x as u64) + (width as u64) < term_width as u64 {
        push_str(out, "\n");
    }
}

/// Where a Kitty support probe stands: the query to send next, or the support found.
#[derive(Clone, Copy, Debug, PartialEq, Eq, Structural)]
pub enum KittyProbe {
    /// Send the inline image query (`push_remote_query`) and read up to the device attributes
    /// reply.
    AskRemote,
    /// Send the file query (`push_local_query`) and read up to the string terminator.
    AskLocal,
    /// The probe is over.
    Done(KittySupport),
}

/// The step after `reply` answered the query of `state`: the file query is only owed after
/// the inline query was accepted.
pub open spec fn kitty_probe_after(state: KittyProbe, reply: Seq<Key>) -> KittyProbe {
    match state {
        KittyProbe::AskRemote => if starts_with_kitty_ok(reply) {
            KittyProbe::AskLocal
        } else {
            KittyProbe::Done(KittySupport::Unsupported)
        },
        KittyProbe::AskLocal => if starts_with_kitty_ok(reply) {
            KittyProbe::Done(KittySupport::Local)
        } else {
            KittyProbe::Done(KittySupport::Remote)
        },
        KittyProbe::Done(s) => KittyProbe::Done(s),
    }
}

/// Moves the probe on after the terminal's `reply`; see `kitty_probe_after`.
pub fn kitty_probe_next(state: KittyProbe, reply: Vec<Key>) -> (next: KittyProbe)
    ensures
        next == kitty_probe_after(state, reply@),
{
    match state {
        KittyProbe::Done(s) => KittyProbe::Done(s),
        KittyProbe::AskRemote => {
            if classify_kitty_reply(reply).is_ok() {
                KittyProbe::AskLocal
            } else {
                KittyProbe::Done(KittySupport::Unsupported)
            }
        },
        KittyProbe::AskLocal => {
            if classify_kitty_reply(reply).is_ok() {
                KittyProbe::Done(KittySupport::Local)
            } else {
                KittyProbe::Done(KittySupport::Remote)
            }
        },
    }
}

/// Probes the terminal's Kitty support on the scripted input `stdin`: the inline query, then,
/// only if the terminal accepted it, the query for the file at `path`.
pub fn check_kitty_support(stdin: &mut TestKeys, stdout: &mut Vec<u8>, path: &str) -> (r:
    KittySupport)
    requires
        path.spec_bytes().len() <= isize::MAX,
    ensures
        ({
            let script = old(stdin).pending();
            let n1 = reply_len(ReplyEnd::DeviceAttributes, script) as int;
            let rest = script.skip(n1);
            let n2 = reply_len(ReplyEnd::StringTerminator, rest) as int;
            if starts_with_kitty_ok(script.take(n1)) {
                &&& final(stdout)@ == old(stdout)@ + remote_query_bytes() + local_query_bytes(
                    path.spec_bytes(),
                )
                &&& final(stdin).pending() == rest.skip(n2)
                &&& r == (if starts_with_kitty_ok(rest.take(n2)) {
                    KittySupport::Local
                } else {
                    KittySupport::Remote
                })
            } else {
                &&& final(stdout)@ == old(stdout)@ + remote_query_bytes()
                &&& final(stdin).pending() == rest
                &&& r == KittySupport::Unsupported
            }
        }),
{
    push_remote_query(stdout);
    let reply = read_reply(stdin, ReplyEnd::DeviceAttributes);
    match kitty_probe_next(KittyProbe::AskRemote, reply) {
        KittyProbe::AskLocal => {
            push_local_query(stdout, path);
            let reply = read_reply(stdin, ReplyEnd::StringTerminator);
            match kitty_probe_next(KittyProbe::AskLocal, reply) {
                KittyProbe::Done(support) => support,
                _ => KittySupport::Remote,
            }
        },
        _ => KittySupport::Unsupported,
    }
}

} // verus!
