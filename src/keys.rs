use vstd::prelude::*;

verus! {

/// A key event read from the terminal: a character, an escape sequence that was not
/// recognised as a key, or one of the named keys.
#[derive(Clone, Debug, PartialEq, Eq)]
pub enum Key {
    Unknown,
    /// An escape sequence, without the leading escape.
    UnknownEscSeq(Vec<char>),
    ArrowLeft,
    ArrowRight,
    ArrowUp,
    ArrowDown,
    Enter,
    Escape,
    Backspace,
    Home,
    End,
    Tab,
    BackTab,
    Alt,
    Del,
    Shift,
    Insert,
    PageUp,
    PageDown,
    Char(char),
    CtrlC,
}

/// Whether `k` is the escape sequence whose characters after the escape are `s`.
pub open spec fn esc_seq_is(k: Key, s: Seq<char>) -> bool {
    k matches Key::UnknownEscSeq(v) && v@ == s
}

/// Whether `k` opens a primary device attributes reply, `ESC [ ?`.
pub open spec fn opens_attributes(k: Key) -> bool {
    k matches Key::UnknownEscSeq(v) && v@.len() >= 2 && v@[0] == '[' && v@[1] == '?'
}

/// Whether a device attributes reply has started among `keys`.
pub open spec fn seen_attributes(keys: Seq<Key>) -> bool {
    exists|j: int| 0 <= j < keys.len() && #[trigger] opens_attributes(keys[j])
}

/// The reply that a probe waits for, which decides the key that ends it.
#[derive(Clone, Copy, Debug, PartialEq, Eq, Structural)]
pub enum ReplyEnd {
    /// The primary device attributes reply: a `c` after `ESC [ ?`.
    DeviceAttributes,
    /// A reply closed by the string terminator `ESC \`.
    StringTerminator,
    /// The device status report reply `ESC [ 0 n`.
    StatusReport,
}

/// Whether the last of `keys` ends a reply of the kind `end`. A key that the terminal could
/// not read ends every reply, so that a probe of something that is not a terminal stops.
pub open spec fn ends_reply(end: ReplyEnd, keys: Seq<Key>) -> bool {
    let k = keys.last();
    ||| k is Unknown
    ||| match end {
        ReplyEnd::DeviceAttributes => seen_attributes(keys) && k == Key::Char('c'),
        ReplyEnd::StringTerminator => esc_seq_is(k, seq!['\\']),
        ReplyEnd::StatusReport => esc_seq_is(k, seq!['[', '0', 'n']),
    }
}

/// How many of `keys`, from the `i`-th on, a reply of the kind `end` takes up: up to and
/// including the first key that ends it, or all of them.
pub open spec fn reply_len_from(end: ReplyEnd, keys: Seq<Key>, i: nat) -> nat
    decreases keys.len() - i,
{
    if i >= keys.len() {
        keys.len()
    } else if ends_reply(end, keys.take((i + 1) as int)) {
        i + 1
    } else {
        reply_len_from(end, keys, i + 1)
    }
}

/// How many of `keys` a reply of the kind `end` takes up.
pub open spec fn reply_len(end: ReplyEnd, keys: Seq<Key>) -> nat {
    reply_len_from(end, keys, 0)
}

pub fn is_unknown(k: &Key) -> (r: bool)
    ensures
        r == k is Unknown,
{
    match k {
        Key::Unknown => true,
        _ => false,
    }
}

pub fn is_char(k: &Key, c: char) -> (r: bool)
    ensures
        r == (*k == Key::Char(c)),
{
    match k {
        Key::Char(x) => *x == c,
        _ => false,
    }
}

fn is_string_terminator(k: &Key) -> (r: bool)
    ensures
        r == esc_seq_is(*k, seq!['\\']),
{
    match k {
        Key::UnknownEscSeq(v) => {
            let r = v.len() == 1 && v[0] == '\\';
            assert(r ==> v@ =~= seq!['\\']);
            r
        },
        _ => false,
    }
}

/// Whether `k` is the reply to a device status report, `ESC [ 0 n`.
pub fn is_status_ok(k: &Key) -> (r: bool)
    ensures
        r == esc_seq_is(*k, seq!['[', '0', 'n']),
{
    match k {
        Key::UnknownEscSeq(v) => {
            let r = v.len() == 3 && v[0] == '[' && v[1] == '0' && v[2] == 'n';
            assert(r ==> v@ =~= seq!['[', '0', 'n']);
            r
        },
        _ => false,
    }
}

fn is_attributes_start(k: &Key) -> (r: bool)
    ensures
        r == opens_attributes(*k),
{
    match k {
        Key::UnknownEscSeq(v) => v.len() >= 2 && v[0] == '[' && v[1] == '?',
        _ => false,
    }
}

/// Gathers the keys of a terminal's reply to a probe until the key that ends it.
pub struct ReplyCollector {
    end: ReplyEnd,
    response: Vec<Key>,
    attributes: bool,
}

impl ReplyCollector {
    pub closed spec fn end(&self) -> ReplyEnd {
        self.end
    }

    /// The keys gathered so far.
    pub closed spec fn keys(&self) -> Seq<Key> {
        self.response@
    }

    pub closed spec fn wf(&self) -> bool {
        self.attributes == seen_attributes(self.response@)
    }

    /// A collector for a reply of the kind `end`, with no keys yet.
    pub fn new(end: ReplyEnd) -> (c: ReplyCollector)
        ensures
            c.wf(),
            c.end() == end,
            c.keys() == Seq::<Key>::empty(),
    {
        ReplyCollector { end, response: Vec::new(), attributes: false }
    }

    /// Adds the next key of the reply; returns whether it ends the reply.
    pub fn push(&mut self, key: Key) -> (done: bool)
        requires
            old(self).wf(),
        ensures
            final(self).wf(),
            final(self).end() == old(self).end(),
            final(self).keys() == old(self).keys().push(key),
            done == ends_reply(old(self).end(), final(self).keys()),
    {
        let unknown = is_unknown(&key);
        let opens = is_attributes_start(&key);
        let done = unknown || match self.end {
            ReplyEnd::DeviceAttributes => (self.attributes || opens) && is_char(&key, 'c'),
            ReplyEnd::StringTerminator => is_string_terminator(&key),
            ReplyEnd::StatusReport => is_status_ok(&key),
        };
        let ghost before = self.response@;
        self.response.push(key);
        proof {
            let keys = self.response@;
            if opens {
                assert(opens_attributes(keys[keys.len() - 1]));
            }
            if seen_attributes(before) {
                let j = choose|j: int| 0 <= j < before.len() && #[trigger] opens_attributes(before[j]);
                assert(opens_attributes(keys[j]));
            }
            if seen_attributes(keys) && !opens {
                let j = choose|j: int| 0 <= j < keys.len() && #[trigger] opens_attributes(keys[j]);
                assert(j < before.len());
                assert(opens_attributes(before[j]));
            }
        }
        self.attributes = self.attributes || opens;
        done
    }

    /// The keys gathered.
    pub fn into_response(self) -> (r: Vec<Key>)
        ensures
            r@ == self.keys(),
    {
        self.response
    }
}

/// A scripted terminal input that hands out its keys in order and fails once they are all
/// read.
pub struct TestKeys {
    reversed: Vec<Key>,
}

impl TestKeys {
    /// The keys that have not been read yet, in order.
    pub closed spec fn pending(&self) -> Seq<Key> {
        Seq::new(self.reversed@.len(), |i: int| self.reversed@[self.reversed@.len() - 1 - i])
    }

    /// A script of the keys `data`.
    pub fn new(data: Vec<Key>) -> (t: TestKeys)
        ensures
            t.pending() == data@,
    {
        let mut data = data;
        let ghost all = data@;
        let mut reversed: Vec<Key> = Vec::new();
        while data.len() > 0
            invariant
                data@.len() + reversed@.len() == all.len(),
                data@ == all.take(data@.len() as int),
                forall|i: int|
                    0 <= i < reversed@.len() ==> reversed@[i] == all[all.len() - 1 - i],
            decreases data@.len(),
        {
            let k = data.pop().unwrap();
            reversed.push(k);
        }
        let t = TestKeys { reversed };
        assert(t.pending() =~= all);
        t
    }

    /// Whether every key of the script has been read.
    pub fn reached_end(&self) -> (r: bool)
        ensures
            r == (self.pending().len() == 0),
    {
        self.reversed.len() == 0
    }

    /// The next key, or nothing once the script is exhausted.
    pub fn read_key(&mut self) -> (r: Option<Key>)
        ensures
            ({
                let before = old(self).pending();
                let after = final(self).pending();
                &&& before.len() == 0 ==> r is None && after == before
                &&& before.len() > 0 ==> r == Some(before[0]) && after == before.drop_first()
            }),
    {
        let r = self.reversed.pop();
        assert(self.pending() =~= if old(self).pending().len() == 0 {
            old(self).pending()
        } else {
            old(self).pending().drop_first()
        });
        r
    }
}

/// Reads from `stdin` the keys of a reply of the kind `end`: up to and including the key
/// that ends it, or until the script runs out.
pub fn read_reply(stdin: &mut TestKeys, end: ReplyEnd) -> (response: Vec<Key>)
    ensures
        response@ == old(stdin).pending().take(reply_len(end, old(stdin).pending()) as int),
        final(stdin).pending() == old(stdin).pending().skip(
            reply_len(end, old(stdin).pending()) as int,
        ),
{
    let ghost script = stdin.pending();
    let mut collector = ReplyCollector::new(end);
    let ghost mut i: nat = 0;
    loop
        invariant_except_break
            i <= script.len(),
            collector.wf(),
            collector.end() == end,
            collector.keys() == script.take(i as int),
            stdin.pending() == script.skip(i as int),
            reply_len(end, script) == reply_len_from(end, script, i),
        ensures
            collector.keys() == script.take(reply_len(end, script) as int),
            stdin.pending() == script.skip(reply_len(end, script) as int),
        decreases script.len() - i,
    {
        match stdin.read_key() {
            Some(key) => {
                proof {
                    assert(script.skip(i as int)[0] == script[i as int]);
                    assert(stdin.pending() =~= script.skip((i + 1) as int));
                }
                let done = collector.push(key);
                proof {
                    assert(collector.keys() =~= script.take((i + 1) as int));
                    i = i + 1;
                }
                if done {
                    break;
                }
            },
            None => {
                proof {
                    assert(i == script.len());
                }
                break;
            },
        }
    }
    collector.into_response()
}

} // verus!
