use vstd::prelude::*;

use crate::error::Application;
use crate::ui::Item;

verus! {

/// Where a scan of a byte stream stands: nesting depth, inside a string or not, after a
/// backslash in a string or not, and whether a bracket has opened.
pub struct Scan {
    pub depth: nat,
    pub in_str: bool,
    pub esc: bool,
    pub opened: bool,
}

/// The scan after one more byte.
pub open spec fn scan_step(s: Scan, b: u8) -> Scan {
    if s.in_str {
        if s.esc {
            Scan { esc: false, ..s }
        } else if b == 92u8 {
            Scan { esc: true, ..s }
        } else if b == 34u8 {
            Scan { in_str: false, ..s }
        } else {
            s
        }
    } else if b == 34u8 {
        Scan { in_str: true, ..s }
    } else if b == 123u8 || b == 91u8 {
        Scan { depth: s.depth + 1, opened: true, ..s }
    } else if b == 125u8 || b == 93u8 {
        Scan {
            depth: if s.depth > 0 {
                (s.depth - 1) as nat
            } else {
                0
            },
            ..s
        }
    } else {
        s
    }
}

/// The scan after the bytes `bs`.
pub open spec fn scan(bs: Seq<u8>) -> Scan
    decreases bs.len(),
{
    if bs.len() == 0 {
        Scan { depth: 0, in_str: false, esc: false, opened: false }
    } else {
        scan_step(scan(bs.drop_last()), bs.last())
    }
}

/// The bytes `bs` end with a complete top-level object or array.
pub open spec fn complete(bs: Seq<u8>) -> bool {
    scan(bs).opened && scan(bs).depth == 0 && !scan(bs).in_str
}

/// Collects the bytes of a response and hands out one complete JSON document at a time,
/// however the transport cut them.
pub struct Framer {
    buf: Vec<u8>,
}

impl View for Framer {
    type V = Seq<u8>;

    closed spec fn view(&self) -> Seq<u8> {
        self.buf@
    }
}

impl Framer {
    /// A framer holding nothing.
    pub fn new() -> (r: Framer)
        ensures
            r@.len() == 0,
    {
        Framer { buf: Vec::new() }
    }

    /// Adds bytes received from the transport.
    pub fn push(&mut self, bytes: &[u8])
        ensures
            final(self)@ == old(self)@ + bytes@,
    {
        let mut i: usize = 0;
        while i < bytes.len()
            invariant
                i <= bytes@.len(),
                self@ == old(self)@ + bytes@.take(i as int),
            decreases bytes@.len() - i,
        {
            self.buf.push(bytes[i]);
            assert(bytes@.take(i + 1) =~= bytes@.take(i as int).push(bytes@[i as int]));
            i += 1;
        }
        assert(bytes@.take(i as int) =~= bytes@);
    }

    /// Takes out the shortest prefix that ends a complete document, if the bytes held
    /// have one; otherwise keeps everything and returns `None`.
    pub fn next_frame(&mut self) -> (r: Option<Vec<u8>>)
        ensures
            r is None ==> final(self)@ == old(self)@ && forall|k: int|
                0 < k <= old(self)@.len() ==> !complete(#[trigger] old(self)@.take(k)),
            r matches Some(f) ==> {
                &&& 0 < f@.len() <= old(self)@.len()
                &&& f@ == old(self)@.take(f@.len() as int)
                &&& final(self)@ == old(self)@.skip(f@.len() as int)
                &&& complete(f@)
                &&& forall|k: int| 0 < k < f@.len() ==> !complete(#[trigger] old(self)@.take(k))
            },
    {
        let n = self.buf.len();
        let mut depth: usize = 0;
        let mut in_str = false;
        let mut esc = false;
        let mut opened = false;
        let mut i: usize = 0;
        assert(self@.take(0) =~= Seq::<u8>::empty());
        while i < n
            invariant
                n == self@.len(),
                self@ == old(self)@,
                i <= n,
                depth <= i,
                scan(self@.take(i as int)) == (Scan {
                    depth: depth as nat,
                    in_str,
                    esc,
                    opened,
                }),
                forall|k: int| 0 < k <= i ==> !complete(#[trigger] self@.take(k)),
            decreases n - i,
        {
            let b = self.buf[i];
            assert(self@.take(i + 1).drop_last() =~= self@.take(i as int));
            if in_str {
                if esc {
                    esc = false;
                } else if b == 92u8 {
                    esc = true;
                } else if b == 34u8 {
                    in_str = false;
                }
            } else if b == 34u8 {
                in_str = true;
            } else if b == 123u8 || b == 91u8 {
                depth = depth + 1;
                opened = true;
            } else if b == 125u8 || b == 93u8 {
                if depth > 0 {
                    depth = depth - 1;
                }
            }
            i += 1;
            if opened && depth == 0 && !in_str {
                let mut frame: Vec<u8> = Vec::new();
                let mut rest: Vec<u8> = Vec::new();
                let mut j: usize = 0;
                while j < n
                    invariant
                        n == self@.len(),
                        self@ == old(self)@,
                        0 < i <= n,
                        j <= n,
                        frame@ == self@.take(if j < i { j as int } else { i as int }),
                        rest@ == (if j < i { Seq::<u8>::empty() } else { self@.subrange(i as int, j as int) }),
                    decreases n - j,
                {
                    if j < i {
                        frame.push(self.buf[j]);
                        assert(self@.take(j + 1) =~= self@.take(j as int).push(self@[j as int]));
                    } else {
                        rest.push(self.buf[j]);
                        assert(self@.subrange(i as int, j + 1) =~= self@.subrange(i as int, j as int).push(self@[j as int]));
                    }
                    j += 1;
                }
                assert(rest@ =~= self@.skip(i as int));
                self.buf = rest;
                return Some(frame);
            }
        }
        None
    }
}

/// What one decoded response object holds: `message.content`,
/// `choices[0].message.content` and `done`, each where present.
#[derive(Debug)]
pub struct Reply {
    pub content: Option<String>,
    pub choice_content: Option<String>,
    pub done: Option<bool>,
}

/// `i` is a chunk with text `t`.
pub open spec fn chunk_of(i: Item, t: Seq<char>) -> bool {
    match i {
        Item::Chunk(x) => x@ == t,
        _ => false,
    }
}

/// The detail of a decode failure, if `i` is one.
pub open spec fn decode_failure(i: Item) -> Option<Seq<char>> {
    match i {
        Item::Failure(Application::JsonParse(d)) => Some(d@),
        _ => None,
    }
}

/// The items to send for one object of a streamed response, and whether the stream ends
/// with it: a chunk for `message.content` if present, then the end if `done` is true.
pub fn stream_step(r: Reply) -> (out: (Vec<Item>, bool))
    ensures
        out.1 == (r.done == Some(true)),
        out.0@.len() == (if r.content is Some { 1int } else { 0 }) + (if out.1 { 1int } else { 0 }),
        r.content is Some ==> chunk_of(out.0@[0], (r.content->0)@),
        out.1 ==> out.0@.last() is End,
{
    let mut items: Vec<Item> = Vec::new();
    let stop = match r.done {
        Some(d) => d,
        None => false,
    };
    match r.content {
        Some(c) => {
            items.push(Item::Chunk(c));
        },
        None => {},
    }
    if stop {
        items.push(Item::End);
    }
    (items, stop)
}

/// The text of a complete (not streamed) response: `message.content`, else
/// `choices[0].message.content`.
pub open spec fn reply_text(r: Reply) -> Option<Seq<char>> {
    match r.content {
        Some(c) => Some(c@),
        None => match r.choice_content {
            Some(c) => Some(c@),
            None => None,
        },
    }
}

/// The items to send for a complete response: its text then the end, or a decode failure
/// when the body did not decode (`Err` with the decoder's message) or holds no text.
pub fn full_reply(r: Result<Reply, String>) -> (out: Vec<Item>)
    ensures
        r is Ok && reply_text(r->Ok_0) is Some ==> out@.len() == 2 && chunk_of(
            out@[0],
            reply_text(r->Ok_0)->0,
        ) && out@[1] is End,
        r is Ok && reply_text(r->Ok_0) is None ==> out@.len() == 1 && decode_failure(out@[0])
            is Some,
        r is Err ==> out@.len() == 1 && decode_failure(out@[0]) == Some((r->Err_0)@),
{
    let mut out: Vec<Item> = Vec::new();
    match r {
        Ok(rep) => {
            let text = match rep.content {
                Some(c) => Some(c),
                None => rep.choice_content,
            };
            match text {
                Some(t) => {
                    out.push(Item::Chunk(t));
                    out.push(Item::End);
                },
                None => {
                    out.push(
                        Item::Failure(
                            Application::JsonParse("response has no message content".to_string()),
                        ),
                    );
                },
            }
        },
        Err(d) => {
            out.push(Item::Failure(Application::JsonParse(d)));
        },
    }
    out
}

} // verus!
