use vstd::prelude::*;

use crate::text::push_char;
use crate::ui::{InputMode, Role};
use crate::wrap::{wrap, wrap_text};

verus! {

broadcast use vstd::string::group_string_axioms;

/// One screen line of a transcript entry: the lead (the role's prefix on the first line,
/// as many spaces on the others) and the wrapped text.
#[derive(Debug)]
pub struct Line {
    pub lead: String,
    pub body: String,
}

/// A transcript entry as drawn.
#[derive(Debug)]
pub struct ListEntry {
    pub role: Role,
    pub lines: Vec<Line>,
}

/// A piece of the help line; `bold` marks a key name.
#[derive(Debug)]
pub struct Span {
    pub text: String,
    pub bold: bool,
}

/// Everything a frame shows, as plain values.
#[derive(Debug)]
pub struct Frame {
    pub items: Vec<ListEntry>,
    pub selected: Option<usize>,
    pub input: String,
    pub mode: InputMode,
    pub h_scroll: usize,
    /// The composer's input is wider than its text area.
    pub show_h_scrollbar: bool,
    /// Column of the cursor, counted from the composer's left edge, while editing.
    pub cursor: Option<usize>,
    pub help: Vec<Span>,
}

/// The prefix that marks each role.
pub open spec fn prefix(role: Role) -> Seq<char> {
    match role {
        Role::User => "You: "@,
        Role::Assistant => "AI: "@,
        Role::System => ""@,
    }
}

/// `n` spaces.
pub open spec fn blanks(n: nat) -> Seq<char> {
    Seq::new(n, |i: int| ' ')
}

/// The width left for text beside a prefix of `p` characters, at least one.
pub open spec fn body_width(p: nat, width: nat) -> nat {
    if width > p {
        (width - p) as nat
    } else {
        1
    }
}

/// The lead of line `k` of an entry.
pub open spec fn lead(role: Role, k: int) -> Seq<char> {
    if k == 0 {
        prefix(role)
    } else {
        blanks(prefix(role).len())
    }
}

/// The wrapped lines of an entry with role `role` and text `text` in a list `width` wide.
pub open spec fn entry_lines(role: Role, text: Seq<char>, width: nat) -> Seq<Seq<char>> {
    wrap(text, body_width(prefix(role).len(), width))
}

/// `e` shows `text` for `role` in a list `width` wide.
pub open spec fn shows(e: ListEntry, role: Role, text: Seq<char>, width: nat) -> bool {
    &&& e.role == role
    &&& e.lines@.len() == entry_lines(role, text, width).len()
    &&& forall|k: int|
        0 <= k < e.lines@.len() ==> (#[trigger] e.lines@[k]).lead@ == lead(role, k)
            && e.lines@[k].body@ == entry_lines(role, text, width)[k]
}

/// The help line of each mode.
pub open spec fn help(mode: InputMode) -> Seq<(Seq<char>, bool)> {
    match mode {
        InputMode::Normal => seq![
            ("Press "@, false),
            ("q"@, true),
            (" to exit, "@, false),
            ("e"@, true),
            (" to start editing"@, false),
        ],
        InputMode::Editing => seq![
            ("Press "@, false),
            ("Esc"@, true),
            (" to stop editing, "@, false),
            ("Enter"@, true),
            (" to send the message"@, false),
        ],
        InputMode::Waiting => seq![("Press "@, false), ("Esc"@, true), (" to cancel request"@, false)],
    }
}

/// The text and weight of each span.
pub open spec fn spans_view(s: Seq<Span>) -> Seq<(Seq<char>, bool)> {
    s.map_values(|x: Span| (x.text@, x.bold))
}

/// The prefix of `role`, and its length.
pub fn prefix_of(role: Role) -> (r: (String, usize))
    ensures
        r.0@ == prefix(role),
        r.1 == prefix(role).len(),
{
    proof {
        reveal_strlit("You: ");
        reveal_strlit("AI: ");
        reveal_strlit("");
    }
    match role {
        Role::User => ("You: ".to_string(), 5),
        Role::Assistant => ("AI: ".to_string(), 4),
        Role::System => ("".to_string(), 0),
    }
}

/// A string of `n` spaces.
pub fn spaces(n: usize) -> (r: String)
    ensures
        r@ == blanks(n as nat),
{
    let mut s = String::new();
    let mut i: usize = 0;
    while i < n
        invariant
            i <= n,
            s@ == blanks(i as nat),
        decreases n - i,
    {
        push_char(&mut s, ' ');
        assert(blanks((i + 1) as nat) =~= blanks(i as nat).push(' '));
        i += 1;
    }
    s
}

/// Lays out one transcript entry: `text` wrapped beside the role's prefix, further lines
/// indented by the prefix's width.
pub fn render_turn(role: Role, text: &str, width: usize) -> (e: ListEntry)
    ensures
        shows(e, role, text@, width as nat),
{
    let (pre, plen) = prefix_of(role);
    let bw = if width > plen {
        width - plen
    } else {
        1
    };
    let wrapped = wrap_text(text, bw);
    let ghost wl = entry_lines(role, text@, width as nat);
    assert(wl == crate::wrap::views(wrapped@));
    let mut lines: Vec<Line> = Vec::new();
    let mut k: usize = 0;
    while k < wrapped.len()
        invariant
            k <= wrapped@.len(),
            wl == crate::wrap::views(wrapped@),
            pre@ == prefix(role),
            plen == prefix(role).len(),
            lines@.len() == k,
            forall|j: int|
                0 <= j < k ==> (#[trigger] lines@[j]).lead@ == lead(role, j) && lines@[j].body@
                    == wl[j],
        decreases wrapped@.len() - k,
    {
        let lead_text = if k == 0 {
            pre.clone()
        } else {
            spaces(plen)
        };
        let body = wrapped[k].clone();
        lines.push(Line { lead: lead_text, body });
        k += 1;
    }
    ListEntry { role, lines }
}

/// A span of the help line.
fn span(text: &str, bold: bool) -> (r: Span)
    ensures
        r.text@ == text@,
        r.bold == bold,
{
    Span { text: text.to_string(), bold }
}

/// The help line for `mode`.
pub fn help_spans(mode: InputMode) -> (r: Vec<Span>)
    ensures
        spans_view(r@) == help(mode),
{
    let mut v: Vec<Span> = Vec::new();
    match mode {
        InputMode::Normal => {
            v.push(span("Press ", false));
            v.push(span("q", true));
            v.push(span(" to exit, ", false));
            v.push(span("e", true));
            v.push(span(" to start editing", false));
        },
        InputMode::Editing => {
            v.push(span("Press ", false));
            v.push(span("Esc", true));
            v.push(span(" to stop editing, ", false));
            v.push(span("Enter", true));
            v.push(span(" to send the message", false));
        },
        InputMode::Waiting => {
            v.push(span("Press ", false));
            v.push(span("Esc", true));
            v.push(span(" to cancel request", false));
        },
    }
    assert(spans_view(v@) =~= help(mode));
    v
}

} // verus!
