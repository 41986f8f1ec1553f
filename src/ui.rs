use vstd::prelude::*;

use crate::error::{friendly, Application};
use crate::render::{help, help_spans, render_turn, shows, spans_view, Frame, ListEntry};
use crate::text::{push_char, string_of};

verus! {

broadcast use vstd::string::group_string_axioms;

/// Who wrote a turn of the transcript.
#[derive(Clone, Copy, Debug, PartialEq, Eq, Structural)]
pub enum Role {
    User,
    Assistant,
    System,
}

/// One entry of the transcript.
#[derive(Clone, Debug)]
pub struct Turn {
    pub role: Role,
    pub content: String,
}

/// What the controller is doing: browsing, composing a prompt, or awaiting a reply.
#[derive(Clone, Copy, Debug, PartialEq, Eq, Structural)]
pub enum InputMode {
    Normal,
    Editing,
    Waiting,
}

/// A key press, as far as the controller tells keys apart.
#[derive(Clone, Copy, Debug, PartialEq, Eq, Structural)]
pub enum Key {
    Char(char),
    Enter,
    Backspace,
    Esc,
    Left,
    Right,
    Up,
    Down,
    Other,
}

/// What the caller must do after a key press.
#[derive(Debug)]
pub enum Action {
    /// Drop the request in flight.
    CancelRequest,
    /// Start a request for this prompt.
    Send(String),
    /// Leave the program.
    Quit,
}

/// What a request in flight delivers.
#[derive(Debug)]
pub enum Item {
    /// A fragment of the reply.
    Chunk(String),
    /// The request failed.
    Failure(Application),
    /// The reply is complete, or the channel closed.
    End,
}

/// The glyphs of the waiting animation.
pub open spec fn spinner_frames() -> Seq<char> {
    seq![
        '\u{280b}',
        '\u{2819}',
        '\u{2839}',
        '\u{2838}',
        '\u{283c}',
        '\u{2834}',
        '\u{2826}',
        '\u{2827}',
        '\u{2807}',
        '\u{280f}',
    ]
}

/// A cyclic index over a fixed, non-empty set of frames.
pub struct Spinner {
    frames: Vec<char>,
    current: usize,
}

impl Spinner {
    pub closed spec fn frames(&self) -> Seq<char> {
        self.frames@
    }

    pub closed spec fn current(&self) -> nat {
        self.current as nat
    }

    /// The index is within the frames.
    pub open spec fn wf(&self) -> bool {
        self.frames().len() > 0 && self.current() < self.frames().len()
    }

    /// A spinner at its first frame.
    pub fn new() -> (r: Spinner)
        ensures
            r.wf(),
            r.frames() == spinner_frames(),
            r.current() == 0,
    {
        let mut frames: Vec<char> = Vec::new();
        frames.push('\u{280b}');
        frames.push('\u{2819}');
        frames.push('\u{2839}');
        frames.push('\u{2838}');
        frames.push('\u{283c}');
        frames.push('\u{2834}');
        frames.push('\u{2826}');
        frames.push('\u{2827}');
        frames.push('\u{2807}');
        frames.push('\u{280f}');
        assert(frames@ =~= spinner_frames());
        Spinner { frames, current: 0 }
    }

    /// Returns the current frame and moves to the next one, cyclically.
    pub fn next(&mut self) -> (c: char)
        requires
            old(self).wf(),
        ensures
            final(self).wf(),
            c == old(self).frames()[old(self).current() as int],
            final(self).frames() == old(self).frames(),
            final(self).current() == if old(self).current() + 1 < old(self).frames().len() {
                old(self).current() + 1
            } else {
                0
            },
    {
        let c = self.frames[self.current];
        assert(self.current < self.frames@.len());
        self.current = if self.current < self.frames.len() - 1 {
            self.current + 1
        } else {
            0
        };
        c
    }
}

/// The controller's state as plain values.
pub struct ChatView {
    /// The transcript: role and text of each turn.
    pub turns: Seq<(Role, Seq<char>)>,
    pub input: Seq<char>,
    pub mode: InputMode,
    /// The spinner's frames, and the index of the current one.
    pub frames: Seq<char>,
    pub frame: nat,
    /// Width of the composer's text area.
    pub input_width: nat,
    pub h_scroll: nat,
    pub selected: Option<nat>,
    /// The last turn is the transient placeholder shown while a reply is awaited.
    pub pending: bool,
}

/// The largest horizontal scroll of the composer.
pub open spec fn max_scroll(v: ChatView) -> nat {
    if v.input.len() > v.input_width {
        (v.input.len() - v.input_width) as nat
    } else {
        0
    }
}

/// The invariant of every reachable state.
pub open spec fn wf(v: ChatView) -> bool {
    &&& v.frames.len() > 0 && v.frame < v.frames.len()
    &&& v.h_scroll <= max_scroll(v)
    &&& (v.selected matches Some(i) ==> i < v.turns.len())
    &&& (v.pending ==> v.mode == InputMode::Waiting)
    &&& (v.mode == InputMode::Waiting ==> v.turns.len() > 0 && v.turns.last().0 == (if v.pending {
        Role::System
    } else {
        Role::Assistant
    }))
}

/// How many turns, from the start, can no longer change.
pub open spec fn fixed(v: ChatView) -> nat {
    if v.mode == InputMode::Waiting && v.turns.len() > 0 {
        (v.turns.len() - 1) as nat
    } else {
        v.turns.len()
    }
}

/// The text of the transient placeholder.
pub open spec fn sending_text() -> Seq<char> {
    "Sending request..."@
}

/// The turn recorded when the user cancels a request.
pub open spec fn cancelled_text() -> Seq<char> {
    "request cancelled"@
}

/// The turn recorded when a reply ends with no content.
pub open spec fn empty_reply_text() -> Seq<char> {
    "unexpected error occured. Please check the log file for more details"@
}

/// The first turn recorded for a failed request.
pub open spec fn failure_text(e: Application) -> Seq<char> {
    "error: "@ + friendly(e)
}

/// The second turn recorded for a failed request: where the error log is.
pub open spec fn log_hint_text(path: Seq<char>) -> Seq<char> {
    "for more details, please check the log file at: "@ + path
}

/// The request ends with a complete reply: the placeholder, if present, gives way to it,
/// the mode returns to `Normal` and the new turn is selected.
pub open spec fn finish(v: ChatView, text: Seq<char>) -> ChatView {
    let kept = if v.mode == InputMode::Waiting && v.pending {
        v.turns.drop_last()
    } else {
        v.turns
    };
    let turns = kept.push((Role::Assistant, text));
    ChatView {
        turns,
        mode: InputMode::Normal,
        pending: false,
        selected: Some((turns.len() - 1) as nat),
        h_scroll: 0,
        ..v
    }
}

/// The state after a key press.
pub open spec fn after_key(v: ChatView, key: Key) -> ChatView {
    match v.mode {
        InputMode::Normal => match key {
            Key::Char(c) => if c == 'e' {
                ChatView { mode: InputMode::Editing, ..v }
            } else {
                v
            },
            Key::Up => if v.turns.len() == 0 {
                v
            } else {
                let cur = match v.selected {
                    Some(i) => i,
                    None => 0,
                };
                ChatView { selected: Some(if cur > 0 { (cur - 1) as nat } else { 0 }), ..v }
            },
            Key::Down => if v.turns.len() == 0 {
                v
            } else {
                let cur = match v.selected {
                    Some(i) => i,
                    None => 0,
                };
                let last = (v.turns.len() - 1) as nat;
                ChatView { selected: Some(if cur + 1 < last { cur + 1 } else { last }), ..v }
            },
            _ => v,
        },
        InputMode::Editing => match key {
            Key::Enter => if v.input.len() == 0 {
                v
            } else {
                ChatView {
                    turns: v.turns.push((Role::User, v.input)).push((Role::System, sending_text())),
                    input: seq![],
                    mode: InputMode::Waiting,
                    pending: true,
                    h_scroll: 0,
                    ..v
                }
            },
            Key::Char(c) => ChatView { input: v.input.push(c), ..v },
            Key::Backspace => if v.input.len() == 0 {
                v
            } else {
                let w = ChatView { input: v.input.drop_last(), ..v };
                ChatView {
                    h_scroll: if v.h_scroll <= max_scroll(w) {
                        v.h_scroll
                    } else {
                        max_scroll(w)
                    },
                    ..w
                }
            },
            Key::Esc => ChatView { mode: InputMode::Normal, ..v },
            Key::Left => ChatView {
                h_scroll: if v.h_scroll > 0 {
                    (v.h_scroll - 1) as nat
                } else {
                    0
                },
                ..v
            },
            Key::Right => ChatView {
                h_scroll: if v.h_scroll + 1 < max_scroll(v) {
                    v.h_scroll + 1
                } else {
                    max_scroll(v)
                },
                ..v
            },
            _ => v,
        },
        InputMode::Waiting => match key {
            Key::Esc => finish(v, cancelled_text()),
            _ => v,
        },
    }
}

/// What a key press asks of the caller.
pub enum Request {
    Stay,
    Cancel,
    Send(Seq<char>),
    Quit,
}

/// What the caller is asked to do after a key press.
pub open spec fn request_of(v: ChatView, key: Key) -> Request {
    match v.mode {
        InputMode::Normal => if key == Key::Char('q') {
            Request::Quit
        } else {
            Request::Stay
        },
        InputMode::Editing => if key == Key::Enter && v.input.len() > 0 {
            Request::Send(v.input)
        } else {
            Request::Stay
        },
        InputMode::Waiting => if key == Key::Esc {
            Request::Cancel
        } else {
            Request::Stay
        },
    }
}

/// The request that an action carries.
pub open spec fn request_view(a: Option<Action>) -> Request {
    match a {
        None => Request::Stay,
        Some(Action::CancelRequest) => Request::Cancel,
        Some(Action::Send(m)) => Request::Send(m@),
        Some(Action::Quit) => Request::Quit,
    }
}

/// The state after a fragment of the reply arrives.
pub open spec fn after_chunk(v: ChatView, c: Seq<char>) -> ChatView {
    if v.mode != InputMode::Waiting {
        v
    } else if v.pending {
        ChatView { turns: v.turns.drop_last().push((Role::Assistant, c)), pending: false, ..v }
    } else {
        ChatView { turns: v.turns.drop_last().push((Role::Assistant, v.turns.last().1 + c)), ..v }
    }
}

/// The state after the request fails; `path` is where the error log is.
pub open spec fn after_failure(v: ChatView, e: Application, path: Seq<char>) -> ChatView {
    if v.mode != InputMode::Waiting {
        v
    } else {
        finish(finish(v, failure_text(e)), log_hint_text(path))
    }
}

/// The state after the reply ends.
pub open spec fn after_end(v: ChatView) -> ChatView {
    if v.mode != InputMode::Waiting {
        v
    } else if v.pending {
        finish(v, empty_reply_text())
    } else {
        ChatView {
            mode: InputMode::Normal,
            selected: Some((v.turns.len() - 1) as nat),
            h_scroll: 0,
            ..v
        }
    }
}

/// The state after an item of a request in flight arrives.
pub open spec fn after_item(v: ChatView, item: Item, path: Seq<char>) -> ChatView {
    match item {
        Item::Chunk(c) => after_chunk(v, c@),
        Item::Failure(e) => after_failure(v, e, path),
        Item::End => after_end(v),
    }
}

/// The state after a frame is drawn with a composer `composer_width` cells wide: the text
/// area is two cells narrower (its border), the scroll stays within bounds, and the
/// spinner moves on when the placeholder is shown.
pub open spec fn after_draw(v: ChatView, composer_width: nat) -> ChatView {
    let iw: nat = if composer_width >= 2 {
        (composer_width - 2) as nat
    } else {
        0
    };
    let m = max_scroll(ChatView { input_width: iw, ..v });
    ChatView {
        input_width: iw,
        h_scroll: if v.h_scroll <= m {
            v.h_scroll
        } else {
            m
        },
        frame: if v.pending && v.mode == InputMode::Waiting {
            if v.frame + 1 < v.frames.len() {
                v.frame + 1
            } else {
                0
            }
        } else {
            v.frame
        },
        ..v
    }
}

/// The text shown for turn `i`: the placeholder carries the current spinner frame.
pub open spec fn shown_text(v: ChatView, i: int) -> Seq<char> {
    if v.pending && v.mode == InputMode::Waiting && i == v.turns.len() - 1 {
        seq![v.frames[v.frame as int], ' '] + v.turns[i].1
    } else {
        v.turns[i].1
    }
}

/// The controller: transcript, composer, mode, selection and spinner.
pub struct ChatUI {
    messages: Vec<Turn>,
    input: Vec<char>,
    input_mode: InputMode,
    spinner: Spinner,
    input_width: usize,
    horizontal_scroll: usize,
    selected: Option<usize>,
    pending: bool,
}

/// The role and text of each turn.
pub open spec fn turns_view(ts: Seq<Turn>) -> Seq<(Role, Seq<char>)> {
    ts.map_values(|t: Turn| (t.role, t.content@))
}

impl View for ChatUI {
    type V = ChatView;

    closed spec fn view(&self) -> ChatView {
        ChatView {
            turns: turns_view(self.messages@),
            input: self.input@,
            mode: self.input_mode,
            frames: self.spinner.frames(),
            frame: self.spinner.current(),
            input_width: self.input_width as nat,
            h_scroll: self.horizontal_scroll as nat,
            selected: match self.selected {
                Some(i) => Some(i as nat),
                None => None,
            },
            pending: self.pending,
        }
    }
}

impl ChatUI {
    /// An empty transcript and composer, in `Normal` mode, nothing selected.
    pub fn new() -> (r: ChatUI)
        ensures
            wf(r@),
            r@.turns.len() == 0,
            r@.input.len() == 0,
            r@.mode == InputMode::Normal,
            r@.frames == spinner_frames(),
            r@.frame == 0,
            r@.input_width == 0,
            r@.h_scroll == 0,
            r@.selected is None,
            !r@.pending,
    {
        let r = ChatUI {
            messages: Vec::new(),
            input: Vec::new(),
            input_mode: InputMode::Normal,
            spinner: Spinner::new(),
            input_width: 0,
            horizontal_scroll: 0,
            selected: None,
            pending: false,
        };
        assert(r@.turns =~= Seq::<(Role, Seq<char>)>::empty());
        r
    }

    /// The transcript.
    pub fn messages(&self) -> (r: &Vec<Turn>)
        ensures
            turns_view(r@) == self@.turns,
    {
        &self.messages
    }

    /// The current mode.
    pub fn mode(&self) -> (r: InputMode)
        ensures
            r == self@.mode,
    {
        self.input_mode
    }

    /// The text in the composer.
    pub fn input(&self) -> (r: String)
        ensures
            r@ == self@.input,
    {
        string_of(&self.input)
    }

    /// The composer's horizontal scroll.
    pub fn h_scroll(&self) -> (r: usize)
        ensures
            r == self@.h_scroll,
    {
        self.horizontal_scroll
    }

    /// The selected turn, if any.
    pub fn selected(&self) -> (r: Option<usize>)
        ensures
            r matches Some(i) ==> self@.selected == Some(i as nat),
            r is None ==> self@.selected is None,
    {
        self.selected
    }

    /// The width of the composer's text area.
    pub fn input_width(&self) -> (r: usize)
        ensures
            r == self@.input_width,
    {
        self.input_width
    }

    /// The largest horizontal scroll for the current input and width.
    fn max_scroll(&self) -> (r: usize)
        ensures
            r == max_scroll(self@),
    {
        if self.input.len() > self.input_width {
            self.input.len() - self.input_width
        } else {
            0
        }
    }

    /// Sets the width of the composer's text area, keeping the scroll within bounds.
    pub fn set_input_width(&mut self, width: usize)
        requires
            wf(old(self)@),
        ensures
            wf(final(self)@),
            final(self)@ == (ChatView {
                input_width: width as nat,
                h_scroll: if old(self)@.h_scroll <= max_scroll(ChatView { input_width: width as nat, ..old(self)@ }) {
                    old(self)@.h_scroll
                } else {
                    max_scroll(ChatView { input_width: width as nat, ..old(self)@ })
                },
                ..old(self)@
            }),
    {
        self.input_width = width;
        let m = self.max_scroll();
        if self.horizontal_scroll > m {
            self.horizontal_scroll = m;
        }
    }

    /// Ends the request with a complete reply `response`.
    pub fn add_response(&mut self, response: String)
        requires
            wf(old(self)@),
        ensures
            wf(final(self)@),
            final(self)@ == finish(old(self)@, response@),
    {
        let ghost before = self.messages@;
        if self.input_mode == InputMode::Waiting && self.pending {
            self.messages.pop();
            assert(turns_view(self.messages@) =~= turns_view(before).drop_last());
        }
        let ghost mid = self.messages@;
        self.messages.push(Turn { role: Role::Assistant, content: response });
        assert(turns_view(self.messages@) =~= turns_view(mid).push((Role::Assistant, response@)));
        self.input_mode = InputMode::Normal;
        self.pending = false;
        self.selected = Some(self.messages.len() - 1);
        self.horizontal_scroll = 0;
    }

    /// Handles a key press while a reply is awaited: Esc cancels the request.
    /// In any other mode nothing changes.
    pub fn update(&mut self, key: Key) -> (r: Option<Action>)
        requires
            wf(old(self)@),
        ensures
            wf(final(self)@),
            old(self)@.mode == InputMode::Waiting ==> final(self)@ == after_key(old(self)@, key)
                && request_view(r) == request_of(old(self)@, key),
            old(self)@.mode != InputMode::Waiting ==> final(self)@ == old(self)@ && r is None,
    {
        if self.input_mode == InputMode::Waiting {
            match key {
                Key::Esc => {
                    self.add_response("request cancelled".to_string());
                    return Some(Action::CancelRequest);
                },
                _ => {},
            }
        }
        None
    }

    /// Handles a key press in any mode.
    pub fn run(&mut self, key: Key) -> (r: Option<Action>)
        requires
            wf(old(self)@),
        ensures
            wf(final(self)@),
            final(self)@ == after_key(old(self)@, key),
            request_view(r) == request_of(old(self)@, key),
    {
        match self.input_mode {
            InputMode::Normal => match key {
                Key::Char(c) => {
                    if c == 'e' {
                        self.input_mode = InputMode::Editing;
                    } else if c == 'q' {
                        return Some(Action::Quit);
                    }
                },
                Key::Up => {
                    if self.messages.len() > 0 {
                        let cur = match self.selected {
                            Some(i) => i,
                            None => 0,
                        };
                        self.selected = Some(
                            if cur > 0 {
                                cur - 1
                            } else {
                                0
                            },
                        );
                    }
                },
                Key::Down => {
                    if self.messages.len() > 0 {
                        let cur = match self.selected {
                            Some(i) => i,
                            None => 0,
                        };
                        let last = self.messages.len() - 1;
                        self.selected = Some(
                            if cur < last {
                                cur + 1
                            } else {
                                last
                            },
                        );
                    }
                },
                _ => {},
            },
            InputMode::Editing => match key {
                Key::Enter => {
                    if self.input.len() > 0 {
                        let message = string_of(&self.input);
                        let ghost before = self.messages@;
                        self.messages.push(Turn { role: Role::User, content: message.clone() });
                        self.messages.push(
                            Turn { role: Role::System, content: "Sending request...".to_string() },
                        );
                        assert(turns_view(self.messages@) =~= turns_view(before).push(
                            (Role::User, message@),
                        ).push((Role::System, sending_text())));
                        self.input = Vec::new();
                        assert(self.input@ =~= Seq::<char>::empty());
                        self.input_mode = InputMode::Waiting;
                        self.pending = true;
                        self.horizontal_scroll = 0;
                        return Some(Action::Send(message));
                    }
                },
                Key::Char(c) => {
                    self.input.push(c);
                },
                Key::Backspace => {
                    if self.input.len() > 0 {
                        self.input.pop();
                        let m = self.max_scroll();
                        if self.horizontal_scroll > m {
                            self.horizontal_scroll = m;
                        }
                    }
                },
                Key::Esc => {
                    self.input_mode = InputMode::Normal;
                },
                Key::Left => {
                    if self.horizontal_scroll > 0 {
                        self.horizontal_scroll = self.horizontal_scroll - 1;
                    }
                },
                Key::Right => {
                    let m = self.max_scroll();
                    if self.horizontal_scroll < m {
                        self.horizontal_scroll = self.horizontal_scroll + 1;
                    } else {
                        self.horizontal_scroll = m;
                    }
                },
                _ => {},
            },
            InputMode::Waiting => {
                return self.update(key);
            },
        }
        None
    }

    /// Applies an item delivered by the request in flight; `log_path` is where the
    /// error log is. Returns whether no reply is awaited any more.
    pub fn receive(&mut self, item: Item, log_path: &str) -> (done: bool)
        requires
            wf(old(self)@),
        ensures
            wf(final(self)@),
            final(self)@ == after_item(old(self)@, item, log_path@),
            done == (final(self)@.mode != InputMode::Waiting),
    {
        if self.input_mode != InputMode::Waiting {
            return true;
        }
        match item {
            Item::Chunk(c) => {
                let ghost before = self.messages@;
                let last = self.messages.pop();
                assert(turns_view(self.messages@) =~= turns_view(before).drop_last());
                let ghost mid = self.messages@;
                if self.pending {
                    self.messages.push(Turn { role: Role::Assistant, content: c });
                    self.pending = false;
                    assert(turns_view(self.messages@) =~= turns_view(mid).push(
                        (Role::Assistant, c@),
                    ));
                } else {
                    let mut t = last.unwrap();
                    let ghost prev = t.content@;
                    assert(prev == turns_view(before).last().1);
                    t.content.append(c.as_str());
                    self.messages.push(t);
                    assert(turns_view(self.messages@) =~= turns_view(mid).push(
                        (Role::Assistant, prev + c@),
                    ));
                }
                false
            },
            Item::Failure(e) => {
                let mut first = "error: ".to_string();
                first.append(e.user_friendly_message().as_str());
                self.add_response(first);
                let mut second = "for more details, please check the log file at: ".to_string();
                second.append(log_path);
                self.add_response(second);
                true
            },
            Item::End => {
                if self.pending {
                    self.add_response(
                        "unexpected error occured. Please check the log file for more details".to_string(),
                    );
                } else {
                    self.input_mode = InputMode::Normal;
                    self.selected = Some(self.messages.len() - 1);
                    self.horizontal_scroll = 0;
                }
                true
            },
        }
    }

    /// Lays out a frame for a transcript list `list_width` cells wide (inside its border)
    /// and a composer `composer_width` cells wide.
    pub fn draw(&mut self, list_width: usize, composer_width: usize) -> (f: Frame)
        requires
            wf(old(self)@),
        ensures
            wf(final(self)@),
            final(self)@ == after_draw(old(self)@, composer_width as nat),
            f.items@.len() == old(self)@.turns.len(),
            forall|i: int|
                0 <= i < f.items@.len() ==> shows(
                    #[trigger] f.items@[i],
                    old(self)@.turns[i].0,
                    shown_text(old(self)@, i),
                    list_width as nat,
                ),
            f.selected matches Some(i) ==> old(self)@.selected == Some(i as nat),
            f.selected is None ==> old(self)@.selected is None,
            f.input@ == old(self)@.input,
            f.mode == old(self)@.mode,
            f.h_scroll == final(self)@.h_scroll,
            f.show_h_scrollbar == (old(self)@.input.len() > final(self)@.input_width),
            f.cursor == if old(self)@.mode == InputMode::Editing {
                Some(old(self)@.input.len() as usize)
            } else {
                None::<usize>
            },
            spans_view(f.help@) == help(old(self)@.mode),
    {
        let ghost v = self@;
        let n = self.messages.len();
        let mut items: Vec<ListEntry> = Vec::new();
        let mut i: usize = 0;
        while i < n
            invariant
                n == self.messages@.len(),
                v.turns == turns_view(self.messages@),
                v.frames == self.spinner.frames(),
                self.spinner.current() == if i == n && v.pending && v.mode == InputMode::Waiting {
                    if v.frame + 1 < v.frames.len() {
                        v.frame + 1
                    } else {
                        0
                    }
                } else {
                    v.frame
                },
                self@ == (ChatView { frame: self.spinner.current(), ..v }),
                v.pending == self.pending,
                v.mode == self.input_mode,
                wf(v),
                self.spinner.wf(),
                i <= n,
                items@.len() == i,
                forall|j: int|
                    0 <= j < i ==> shows(
                        #[trigger] items@[j],
                        v.turns[j].0,
                        shown_text(v, j),
                        list_width as nat,
                    ),
            decreases n - i,
        {
            let t = &self.messages[i];
            assert(v.turns[i as int] == (t.role, t.content@));
            if self.pending && self.input_mode == InputMode::Waiting && i == n - 1 {
                let g = self.spinner.next();
                let mut s = String::new();
                push_char(&mut s, g);
                push_char(&mut s, ' ');
                s.append(self.messages[i].content.as_str());
                assert(s@ =~= shown_text(v, i as int));
                items.push(render_turn(self.messages[i].role, s.as_str(), list_width));
            } else {
                items.push(render_turn(t.role, t.content.as_str(), list_width));
            }
            i += 1;
        }
        assert(wf(self@));
        let iw = if composer_width >= 2 {
            composer_width - 2
        } else {
            0
        };
        self.set_input_width(iw);
        let cursor = if self.input_mode == InputMode::Editing {
            Some(self.input.len())
        } else {
            None
        };
        Frame {
            items,
            selected: self.selected,
            input: string_of(&self.input),
            mode: self.input_mode,
            h_scroll: self.horizontal_scroll,
            show_h_scrollbar: self.input.len() > self.input_width,
            cursor,
            help: help_spans(self.input_mode),
        }
    }
}

} // verus!
