use vstd::prelude::*;

use crate::error::Application;
use crate::ui::{
    after_chunk, after_end, after_failure, after_key, cancelled_text, finish, fixed, request_of,
    wf, ChatView, InputMode, Key, Request, Role,
};

verus! {

/// Every key press keeps the state well formed: a single trailing placeholder, and only
/// while a reply is awaited; the scroll, the selection and the spinner within bounds.
pub proof fn lemma_key_keeps_wf(v: ChatView, key: Key)
    requires
        wf(v),
    ensures
        wf(after_key(v, key)),
{
}

/// Every item of a request keeps the state well formed.
pub proof fn lemma_item_keeps_wf(v: ChatView, c: Seq<char>, e: Application, path: Seq<char>)
    requires
        wf(v),
    ensures
        wf(after_chunk(v, c)),
        wf(after_failure(v, e, path)),
        wf(after_end(v)),
{
}

/// A request is started exactly when a key press enters `Waiting`, and dropped exactly
/// when a key press leaves it.
pub proof fn lemma_request_follows_mode(v: ChatView, key: Key)
    requires
        wf(v),
    ensures
        (v.mode != InputMode::Waiting && after_key(v, key).mode == InputMode::Waiting) <==> request_of(
            v,
            key,
        ) is Send,
        (v.mode == InputMode::Waiting && after_key(v, key).mode != InputMode::Waiting) <==> request_of(
            v,
            key,
        ) is Cancel,
        after_key(v, key).pending ==> after_key(v, key).mode == InputMode::Waiting,
{
}

/// Items of a request leave `Waiting` exactly on a failure or the end, and a state that
/// awaits nothing ignores them.
pub proof fn lemma_items_leave_waiting(v: ChatView, c: Seq<char>, e: Application, path: Seq<char>)
    requires
        wf(v),
    ensures
        after_chunk(v, c).mode == v.mode,
        after_failure(v, e, path).mode == InputMode::Normal || after_failure(v, e, path) == v,
        after_end(v).mode == InputMode::Normal || after_end(v) == v,
        v.mode != InputMode::Waiting ==> after_chunk(v, c) == v && after_failure(v, e, path) == v
            && after_end(v) == v,
{
}

/// Turns that are final stay as they are: a key press keeps them and may only add more.
pub proof fn lemma_key_keeps_fixed(v: ChatView, key: Key)
    requires
        wf(v),
    ensures
        fixed(after_key(v, key)) >= fixed(v),
        after_key(v, key).turns.len() >= fixed(v),
        after_key(v, key).turns.take(fixed(v) as int) == v.turns.take(fixed(v) as int),
{
    let w = after_key(v, key);
    if v.mode == InputMode::Editing && key == Key::Enter && v.input.len() > 0 {
        assert(w.turns.take(fixed(v) as int) =~= v.turns.take(fixed(v) as int));
    } else if v.mode == InputMode::Waiting && key == Key::Esc {
        assert(w.turns.take(fixed(v) as int) =~= v.turns.take(fixed(v) as int));
    }
}

/// Turns that are final stay as they are: an item of a request keeps them and may only
/// add more.
pub proof fn lemma_item_keeps_fixed(v: ChatView, c: Seq<char>, e: Application, path: Seq<char>)
    requires
        wf(v),
    ensures
        fixed(after_chunk(v, c)) >= fixed(v),
        after_chunk(v, c).turns.take(fixed(v) as int) == v.turns.take(fixed(v) as int),
        fixed(after_failure(v, e, path)) >= fixed(v),
        after_failure(v, e, path).turns.take(fixed(v) as int) == v.turns.take(fixed(v) as int),
        fixed(after_end(v)) >= fixed(v),
        after_end(v).turns.take(fixed(v) as int) == v.turns.take(fixed(v) as int),
{
    if v.mode == InputMode::Waiting {
        let k = fixed(v) as int;
        assert(after_chunk(v, c).turns.take(k) =~= v.turns.take(k));
        let f1 = finish(v, crate::ui::failure_text(e));
        assert(f1.turns.take(k) =~= v.turns.take(k));
        assert(after_failure(v, e, path).turns.take(k) =~= v.turns.take(k));
        assert(after_end(v).turns.take(k) =~= v.turns.take(k));
    }
}

/// The fragments joined end to end.
pub open spec fn concat(cs: Seq<Seq<char>>) -> Seq<char>
    decreases cs.len(),
{
    if cs.len() == 0 {
        seq![]
    } else {
        concat(cs.drop_last()) + cs.last()
    }
}

/// The state after the fragments `cs` arrive in order.
pub open spec fn feed(v: ChatView, cs: Seq<Seq<char>>) -> ChatView
    decreases cs.len(),
{
    if cs.len() == 0 {
        v
    } else {
        after_chunk(feed(v, cs.drop_last()), cs.last())
    }
}

/// While fragments arrive after the placeholder, the reply turn holds all of them, in order.
pub proof fn lemma_feed(v: ChatView, cs: Seq<Seq<char>>)
    requires
        wf(v),
        v.mode == InputMode::Waiting,
        v.pending,
        cs.len() >= 1,
    ensures
        feed(v, cs).mode == InputMode::Waiting,
        !feed(v, cs).pending,
        wf(feed(v, cs)),
        feed(v, cs).turns == v.turns.drop_last().push((Role::Assistant, concat(cs))),
    decreases cs.len(),
{
    let prev = cs.drop_last();
    if prev.len() == 0 {
        assert(concat(cs) =~= cs.last());
    } else {
        lemma_feed(v, prev);
        assert(feed(v, cs).turns =~= v.turns.drop_last().push((Role::Assistant, concat(cs))));
    }
}

/// After fragments `c1 … cn` (n at least one) and the end, the reply is one assistant turn
/// holding `c1 ⧺ … ⧺ cn`, in place of the placeholder, and the mode is `Normal`.
pub proof fn lemma_stream_concat(v: ChatView, cs: Seq<Seq<char>>)
    requires
        wf(v),
        v.mode == InputMode::Waiting,
        v.pending,
        cs.len() >= 1,
    ensures
        after_end(feed(v, cs)).turns == v.turns.drop_last().push((Role::Assistant, concat(cs))),
        after_end(feed(v, cs)).mode == InputMode::Normal,
{
    lemma_feed(v, cs);
}

/// Cancelling after at least one fragment keeps what arrived as an assistant turn,
/// followed by the cancellation turn; later items change nothing.
pub proof fn lemma_cancel_keeps_prefix(v: ChatView, cs: Seq<Seq<char>>, late: Seq<char>)
    requires
        wf(v),
        v.mode == InputMode::Waiting,
        v.pending,
        cs.len() >= 1,
    ensures
        after_key(feed(v, cs), Key::Esc).turns == v.turns.drop_last().push(
            (Role::Assistant, concat(cs)),
        ).push((Role::Assistant, cancelled_text())),
        after_key(feed(v, cs), Key::Esc).mode == InputMode::Normal,
        after_chunk(after_key(feed(v, cs), Key::Esc), late) == after_key(feed(v, cs), Key::Esc),
        after_end(after_key(feed(v, cs), Key::Esc)) == after_key(feed(v, cs), Key::Esc),
{
    lemma_feed(v, cs);
}

} // verus!
