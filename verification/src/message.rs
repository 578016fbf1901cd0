//! The messages that travel from the host to the worker.

use vstd::prelude::*;

verus! {

/// A message on the task queue.
///
/// `T` is the completion token of a request, `W` the work to perform. The
/// bridge looks into neither: it only moves them.
#[derive(Debug)]
pub enum WtMessage<T, W> {
    /// A unit of work, with the token that the work must settle.
    Callback(T, W),
    /// Asks the worker to stop.
    Close,
}

/// The tokens of the work messages among `messages`, in their order.
pub open spec fn tokens<T, W>(messages: Seq<WtMessage<T, W>>) -> Seq<T>
    decreases messages.len(),
{
    if messages.len() == 0 {
        Seq::empty()
    } else {
        match messages.last() {
            WtMessage::Callback(token, _) => tokens(messages.drop_last()).push(token),
            WtMessage::Close => tokens(messages.drop_last()),
        }
    }
}

/// Whether a `Close` occurs among `messages`.
pub open spec fn has_close<T, W>(messages: Seq<WtMessage<T, W>>) -> bool {
    exists|i: int| 0 <= i < messages.len() && #[trigger] messages[i] is Close
}

/// The tokens of the work messages that stand before the first `Close` of
/// `messages`, in their order; all of them where there is no `Close`.
pub open spec fn before_close<T, W>(messages: Seq<WtMessage<T, W>>) -> Seq<T>
    decreases messages.len(),
{
    if messages.len() == 0 {
        Seq::empty()
    } else {
        match messages.first() {
            WtMessage::Callback(token, _) => seq![token] + before_close(messages.drop_first()),
            WtMessage::Close => Seq::empty(),
        }
    }
}

/// `tokens` of a sequence with one more message at its end.
pub proof fn lemma_tokens_push<T, W>(s: Seq<WtMessage<T, W>>, m: WtMessage<T, W>)
    ensures
        tokens(s.push(m)) == match m {
            WtMessage::Callback(token, _) => tokens(s).push(token),
            WtMessage::Close => tokens(s),
        },
{
    assert(s.push(m).drop_last() =~= s);
}

/// `tokens` of a sequence, taken apart at its first message.
pub proof fn lemma_tokens_first<T, W>(s: Seq<WtMessage<T, W>>)
    requires
        s.len() > 0,
    ensures
        tokens(s) == match s.first() {
            WtMessage::Callback(token, _) => seq![token] + tokens(s.drop_first()),
            WtMessage::Close => tokens(s.drop_first()),
        },
    decreases s.len(),
{
    if s.len() == 1 {
        assert(s.drop_last() =~= Seq::empty());
        assert(s.drop_first() =~= Seq::empty());
    } else {
        lemma_tokens_first(s.drop_last());
        assert(s.drop_last().drop_first() =~= s.drop_first().drop_last());
    }
}

/// `has_close` of a sequence with one more message at its end.
pub proof fn lemma_has_close_push<T, W>(s: Seq<WtMessage<T, W>>, m: WtMessage<T, W>)
    ensures
        has_close(s.push(m)) <==> has_close(s) || m is Close,
{
    let p = s.push(m);
    if has_close(s) {
        let i = choose|i: int| 0 <= i < s.len() && #[trigger] s[i] is Close;
        assert(p[i] is Close);
    }
    if m is Close {
        assert(p[s.len() as int] is Close);
    }
    if has_close(p) {
        let i = choose|i: int| 0 <= i < p.len() && #[trigger] p[i] is Close;
        assert(i < s.len() ==> s[i] is Close);
    }
}

/// `has_close` of a sequence, taken apart at its first message.
pub proof fn lemma_has_close_first<T, W>(s: Seq<WtMessage<T, W>>)
    requires
        s.len() > 0,
    ensures
        has_close(s) <==> s.first() is Close || has_close(s.drop_first()),
{
    let rest = s.drop_first();
    if has_close(s) {
        let i = choose|i: int| 0 <= i < s.len() && #[trigger] s[i] is Close;
        assert(i > 0 ==> rest[i - 1] is Close);
    }
    if has_close(rest) {
        let i = choose|i: int| 0 <= i < rest.len() && #[trigger] rest[i] is Close;
        assert(s[i + 1] is Close);
    }
}

/// `before_close` of a sequence with one more message at its end: the
/// message counts only if it is work and no `Close` stands before it.
pub proof fn lemma_before_close_push<T, W>(s: Seq<WtMessage<T, W>>, m: WtMessage<T, W>)
    ensures
        before_close(s.push(m)) == if has_close(s) {
            before_close(s)
        } else {
            match m {
                WtMessage::Callback(token, _) => before_close(s).push(token),
                WtMessage::Close => before_close(s),
            }
        },
    decreases s.len(),
{
    let p = s.push(m);
    if s.len() == 0 {
        assert(before_close(p.drop_first()) =~= Seq::empty());
    } else {
        lemma_has_close_first(s);
        assert(p.drop_first() =~= s.drop_first().push(m));
        if s.first() is Callback {
            lemma_before_close_push(s.drop_first(), m);
        }
    }
}

/// Where there is no `Close`, every token stands before the first one.
pub proof fn lemma_before_close_is_all<T, W>(s: Seq<WtMessage<T, W>>)
    requires
        !has_close(s),
    ensures
        before_close(s) == tokens(s),
    decreases s.len(),
{
    if s.len() > 0 {
        lemma_has_close_first(s);
        lemma_tokens_first(s);
        lemma_before_close_is_all(s.drop_first());
    }
}

/// No more tokens stand before the first `Close` than there are messages,
/// and fewer where there is a `Close`.
pub proof fn lemma_before_close_len<T, W>(s: Seq<WtMessage<T, W>>)
    ensures
        before_close(s).len() <= s.len(),
        has_close(s) ==> before_close(s).len() < s.len(),
    decreases s.len(),
{
    if s.len() > 0 {
        lemma_has_close_first(s);
        lemma_before_close_len(s.drop_first());
    }
}

} // verus!
