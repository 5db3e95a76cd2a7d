//! The token budget: a transcript that would leave the model too little room
//! to reply is shrunk by hiding what its oldest replies and tool outputs said.
//!
//! Only the contents of the model's own messages and of function returns are
//! ever hidden, earliest first. System framing, what the user asked, and the
//! calls themselves stay as they are. A transcript that is still over budget
//! when nothing is left to hide is refused, never cut short.

use vstd::prelude::*;
use vstd::string::StringExecFns;
use crate::error::{Cause, Error};
use crate::message::{assistant_role, transcript, Message, MessageView};
use crate::tokens::{
    answer_model, completion_budget, counted, counted_all, estimate, estimated, token_views,
    transcript_size, TokenMessage, COUNT_LIMIT,
};

verus! {

/// The number of tokens that must stay free for the model's reply.
pub const HEADROOM: usize = 2048;

/// What stands in the place of hidden contents.
pub open spec fn hidden() -> Seq<char> {
    "[HIDDEN]"@
}

/// Whether the contents of a message may be hidden: the message is the
/// model's own or a function's return, and is not hidden yet.
pub open spec fn redactable(message: MessageView) -> bool {
    match message {
        MessageView::PlainText { role, content } => role == assistant_role() && content
            != hidden(),
        MessageView::FunctionCall { .. } => false,
        MessageView::FunctionReturn { content, .. } => content != hidden(),
    }
}

/// The message with its contents hidden.
pub open spec fn redacted(message: MessageView) -> MessageView {
    match message {
        MessageView::PlainText { role, .. } => MessageView::PlainText { role, content: hidden() },
        MessageView::FunctionCall { .. } => message,
        MessageView::FunctionReturn { name, .. } => MessageView::FunctionReturn {
            name,
            content: hidden(),
        },
    }
}

/// The place of the first message whose contents may be hidden.
pub open spec fn first_redactable(history: Seq<MessageView>) -> Option<int>
    decreases history.len(),
{
    if history.len() == 0 {
        None
    } else {
        match first_redactable(history.drop_last()) {
            Some(i) => Some(i),
            None => if redactable(history.last()) {
                Some(history.len() - 1)
            } else {
                None
            },
        }
    }
}

/// The number of messages whose contents may be hidden.
pub open spec fn redactable_count(history: Seq<MessageView>) -> nat
    decreases history.len(),
{
    if history.len() == 0 {
        0
    } else {
        redactable_count(history.drop_last()) + if redactable(history.last()) {
            1nat
        } else {
            0nat
        }
    }
}

/// The transcript with the contents of the message at `i` hidden.
pub open spec fn redact_at(history: Seq<MessageView>, i: int) -> Seq<MessageView> {
    history.update(i, redacted(history[i]))
}

/// The room that a transcript leaves for the reply, as the tokenizer
/// estimates it for the answering model.
pub open spec fn budget(history: Seq<MessageView>) -> Option<usize> {
    estimated(counted_all(history))
}

/// What is to be done with a transcript, given the room it leaves.
#[derive(Clone, Copy, Debug, PartialEq, Eq)]
pub enum TrimStep {
    /// The room is enough: the transcript goes out as it is.
    Done,
    /// The room is too small: the contents of the message at this place are
    /// to be hidden.
    Redact(usize),
    /// The room is too small and nothing is left to hide.
    Exhausted,
}

/// What is to be done with `history` when it leaves `remaining` tokens.
pub open spec fn trim_decision(history: Seq<MessageView>, remaining: usize) -> TrimStep {
    if remaining >= HEADROOM {
        TrimStep::Done
    } else {
        match first_redactable(history) {
            Some(i) => TrimStep::Redact(i as usize),
            None => TrimStep::Exhausted,
        }
    }
}

/// Why a transcript cannot be brought within budget.
pub enum TrimFault {
    /// Nothing is left to hide.
    Exhausted,
    /// The tokenizer gave no estimate.
    Tokenizer,
}

/// `first_redactable` finds the first message that may be hidden, and nothing
/// else.
pub proof fn lemma_first_redactable(history: Seq<MessageView>)
    ensures
        match first_redactable(history) {
            Some(i) => 0 <= i < history.len() && redactable(history[i]) && forall|j: int|
                0 <= j < i ==> !redactable(history[j]),
            None => forall|j: int| 0 <= j < history.len() ==> !redactable(history[j]),
        },
    decreases history.len(),
{
    if history.len() > 0 {
        let front = history.drop_last();
        lemma_first_redactable(front);
        assert forall|j: int| 0 <= j < front.len() implies front[j] == history[j] by {}
        match first_redactable(front) {
            Some(i) => {
                assert(front[i] == history[i]);
            },
            None => {
                assert forall|j: int| 0 <= j < history.len() - 1 implies !redactable(
                    history[j],
                ) by {
                    assert(front[j] == history[j]);
                }
            },
        }
    }
}

/// Hiding a message that may be hidden leaves one fewer.
pub proof fn lemma_redact_counts(history: Seq<MessageView>, i: int)
    requires
        0 <= i < history.len(),
        redactable(history[i]),
    ensures
        redactable_count(redact_at(history, i)) + 1 == redactable_count(history),
    decreases history.len(),
{
    let after = redact_at(history, i);
    if i == history.len() - 1 {
        assert(after.drop_last() =~= history.drop_last());
    } else {
        lemma_redact_counts(history.drop_last(), i);
        assert(after.drop_last() =~= redact_at(history.drop_last(), i));
    }
}

/// Hiding is final: the contents of a hidden message may not be hidden
/// again, and hiding them again would change nothing.
pub proof fn lemma_redacted_once(message: MessageView)
    ensures
        !redactable(redacted(message)),
        redacted(redacted(message)) == redacted(message),
{
}

/// The transcript brought within budget. While the room is under the
/// headroom, the first message that may be hidden is hidden and the room is
/// estimated again.
pub open spec fn trimmed(history: Seq<MessageView>) -> Result<Seq<MessageView>, TrimFault>
    decreases redactable_count(history),
{
    match budget(history) {
        None => Err(TrimFault::Tokenizer),
        Some(remaining) => if remaining >= HEADROOM {
            Ok(history)
        } else {
            match first_redactable(history) {
                None => Err(TrimFault::Exhausted),
                Some(i) => {
                    proof {
                        lemma_first_redactable(history);
                        lemma_redact_counts(history, i);
                    }
                    trimmed(redact_at(history, i))
                },
            }
        },
    }
}

/// Whether `after` is `before` with the contents of some of its messages
/// hidden, earliest first: the two are as long, each message is as it was or
/// was one that may be hidden and now is, and no message that could have been
/// hidden stands untouched before one that was.
pub open spec fn hidden_prefix(before: Seq<MessageView>, after: Seq<MessageView>) -> bool {
    &&& after.len() == before.len()
    &&& forall|i: int|
        0 <= i < before.len() ==> #[trigger] after[i] == before[i] || (redactable(before[i])
            && after[i] == redacted(before[i]))
    &&& forall|i: int, j: int|
        0 <= i < j < before.len() && redactable(before[i]) && #[trigger] after[j] != before[j]
            ==> #[trigger] after[i] == redacted(before[i])
}

/// What trimming does to a transcript. It keeps the number of messages and
/// their order; it changes nothing but the contents of messages that may be
/// hidden, and those earliest first; and what it hands out leaves at least
/// the headroom.
pub proof fn lemma_trim_shape(history: Seq<MessageView>)
    ensures
        trimmed(history) matches Ok(after) ==> hidden_prefix(history, after) && (budget(
            after,
        ) matches Some(room) && room >= HEADROOM),
    decreases redactable_count(history),
{
    if let Some(remaining) = budget(history) {
        if remaining < HEADROOM {
            if let Some(i) = first_redactable(history) {
                lemma_first_redactable(history);
                lemma_redact_counts(history, i);
                let next = redact_at(history, i);
                lemma_trim_shape(next);
                if let Ok(after) = trimmed(next) {
                    assert(hidden_prefix(next, after));
                    assert forall|k: int| 0 <= k < history.len() implies #[trigger] after[k]
                        == history[k] || (redactable(history[k]) && after[k] == redacted(
                        history[k],
                    )) by {
                        if k == i {
                            assert(after[k] == next[k] || after[k] == redacted(next[k]));
                        } else {
                            assert(next[k] == history[k]);
                        }
                    }
                    assert forall|a: int, b: int|
                        0 <= a < b < history.len() && redactable(history[a]) && #[trigger] after[b]
                            != history[b] implies #[trigger] after[a] == redacted(history[a]) by {
                        assert(a >= i);
                        if a == i {
                            assert(after[a] == next[a] || after[a] == redacted(next[a]));
                        } else {
                            assert(next[a] == history[a]);
                            assert(next[b] == history[b]);
                        }
                    }
                }
            }
        }
    }
}

/// Trimming never costs room: the transcript handed out leaves at least as
/// much for the reply as the one taken in. Where the room taken in was under
/// the headroom, the room handed out is above it.
///
/// The room handed out is the tokenizer's own estimate, and so is the room
/// taken in wherever the tokenizer is asked about the transcript: on those the
/// tokenizer's estimate of the cost does not grow.
pub proof fn lemma_trim_monotone(history: Seq<MessageView>)
    ensures
        trimmed(history) matches Ok(after) ==> {
            &&& after.len() == history.len()
            &&& budget(history) matches Some(before)
            &&& budget(after) matches Some(room)
            &&& before <= room
            &&& transcript_size(counted_all(after)) <= COUNT_LIMIT
            &&& completion_budget(answer_model(), counted_all(after)) == Some(room)
            &&& transcript_size(counted_all(history)) <= COUNT_LIMIT ==> completion_budget(
                answer_model(),
                counted_all(history),
            ) == Some(before)
        },
{
    lemma_trim_shape(history);
}

/// A transcript that the tokenizer finds to leave the headroom is handed out
/// as it is, whatever it holds; one that it finds to leave less is never
/// handed out as it is; and one that it gives no estimate for is refused for
/// that.
pub proof fn lemma_trim_by_the_tokenizer(history: Seq<MessageView>)
    requires
        transcript_size(counted_all(history)) <= COUNT_LIMIT,
    ensures
        completion_budget(answer_model(), counted_all(history)) matches Some(room) ==> (room
            >= HEADROOM <==> trimmed(history) == Ok::<Seq<MessageView>, TrimFault>(history)),
        completion_budget(answer_model(), counted_all(history)) is None ==> trimmed(history)
            == Err::<Seq<MessageView>, TrimFault>(TrimFault::Tokenizer),
{
    lemma_trim_shape(history);
}

/// The transcript with the contents of its first `n` messages that may be
/// hidden, hidden; where there are fewer, all of them.
pub open spec fn redact_first(history: Seq<MessageView>, n: nat) -> Seq<MessageView>
    decreases n,
{
    if n == 0 {
        history
    } else {
        match first_redactable(history) {
            Some(i) => redact_first(redact_at(history, i), (n - 1) as nat),
            None => history,
        }
    }
}

/// Whether a transcript leaves less than the headroom.
pub open spec fn short(history: Seq<MessageView>) -> bool {
    budget(history) matches Some(room) && room < HEADROOM
}

/// The number of messages that trimming hides.
pub open spec fn redactions(history: Seq<MessageView>) -> nat
    decreases redactable_count(history),
{
    if short(history) {
        match first_redactable(history) {
            Some(i) => {
                proof {
                    lemma_first_redactable(history);
                    lemma_redact_counts(history, i);
                }
                1 + redactions(redact_at(history, i))
            },
            None => 0,
        }
    } else {
        0
    }
}

/// Hiding first `a` and then `b` messages is hiding `a + b`.
pub proof fn lemma_redact_first_adds(history: Seq<MessageView>, a: nat, b: nat)
    ensures
        redact_first(redact_first(history, a), b) == redact_first(history, a + b),
    decreases a,
{
    if a > 0 {
        match first_redactable(history) {
            Some(i) => {
                lemma_redact_first_adds(redact_at(history, i), (a - 1) as nat, b);
            },
            None => {
                assert(redact_first(history, b) == history);
                assert(redact_first(history, a + b) == history);
            },
        }
    }
}

/// Trimming hides no more than is needed. What it hands out is the
/// transcript with its first `n` eligible messages hidden, where `n` is the
/// least number with which the headroom is reached: with any fewer hidden, the
/// transcript leaves less. What it refuses for want of something to hide
/// leaves less than the headroom with every eligible message hidden.
pub proof fn lemma_trim_least(history: Seq<MessageView>)
    ensures
        forall|m: nat| m < redactions(history) ==> short(#[trigger] redact_first(history, m)),
        match trimmed(history) {
            Ok(after) => after == redact_first(history, redactions(history)) && !short(after),
            Err(TrimFault::Exhausted) => short(redact_first(history, redactions(history)))
                && first_redactable(redact_first(history, redactions(history))) is None,
            Err(TrimFault::Tokenizer) => budget(redact_first(history, redactions(history)))
                is None,
        },
    decreases redactable_count(history),
{
    if short(history) {
        if let Some(i) = first_redactable(history) {
            lemma_first_redactable(history);
            lemma_redact_counts(history, i);
            let next = redact_at(history, i);
            lemma_trim_least(next);
            assert(redact_first(history, redactions(history)) == redact_first(
                next,
                redactions(next),
            ));
            assert forall|m: nat| m < redactions(history) implies short(
                #[trigger] redact_first(history, m),
            ) by {
                if m > 0 {
                    assert(redact_first(history, m) == redact_first(next, (m - 1) as nat));
                }
            }
        }
    }
}

/// Trimming fails for want of something to hide exactly when even with every
/// eligible message hidden the headroom is not reached: that is, when the
/// transcript leaves less than the headroom however many of its eligible
/// messages are hidden.
pub proof fn lemma_trim_fails_exactly(history: Seq<MessageView>)
    ensures
        trimmed(history) == Err::<Seq<MessageView>, TrimFault>(TrimFault::Exhausted) <==> (
        forall|m: nat| short(#[trigger] redact_first(history, m))),
{
    lemma_trim_least(history);
    let n = redactions(history);
    let last = redact_first(history, n);
    if trimmed(history) == Err::<Seq<MessageView>, TrimFault>(TrimFault::Exhausted) {
        assert forall|m: nat| short(#[trigger] redact_first(history, m)) by {
            if m >= n {
                lemma_redact_first_adds(history, n, (m - n) as nat);
                assert(redact_first(last, (m - n) as nat) == last);
            }
        }
    }
    if forall|m: nat| short(#[trigger] redact_first(history, m)) {
        assert(short(last));
    }
}

/// Trimming what was trimmed changes nothing.
pub proof fn lemma_trim_idempotent(history: Seq<MessageView>)
    ensures
        trimmed(history) matches Ok(after) ==> trimmed(after) == Ok::<
            Seq<MessageView>,
            TrimFault,
        >(after),
{
    lemma_trim_shape(history);
}

/// A transcript that leaves the headroom is handed out as it is.
pub proof fn lemma_trim_within_budget(history: Seq<MessageView>)
    ensures
        (budget(history) matches Some(room) && room >= HEADROOM) ==> trimmed(history) == Ok::<
            Seq<MessageView>,
            TrimFault,
        >(history),
{
}

/// What stands in the place of hidden contents.
pub fn hidden_text() -> (text: String)
    ensures
        text@ == hidden(),
{
    String::from_str("[HIDDEN]")
}

impl Message {
    /// Whether the contents of this message may be hidden.
    pub fn is_redactable(&self) -> (may: bool)
        ensures
            may == redactable(self@),
    {
        let hidden = hidden_text();
        match self {
            Message::PlainText { role, content } => {
                let assistant = String::from_str("assistant");
                *role == assistant && *content != hidden
            },
            Message::FunctionCall { .. } => false,
            Message::FunctionReturn { content, .. } => *content != hidden,
        }
    }

    /// This message with its contents hidden.
    pub fn redact(&self) -> (message: Message)
        ensures
            message@ == redacted(self@),
    {
        match self {
            Message::PlainText { role, .. } => Message::PlainText {
                role: role.clone(),
                content: hidden_text(),
            },
            Message::FunctionCall { .. } => self.duplicate(),
            Message::FunctionReturn { name, .. } => Message::FunctionReturn {
                name: name.clone(),
                content: hidden_text(),
            },
        }
    }
}

/// Decides what is to be done with `history` when it leaves `remaining`
/// tokens for the reply.
pub fn trim_step(history: &Vec<Message>, remaining: usize) -> (step: TrimStep)
    ensures
        step == trim_decision(transcript(history@), remaining),
        step matches TrimStep::Redact(i) ==> i < history.len(),
{
    if remaining >= HEADROOM {
        return TrimStep::Done;
    }
    let ghost shown = transcript(history@);
    let mut i: usize = 0;
    while i < history.len()
        invariant
            i <= history.len(),
            shown == transcript(history@),
            remaining < HEADROOM,
            first_redactable(shown.take(i as int)) is None,
        decreases history.len() - i,
    {
        assert(shown.take(i + 1).drop_last() =~= shown.take(i as int));
        if history[i].is_redactable() {
            proof {
                lemma_first_redactable(shown.take(i + 1));
                lemma_first_redactable(shown);
                assert(shown.take(i + 1)[i as int] == shown[i as int]);
                assert forall|j: int| 0 <= j < i implies !redactable(shown[j]) by {
                    assert(shown.take(i + 1)[j] == shown[j]);
                }
                assert(first_redactable(shown) == Some(i as int));
            }
            return TrimStep::Redact(i);
        }
        i += 1;
    }
    assert(shown.take(i as int) =~= shown);
    TrimStep::Exhausted
}

/// How the tokenizer counts `history`, message by message.
pub fn count_messages(history: &Vec<Message>) -> (counts: Vec<TokenMessage>)
    ensures
        token_views(counts@) == counted_all(transcript(history@)),
        counts.len() == history.len(),
{
    let mut counts: Vec<TokenMessage> = Vec::new();
    let mut i: usize = 0;
    while i < history.len()
        invariant
            i <= history.len(),
            counts.len() == i,
            token_views(counts@) == counted_all(transcript(history@)).take(i as int),
        decreases history.len() - i,
    {
        let ghost before = counts@;
        counts.push(TokenMessage::of(&history[i]));
        assert(token_views(counts@) =~= token_views(before).push(counted(history@[i as int]@)));
        assert(counted_all(transcript(history@)).take(i + 1) =~= counted_all(
            transcript(history@),
        ).take(i as int).push(counted(history@[i as int]@)));
        i += 1;
    }
    assert(counted_all(transcript(history@)).take(i as int) =~= counted_all(transcript(history@)));
    counts
}

/// Brings `history` within budget: the transcript handed out leaves at least
/// [`HEADROOM`] tokens under the context size of the answering model.
///
/// While the room is too small, the contents of the first message that may
/// be hidden are replaced by `[HIDDEN]`, in the transcript and in the copy
/// that the tokenizer counts, and the room is estimated again. Where the room
/// is too small and nothing is left to hide, the transcript is refused.
pub fn trim_history(history: Vec<Message>) -> (res: Result<Vec<Message>, Error>)
    ensures
        match trimmed(transcript(history@)) {
            Ok(after) => res matches Ok(messages) && transcript(messages@) == after
                && messages.len() == history.len(),
            Err(TrimFault::Exhausted) => res matches Err(Error::Processing(Cause::TrimExhausted)),
            Err(TrimFault::Tokenizer) => res matches Err(Error::Processing(Cause::Tokenizer(_))),
        },
{
    let ghost given = transcript(history@);
    let mut messages = history;
    let mut counts = count_messages(&messages);
    loop
        invariant
            given == transcript(history@),
            token_views(counts@) == counted_all(transcript(messages@)),
            trimmed(transcript(messages@)) == trimmed(given),
            messages.len() == history.len(),
            counts.len() == messages.len(),
        decreases redactable_count(transcript(messages@)),
    {
        let ghost shown = transcript(messages@);
        let remaining = match estimate(&counts) {
            Ok(remaining) => remaining,
            Err(e) => {
                return Err(e);
            },
        };
        match trim_step(&messages, remaining) {
            TrimStep::Done => {
                return Ok(messages);
            },
            TrimStep::Exhausted => {
                return Err(Error::Processing(Cause::TrimExhausted));
            },
            TrimStep::Redact(i) => {
                let message = messages[i].redact();
                let count = TokenMessage::of(&message);
                let ghost counted_before = token_views(counts@);
                messages.set(i, message);
                counts.set(i, count);
                proof {
                    assert(token_views(counts@) =~= counted_before.update(
                        i as int,
                        counted(redacted(shown[i as int])),
                    ));
                    lemma_first_redactable(shown);
                    lemma_redact_counts(shown, i as int);
                    assert(transcript(messages@) =~= redact_at(shown, i as int));
                    assert(token_views(counts@) =~= counted_all(transcript(messages@)));
                }
            },
        }
    }
}

} // verus!
