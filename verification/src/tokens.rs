//! What a transcript costs: the estimate of the tokenizer.

use vstd::prelude::*;
use vstd::string::StringExecFns;
use vstd::utf8::encode_utf8;
use crate::error::{Cause, Error};
use crate::message::{assistant_role, Message, MessageView};
use crate::text::optional_text;

verus! {

/// A message as the tokenizer counts it.
#[derive(Clone, Debug, PartialEq, Eq)]
pub struct TokenMessage {
    /// The role of the author.
    pub role: String,
    /// The contents.
    pub content: String,
    /// The name that goes with the role, where there is one.
    pub name: Option<String>,
}

/// The mathematical value of a [`TokenMessage`].
pub struct TokenMessageView {
    pub role: Seq<char>,
    pub content: Seq<char>,
    pub name: Option<Seq<char>>,
}

impl View for TokenMessage {
    type V = TokenMessageView;

    open spec fn view(&self) -> TokenMessageView {
        TokenMessageView { role: self.role@, content: self.content@, name: optional_text(self.name) }
    }
}

/// What a list of messages is to the tokenizer.
pub open spec fn token_views(messages: Seq<TokenMessage>) -> Seq<TokenMessageView> {
    messages.map_values(|m: TokenMessage| m@)
}

/// The role under which a function's return is counted.
pub open spec fn function_role() -> Seq<char> {
    "function"@
}

/// How a message of the transcript is counted. Plain text counts under its
/// role. What a function returned counts under the role `function`, with the
/// function's name. A call counts as the model's, with the function's name and
/// the argument string as its contents.
pub open spec fn counted(message: MessageView) -> TokenMessageView {
    match message {
        MessageView::PlainText { role, content } => TokenMessageView { role, content, name: None },
        MessageView::FunctionCall { name, arguments } => TokenMessageView {
            role: assistant_role(),
            content: arguments,
            name: Some(name),
        },
        MessageView::FunctionReturn { name, content } => TokenMessageView {
            role: function_role(),
            content,
            name: Some(name),
        },
    }
}

/// How a transcript is counted, message by message.
pub open spec fn counted_all(history: Seq<MessageView>) -> Seq<TokenMessageView> {
    history.map_values(|m: MessageView| counted(m))
}

/// The model whose context size sets the budget.
pub open spec fn answer_model() -> Seq<char> {
    "gpt-4-0613"@
}

/// The largest size of a transcript that the tokenizer is asked about.
///
/// The tokenizer's pattern matcher gives up, with a panic, on a run of a
/// million characters, and its count is kept in 32 bits; a transcript of this
/// size stays clear of both. No token of the tokenizer's table covers more
/// than 128 bytes, so a transcript above 786435 bytes costs more than 6144
/// tokens and leaves less than the headroom of the 8192 that the answering
/// model takes. To take a transcript above this limit to leave no room at all
/// therefore changes nothing in what is hidden or refused.
pub const COUNT_LIMIT: usize = 800000;

/// The number of bytes of a text.
pub open spec fn bytes(text: Seq<char>) -> nat {
    encode_utf8(text).len()
}

/// The size of one message: its bytes, and five for what the tokenizer adds
/// to a message at most. No text has more tokens than bytes.
pub open spec fn message_size(message: TokenMessageView) -> nat {
    bytes(message.role) + bytes(message.content) + (match message.name {
        Some(name) => bytes(name),
        None => 0,
    }) + 5
}

/// The size of a transcript: that of its messages, and three for what the
/// tokenizer adds to a transcript. The count of the tokenizer is never above
/// it.
pub open spec fn transcript_size(messages: Seq<TokenMessageView>) -> nat
    decreases messages.len(),
{
    if messages.len() == 0 {
        3
    } else {
        transcript_size(messages.drop_last()) + message_size(messages.last())
    }
}

/// The number of tokens that the tokenizer leaves for the model's reply when
/// `model` is sent `messages`: the model's context size less the estimated
/// cost of the messages, and zero where the cost is above the context size.
/// `None` where the tokenizer knows no chat encoding for the model.
pub uninterp spec fn completion_budget(model: Seq<char>, messages: Seq<TokenMessageView>) -> Option<
    usize,
>;

/// The room that `messages` leave for the reply of the answering model: the
/// tokenizer's estimate where they are within [`COUNT_LIMIT`], and none at all
/// where they are above it. `None` where the tokenizer gives no estimate.
pub open spec fn estimated(messages: Seq<TokenMessageView>) -> Option<usize> {
    if transcript_size(messages) <= COUNT_LIMIT {
        completion_budget(answer_model(), messages)
    } else {
        Some(0)
    }
}

/// The tokenizer's estimate, `tiktoken_rs::get_chat_completion_max_tokens`.
///
/// Trusted, not proved: the result depends on the model's name and on the
/// roles, contents and names of the messages alone (the tokenizer's tables are
/// part of the crate), so it is given the name [`completion_budget`]; an error,
/// handed on as its text, comes exactly where that name is `None`.
/// Nothing is claimed of the number itself. The size asked for keeps the
/// messages where the tokenizer returns: see [`COUNT_LIMIT`].
#[verifier::external_body]
pub(crate) fn chat_completion_max_tokens(model: &str, messages: &Vec<TokenMessage>) -> (res: Result<
    usize,
    String,
>)
    requires
        transcript_size(token_views(messages@)) <= COUNT_LIMIT,
    ensures
        res matches Ok(n) ==> completion_budget(model@, token_views(messages@)) == Some(n),
        res is Err ==> completion_budget(model@, token_views(messages@)) is None,
{
    let converted: Vec<tiktoken_rs::ChatCompletionRequestMessage> = messages.iter().map(
        |m| tiktoken_rs::ChatCompletionRequestMessage {
            role: m.role.clone(),
            content: m.content.clone(),
            name: m.name.clone(),
        },
    ).collect();
    tiktoken_rs::get_chat_completion_max_tokens(model, &converted).map_err(|e| e.to_string())
}

/// A part of a transcript is no larger than the whole.
pub proof fn lemma_size_grows(messages: Seq<TokenMessageView>, n: int)
    requires
        0 <= n <= messages.len(),
    ensures
        transcript_size(messages.take(n)) <= transcript_size(messages),
    decreases messages.len() - n,
{
    if n < messages.len() {
        assert(messages.take(n + 1).drop_last() =~= messages.take(n));
        lemma_size_grows(messages, n + 1);
    } else {
        assert(messages.take(n) =~= messages);
    }
}

/// The name of the model whose context size sets the budget.
pub fn answer_model_name() -> (name: &'static str)
    ensures
        name@ == answer_model(),
{
    "gpt-4-0613"
}

/// `total` and the bytes of `text`, where that stays within the limit.
fn add_bytes(total: usize, text: &str) -> (sum: Option<usize>)
    requires
        total <= COUNT_LIMIT,
    ensures
        match sum {
            Some(n) => n == total + bytes(text@) && n <= COUNT_LIMIT,
            None => total + bytes(text@) > COUNT_LIMIT,
        },
{
    let more = text.as_bytes().len();
    if more > COUNT_LIMIT - total {
        None
    } else {
        Some(total + more)
    }
}

/// `total` and the size of `message`, where that stays within the limit.
fn add_message(total: usize, message: &TokenMessage) -> (sum: Option<usize>)
    requires
        total <= COUNT_LIMIT,
    ensures
        match sum {
            Some(n) => n == total + message_size(message@) && n <= COUNT_LIMIT,
            None => total + message_size(message@) > COUNT_LIMIT,
        },
{
    let with_role = match add_bytes(total, message.role.as_str()) {
        Some(n) => n,
        None => {
            return None;
        },
    };
    let with_content = match add_bytes(with_role, message.content.as_str()) {
        Some(n) => n,
        None => {
            return None;
        },
    };
    let with_name = match &message.name {
        Some(name) => match add_bytes(with_content, name.as_str()) {
            Some(n) => n,
            None => {
                return None;
            },
        },
        None => with_content,
    };
    if with_name > COUNT_LIMIT - 5 {
        None
    } else {
        Some(with_name + 5)
    }
}

/// Whether `messages` are small enough for the tokenizer to be asked.
pub fn countable(messages: &Vec<TokenMessage>) -> (fits: bool)
    ensures
        fits == (transcript_size(token_views(messages@)) <= COUNT_LIMIT),
{
    let ghost all = token_views(messages@);
    let mut total: usize = 3;
    let mut i: usize = 0;
    assert(all.take(0) =~= Seq::<TokenMessageView>::empty());
    while i < messages.len()
        invariant
            i <= messages.len(),
            all == token_views(messages@),
            total == transcript_size(all.take(i as int)),
            total <= COUNT_LIMIT,
        decreases messages.len() - i,
    {
        assert(all.take(i + 1).drop_last() =~= all.take(i as int));
        assert(all.take(i + 1).last() == messages@[i as int]@);
        match add_message(total, &messages[i]) {
            Some(sum) => {
                total = sum;
            },
            None => {
                proof {
                    lemma_size_grows(all, i + 1);
                }
                return false;
            },
        }
        i += 1;
    }
    assert(all.take(i as int) =~= all);
    true
}

/// Estimates the room that `messages` leave for the reply of the answering
/// model.
pub fn estimate(messages: &Vec<TokenMessage>) -> (res: Result<usize, Error>)
    ensures
        match estimated(token_views(messages@)) {
            Some(room) => res matches Ok(n) && n == room,
            None => res matches Err(Error::Processing(Cause::Tokenizer(_))),
        },
{
    if !countable(messages) {
        return Ok(0);
    }
    match chat_completion_max_tokens(answer_model_name(), messages) {
        Ok(room) => Ok(room),
        Err(said) => Err(Error::Processing(Cause::Tokenizer(said))),
    }
}

impl TokenMessage {
    /// How `message` is counted.
    pub fn of(message: &Message) -> (counts: TokenMessage)
        ensures
            counts@ == counted(message@),
    {
        match message {
            Message::PlainText { role, content } => TokenMessage {
                role: role.clone(),
                content: content.clone(),
                name: None,
            },
            Message::FunctionCall { name, arguments } => TokenMessage {
                role: String::from_str("assistant"),
                content: arguments.clone(),
                name: Some(name.clone()),
            },
            Message::FunctionReturn { name, content } => TokenMessage {
                role: String::from_str("function"),
                content: content.clone(),
                name: Some(name.clone()),
            },
        }
    }
}

} // verus!
