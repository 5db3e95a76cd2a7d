//! The units of a transcript.

use vstd::prelude::*;
use vstd::string::StringExecFns;

verus! {

/// One unit of a transcript. The order of messages in a transcript carries
/// meaning; nothing else relates two messages.
#[derive(Clone, Debug, PartialEq, Eq)]
pub enum Message {
    /// Text spoken in a role: `system`, `user` or `assistant`.
    PlainText { role: String, content: String },
    /// A call of a function, issued by the model.
    FunctionCall { name: String, arguments: String },
    /// What a called function gave back.
    FunctionReturn { name: String, content: String },
}

/// The mathematical value of a [`Message`].
pub enum MessageView {
    PlainText { role: Seq<char>, content: Seq<char> },
    FunctionCall { name: Seq<char>, arguments: Seq<char> },
    FunctionReturn { name: Seq<char>, content: Seq<char> },
}

impl View for Message {
    type V = MessageView;

    open spec fn view(&self) -> MessageView {
        match *self {
            Message::PlainText { role, content } => MessageView::PlainText {
                role: role@,
                content: content@,
            },
            Message::FunctionCall { name, arguments } => MessageView::FunctionCall {
                name: name@,
                arguments: arguments@,
            },
            Message::FunctionReturn { name, content } => MessageView::FunctionReturn {
                name: name@,
                content: content@,
            },
        }
    }
}

/// The transcript that a sequence of messages stands for.
pub open spec fn transcript(messages: Seq<Message>) -> Seq<MessageView> {
    messages.map_values(|m: Message| m@)
}

/// The role under which system framing is spoken.
pub open spec fn system_role() -> Seq<char> {
    "system"@
}

/// The role of the person asking.
pub open spec fn user_role() -> Seq<char> {
    "user"@
}

/// The role of the model.
pub open spec fn assistant_role() -> Seq<char> {
    "assistant"@
}

/// A plain message in the given role.
pub open spec fn plain(role: Seq<char>, content: Seq<char>) -> MessageView {
    MessageView::PlainText { role, content }
}

impl Message {
    /// A message of system framing.
    pub fn system(content: &str) -> (message: Message)
        ensures
            message@ == plain(system_role(), content@),
    {
        Message::PlainText { role: String::from_str("system"), content: String::from_str(content) }
    }

    /// A message of the person asking.
    pub fn user(content: &str) -> (message: Message)
        ensures
            message@ == plain(user_role(), content@),
    {
        Message::PlainText { role: String::from_str("user"), content: String::from_str(content) }
    }

    /// A message of the model.
    pub fn assistant(content: &str) -> (message: Message)
        ensures
            message@ == plain(assistant_role(), content@),
    {
        Message::PlainText {
            role: String::from_str("assistant"),
            content: String::from_str(content),
        }
    }

    /// The model's call of the function `name` with the argument string
    /// `arguments`.
    pub fn function_call(name: &str, arguments: &str) -> (message: Message)
        ensures
            message@ == (MessageView::FunctionCall { name: name@, arguments: arguments@ }),
    {
        Message::FunctionCall {
            name: String::from_str(name),
            arguments: String::from_str(arguments),
        }
    }

    /// What the function `name` returned.
    pub fn function_return(name: &str, content: &str) -> (message: Message)
        ensures
            message@ == (MessageView::FunctionReturn { name: name@, content: content@ }),
    {
        Message::FunctionReturn {
            name: String::from_str(name),
            content: String::from_str(content),
        }
    }

    /// A copy of this message.
    pub fn duplicate(&self) -> (copy: Message)
        ensures
            copy@ == self@,
    {
        match self {
            Message::PlainText { role, content } => Message::PlainText {
                role: role.clone(),
                content: content.clone(),
            },
            Message::FunctionCall { name, arguments } => Message::FunctionCall {
                name: name.clone(),
                arguments: arguments.clone(),
            },
            Message::FunctionReturn { name, content } => Message::FunctionReturn {
                name: name.clone(),
                content: content.clone(),
            },
        }
    }
}

} // verus!
