//! What the session reports of itself: the events that the driver sends to
//! the analytics sink.

use vstd::prelude::*;
use vstd::string::StringExecFns;
use crate::action::{FunctionCall, FunctionCallView};
use crate::message::{transcript, Message, MessageView};
use crate::text::optional_text;

verus! {

/// A function that can be offered to the model.
#[derive(Clone, Copy, Debug, PartialEq, Eq, Structural)]
pub enum Tool {
    /// Search for code; the model calls it `code`.
    Code,
    /// Search for paths; the model calls it `path`.
    Path,
    /// Answer; the model calls it `none`.
    Answer,
    /// Process files; the model calls it `proc`.
    Proc,
}

impl Tool {
    /// The name under which the model calls this function.
    pub open spec fn tag(self) -> Seq<char> {
        match self {
            Tool::Code => "code"@,
            Tool::Path => "path"@,
            Tool::Answer => "none"@,
            Tool::Proc => "proc"@,
        }
    }

    /// The name under which the model calls this function.
    pub fn name(&self) -> (name: &'static str)
        ensures
            name@ == self.tag(),
    {
        match self {
            Tool::Code => "code",
            Tool::Path => "path",
            Tool::Answer => "none",
            Tool::Proc => "proc",
        }
    }
}

/// Whether an event is about what came in or about what went out.
#[derive(Clone, Copy, Debug, PartialEq, Eq, Structural)]
pub enum Stage {
    Input,
    Output,
}

/// One thing that an event carries.
#[derive(Clone, Debug, PartialEq, Eq)]
pub enum Payload {
    Text(String),
    Transcript(Vec<Message>),
    LastMessage(Option<Message>),
    Functions(Vec<Tool>),
    Call(FunctionCall),
}

/// The mathematical value of a [`Payload`].
pub enum PayloadView {
    Text(Seq<char>),
    Transcript(Seq<MessageView>),
    LastMessage(Option<MessageView>),
    Functions(Seq<Tool>),
    Call(FunctionCallView),
}

impl View for Payload {
    type V = PayloadView;

    open spec fn view(&self) -> PayloadView {
        match *self {
            Payload::Text(text) => PayloadView::Text(text@),
            Payload::Transcript(messages) => PayloadView::Transcript(transcript(messages@)),
            Payload::LastMessage(message) => PayloadView::LastMessage(
                match message {
                    Some(m) => Some(m@),
                    None => None,
                },
            ),
            Payload::Functions(functions) => PayloadView::Functions(functions@),
            Payload::Call(call) => PayloadView::Call(call@),
        }
    }
}

/// What an event says: its stage, its name, and what it carries under which
/// key, in the order it was added.
#[derive(Clone, Debug, PartialEq, Eq)]
pub struct EventData {
    pub stage: Stage,
    pub name: String,
    pub payload: Vec<(String, Payload)>,
}

/// The mathematical value of an [`EventData`].
pub struct EventDataView {
    pub stage: Stage,
    pub name: Seq<char>,
    pub payload: Seq<(Seq<char>, PayloadView)>,
}

/// What a list of keyed payloads holds.
pub open spec fn payloads(items: Seq<(String, Payload)>) -> Seq<(Seq<char>, PayloadView)> {
    items.map_values(|item: (String, Payload)| (item.0@, item.1@))
}

impl View for EventData {
    type V = EventDataView;

    open spec fn view(&self) -> EventDataView {
        EventDataView { stage: self.stage, name: self.name@, payload: payloads(self.payload@) }
    }
}

impl EventDataView {
    /// An event that carries nothing yet.
    pub open spec fn bare(stage: Stage, name: Seq<char>) -> EventDataView {
        EventDataView { stage, name, payload: Seq::<(Seq<char>, PayloadView)>::empty() }
    }

    /// The event with one more payload.
    pub open spec fn with(self, key: Seq<char>, value: PayloadView) -> EventDataView {
        EventDataView { payload: self.payload.push((key, value)), ..self }
    }
}

impl EventData {
    /// An event about what came in.
    pub fn input_stage(name: &str) -> (data: EventData)
        ensures
            data@ == EventDataView::bare(Stage::Input, name@),
    {
        let data = EventData { stage: Stage::Input, name: String::from_str(name), payload: Vec::new() };
        assert(payloads(data.payload@) =~= Seq::<(Seq<char>, PayloadView)>::empty());
        data
    }

    /// An event about what went out.
    pub fn output_stage(name: &str) -> (data: EventData)
        ensures
            data@ == EventDataView::bare(Stage::Output, name@),
    {
        let data = EventData {
            stage: Stage::Output,
            name: String::from_str(name),
            payload: Vec::new(),
        };
        assert(payloads(data.payload@) =~= Seq::<(Seq<char>, PayloadView)>::empty());
        data
    }

    /// This event with `value` added under `key`.
    pub fn with_payload(self, key: &str, value: Payload) -> (data: EventData)
        ensures
            data@ == self@.with(key@, value@),
    {
        let mut data = self;
        data.payload.push((String::from_str(key), value));
        assert(payloads(data.payload@) =~= payloads(self.payload@).push((key@, value@)));
        data
    }

    /// This event with the text `value` added under `key`.
    pub fn with_text(self, key: &str, value: &str) -> (data: EventData)
        ensures
            data@ == self@.with(key@, PayloadView::Text(value@)),
    {
        self.with_payload(key, Payload::Text(String::from_str(value)))
    }
}

/// An event of one query of one session.
#[derive(Debug)]
pub struct QueryEvent {
    pub query_id: uuid::Uuid,
    pub thread_id: uuid::Uuid,
    pub repo_ref: Option<String>,
    pub data: EventData,
}

/// The mathematical value of a [`QueryEvent`].
pub struct QueryEventView {
    pub query_id: uuid::Uuid,
    pub thread_id: uuid::Uuid,
    pub repo_ref: Option<Seq<char>>,
    pub data: EventDataView,
}

impl View for QueryEvent {
    type V = QueryEventView;

    open spec fn view(&self) -> QueryEventView {
        QueryEventView {
            query_id: self.query_id,
            thread_id: self.thread_id,
            repo_ref: optional_text(self.repo_ref),
            data: self.data@,
        }
    }
}

} // verus!
