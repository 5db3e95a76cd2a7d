//! One step of the session: what an action demands of the driver, what is
//! sent to the model, and what the model's reply makes the next action.
//!
//! A step runs in this order. [`Agent::step`] says what the action demands:
//! an event to record, a tool to run, or the answer to render. After a tool
//! has run, [`Agent::respond`] records what it gave. Unless the action was the
//! answer, which ends the conversation, [`Agent::request`] then builds what is
//! sent to the model, from the system framing and from the answers of earlier
//! turns as the driver's encoder has brought them into the compact form, and
//! [`Agent::reply`] turns the fragments that came back into the next action.

use vstd::prelude::*;
use crate::action::{
    copy_indices, decoded, folded, fragments, Action, ActionView, DecodeFault, FunctionCall,
    FunctionCallView,
};
use crate::agent::{Agent, AgentView};
use crate::alias::all_paths;
use crate::analytics::{
    EventData, EventDataView, Payload, PayloadView, QueryEvent, QueryEventView, Stage, Tool,
};
use crate::error::{Cause, Error};
use crate::exchange::{Exchange, SearchStep, SearchStepView, Update};
use crate::history::{history_of, HistoryFault};
use crate::message::{plain, system_role, transcript, Message, MessageView};
use crate::text::{optional_texts, texts};
use crate::trim::{trim_history, trimmed, TrimFault};

verus! {

/// What an action demands of the driver.
#[derive(Debug)]
pub enum Directive {
    /// Record this event, then ask the model.
    Record(QueryEvent),
    /// Run the path search, record what it gave, then ask the model.
    RunPath { query: String },
    /// Run the code search, record what it gave, then ask the model.
    RunCode { query: String },
    /// Process these files, record what that gave, then ask the model.
    RunProc { query: String, paths: Vec<String> },
    /// Render the answer from the files with these aliases. The step ends
    /// there: it has no next action, and the model is not asked.
    RenderAnswer { aliases: Vec<usize> },
}

/// The mathematical value of a [`Directive`].
pub enum DirectiveView {
    Record(QueryEventView),
    RunPath { query: Seq<char> },
    RunCode { query: Seq<char> },
    RunProc { query: Seq<char>, paths: Seq<Seq<char>> },
    RenderAnswer { aliases: Seq<usize> },
}

impl View for Directive {
    type V = DirectiveView;

    open spec fn view(&self) -> DirectiveView {
        match *self {
            Directive::Record(event) => DirectiveView::Record(event@),
            Directive::RunPath { query } => DirectiveView::RunPath { query: query@ },
            Directive::RunCode { query } => DirectiveView::RunCode { query: query@ },
            Directive::RunProc { query, paths } => DirectiveView::RunProc {
                query: query@,
                paths: texts(paths@),
            },
            Directive::RenderAnswer { aliases } => DirectiveView::RenderAnswer { aliases: aliases@ },
        }
    }
}

impl DirectiveView {
    /// Whether the step ends with this directive, with no next action.
    pub open spec fn is_terminal(self) -> bool {
        self is RenderAnswer
    }

    /// The number of times the answer is rendered.
    pub open spec fn renderings(self) -> nat {
        if self is RenderAnswer {
            1
        } else {
            0
        }
    }
}

impl Directive {
    /// Whether the step ends with this directive, with no next action.
    pub fn is_terminal(&self) -> (ends: bool)
        ensures
            ends == self@.is_terminal(),
    {
        match self {
            Directive::RenderAnswer { .. } => true,
            _ => false,
        }
    }
}

/// The paths with the given aliases, where each alias is in the table.
pub open spec fn paths_at(aliases: Seq<usize>, table: Seq<Seq<char>>) -> Option<Seq<Seq<char>>>
    decreases aliases.len(),
{
    if aliases.len() == 0 {
        Some(Seq::<Seq<char>>::empty())
    } else {
        match paths_at(aliases.drop_last(), table) {
            Some(front) => if aliases.last() < table.len() {
                Some(front.push(table[aliases.last() as int]))
            } else {
                None
            },
            None => None,
        }
    }
}

/// What is reported when a query comes in.
pub open spec fn query_event(text: Seq<char>) -> EventDataView {
    EventDataView::bare(Stage::Input, "query"@).with("q"@, PayloadView::Text(text))
}

/// What `action` demands of a session; `None` where it gives an alias that
/// the table does not hold.
pub open spec fn directed(session: AgentView, action: ActionView) -> Option<DirectiveView> {
    match action {
        ActionView::Query(text) => Some(DirectiveView::Record(session.event(query_event(text)))),
        ActionView::Path { query } => Some(DirectiveView::RunPath { query }),
        ActionView::Code { query } => Some(DirectiveView::RunCode { query }),
        ActionView::Proc { query, paths } => match paths_at(paths, all_paths(session.exchanges)) {
            Some(paths) => Some(DirectiveView::RunProc { query, paths }),
            None => None,
        },
        ActionView::Answer { paths } => Some(DirectiveView::RenderAnswer { aliases: paths }),
    }
}

/// The terminal action. Whatever the session holds, the answer action demands
/// that the answer be rendered, once, from the aliases it names, and ends the
/// step with no next action; no other action ends it.
pub proof fn lemma_answer_is_terminal(session: AgentView, action: ActionView)
    ensures
        action matches ActionView::Answer { paths } ==> directed(session, action) == Some(
            DirectiveView::RenderAnswer { aliases: paths },
        ),
        directed(session, action) matches Some(directive) ==> (directive.is_terminal()
            <==> action is Answer) && directive.renderings() == (if action is Answer {
            1nat
        } else {
            0nat
        }),
{
}

/// Where the first aliases of a list are beyond the table, the list is.
pub proof fn lemma_paths_fail(aliases: Seq<usize>, n: int, table: Seq<Seq<char>>)
    requires
        0 <= n <= aliases.len(),
        paths_at(aliases.take(n), table) is None,
    ensures
        paths_at(aliases, table) is None,
    decreases aliases.len() - n,
{
    if n < aliases.len() {
        assert(aliases.take(n + 1).drop_last() =~= aliases.take(n));
        lemma_paths_fail(aliases, n + 1, table);
    } else {
        assert(aliases.take(n) =~= aliases);
    }
}

/// The paths with the given aliases.
pub fn resolve_paths(aliases: &Vec<usize>, table: &Vec<String>) -> (paths: Option<Vec<String>>)
    ensures
        match paths {
            Some(found) => paths_at(aliases@, texts(table@)) == Some(texts(found@)),
            None => paths_at(aliases@, texts(table@)) is None,
        },
{
    let mut found: Vec<String> = Vec::new();
    let mut i: usize = 0;
    assert(aliases@.take(0) =~= Seq::<usize>::empty());
    assert(texts(found@) =~= Seq::<Seq<char>>::empty());
    while i < aliases.len()
        invariant
            i <= aliases.len(),
            paths_at(aliases@.take(i as int), texts(table@)) == Some(texts(found@)),
        decreases aliases.len() - i,
    {
        assert(aliases@.take(i + 1).drop_last() =~= aliases@.take(i as int));
        let alias = aliases[i];
        if alias >= table.len() {
            proof {
                assert(paths_at(aliases@.take(i + 1), texts(table@)) is None);
                lemma_paths_fail(aliases@, i + 1, texts(table@));
            }
            return None;
        }
        let ghost before = texts(found@);
        found.push(table[alias].clone());
        assert(texts(found@) =~= before.push(texts(table@)[alias as int]));
        i += 1;
    }
    assert(aliases@.take(i as int) =~= aliases@);
    Some(found)
}

/// The functions offered to the model: the two searches and the answer, and
/// the processing of files where `add_proc` says so.
pub open spec fn catalog(add_proc: bool) -> Seq<Tool> {
    if add_proc {
        seq![Tool::Code, Tool::Path, Tool::Answer, Tool::Proc]
    } else {
        seq![Tool::Code, Tool::Path, Tool::Answer]
    }
}

/// Proc gating. The processing of files is offered exactly where asked for;
/// the other three functions are always offered.
pub proof fn lemma_proc_gating(add_proc: bool)
    ensures
        catalog(add_proc).contains(Tool::Proc) <==> add_proc,
        catalog(add_proc).contains(Tool::Code),
        catalog(add_proc).contains(Tool::Path),
        catalog(add_proc).contains(Tool::Answer),
{
    let offered = catalog(add_proc);
    assert(offered[0] == Tool::Code && offered[1] == Tool::Path && offered[2] == Tool::Answer);
    if add_proc {
        assert(offered[3] == Tool::Proc);
    }
}

/// The functions offered to the model.
pub fn functions(add_proc: bool) -> (offered: Vec<Tool>)
    ensures
        offered@ == catalog(add_proc),
{
    let mut offered: Vec<Tool> = Vec::new();
    offered.push(Tool::Code);
    offered.push(Tool::Path);
    offered.push(Tool::Answer);
    if add_proc {
        offered.push(Tool::Proc);
    }
    assert(offered@ =~= catalog(add_proc));
    offered
}

/// What is sent to the model, and what it was made from.
#[derive(Clone, Debug, PartialEq, Eq)]
pub struct Request {
    /// The functions offered.
    pub functions: Vec<Tool>,
    /// The transcript in full: the system framing and the history.
    pub history: Vec<Message>,
    /// The transcript as it is sent, brought within budget.
    pub trimmed: Vec<Message>,
}

/// The mathematical value of a [`Request`].
pub struct RequestView {
    pub functions: Seq<Tool>,
    pub history: Seq<MessageView>,
    pub trimmed: Seq<MessageView>,
}

impl View for Request {
    type V = RequestView;

    open spec fn view(&self) -> RequestView {
        RequestView {
            functions: self.functions@,
            history: transcript(self.history@),
            trimmed: transcript(self.trimmed@),
        }
    }
}

/// Why nothing can be sent to the model.
pub enum RequestFault {
    /// A turn within the window has no query that can be resolved.
    MissingQuery,
    /// A recorded step names a path that has no alias.
    UnknownPath,
    /// A final answer came without the form in which it is shown.
    UnencodedAnswer,
    /// The transcript is over budget and nothing is left to hide.
    Exhausted,
    /// The tokenizer gave no estimate.
    Tokenizer,
}

/// What a session sends to the model under the system framing `system`,
/// where `encoded` holds the answers of the turns shown in their compact form.
/// The catalog holds the processing of files only where the session holds a
/// path; the transcript is the framing followed by the history, brought within
/// budget.
pub open spec fn requested(
    session: AgentView,
    system: Seq<char>,
    encoded: Seq<Option<Seq<char>>>,
) -> Result<RequestView, RequestFault> {
    match history_of(session.exchanges, encoded) {
        Err(HistoryFault::MissingQuery) => Err(RequestFault::MissingQuery),
        Err(HistoryFault::UnknownPath) => Err(RequestFault::UnknownPath),
        Err(HistoryFault::UnencodedAnswer) => Err(RequestFault::UnencodedAnswer),
        Ok(shown) => {
            let history = seq![plain(system_role(), system)] + shown;
            match trimmed(history) {
                Err(TrimFault::Exhausted) => Err(RequestFault::Exhausted),
                Err(TrimFault::Tokenizer) => Err(RequestFault::Tokenizer),
                Ok(fitted) => Ok(
                    RequestView {
                        functions: catalog(all_paths(session.exchanges).len() > 0),
                        history,
                        trimmed: fitted,
                    },
                ),
            }
        },
    }
}

/// What is reported when the model has replied.
pub open spec fn reply_event(request: RequestView, raw: FunctionCallView) -> EventDataView {
    EventDataView::bare(Stage::Output, "llm_reply"@).with(
        "full_history"@,
        PayloadView::Transcript(request.history),
    ).with("trimmed_history"@, PayloadView::Transcript(request.trimmed)).with(
        "last_message"@,
        PayloadView::LastMessage(
            if request.history.len() > 0 {
                Some(request.history.last())
            } else {
                None
            },
        ),
    ).with("functions"@, PayloadView::Functions(request.functions)).with(
        "raw_response"@,
        PayloadView::Call(raw),
    )
}

/// What a reply of the model comes to.
#[derive(Debug)]
pub struct Reply {
    /// The event to record, whether or not the reply could be decoded.
    pub event: QueryEvent,
    /// The next action, or why the reply stands for none.
    pub action: Result<Action, Error>,
}

/// The search step that records what the tool of `directive` gave; `None` for
/// a directive that runs no tool.
pub open spec fn recorded(directive: DirectiveView, response: Seq<char>) -> Option<SearchStepView> {
    match directive {
        DirectiveView::RunPath { query } => Some(SearchStepView::Path { query, response }),
        DirectiveView::RunCode { query } => Some(SearchStepView::Code { query, response }),
        DirectiveView::RunProc { query, paths } => Some(
            SearchStepView::Proc { query, paths, response },
        ),
        _ => None,
    }
}

/// A copy of a transcript.
pub fn copy_messages(messages: &Vec<Message>) -> (copy: Vec<Message>)
    ensures
        transcript(copy@) == transcript(messages@),
        copy.len() == messages.len(),
{
    let mut copy: Vec<Message> = Vec::new();
    let mut i: usize = 0;
    while i < messages.len()
        invariant
            i <= messages.len(),
            copy.len() == i,
            transcript(copy@) == transcript(messages@).take(i as int),
        decreases messages.len() - i,
    {
        let ghost before = copy@;
        copy.push(messages[i].duplicate());
        assert(transcript(copy@) =~= transcript(before).push(messages@[i as int]@));
        assert(transcript(messages@).take(i + 1) =~= transcript(messages@).take(i as int).push(
            messages@[i as int]@,
        ));
        i += 1;
    }
    assert(transcript(messages@).take(i as int) =~= transcript(messages@));
    copy
}

impl Agent {
    /// Says what `action` demands of the driver. The session stays as it is.
    ///
    /// A query is reported and goes to the model. A search or the processing
    /// of files is to be run first; the aliases of the files to process are
    /// turned into their paths, and an alias that the table does not hold is
    /// refused. The answer is to be rendered, and ends the step.
    pub fn step(&self, action: &Action) -> (res: Result<Directive, Error>)
        ensures
            match directed(self@, action@) {
                Some(directive) => res matches Ok(given) && given@ == directive,
                None => res matches Err(Error::Processing(Cause::UnknownPath)),
            },
    {
        match action {
            Action::Query(text) => {
                let data = EventData::input_stage("query").with_text("q", text.as_str());
                Ok(Directive::Record(self.track_query(data)))
            },
            Action::Path { query } => Ok(Directive::RunPath { query: query.clone() }),
            Action::Code { query } => Ok(Directive::RunCode { query: query.clone() }),
            Action::Proc { query, paths } => {
                let table = self.paths();
                match resolve_paths(paths, &table) {
                    Some(paths) => Ok(Directive::RunProc { query: query.clone(), paths }),
                    None => Err(Error::Processing(Cause::UnknownPath)),
                }
            },
            Action::Answer { paths } => Ok(Directive::RenderAnswer { aliases: copy_indices(paths) }),
        }
    }

    /// Records what the tool of `directive` gave as a new search step of the
    /// active turn, and hands out the snapshot of that turn that is to be
    /// published. For a directive that runs no tool the session stays as it
    /// is and nothing is to be published.
    pub fn respond(&mut self, directive: Directive, response: String) -> (snapshot: Option<
        Exchange,
    >)
        requires
            old(self)@.exchanges.len() > 0,
        ensures
            match recorded(directive@, response@) {
                Some(step) => {
                    &&& final(self)@ == (AgentView {
                        exchanges: old(self)@.exchanges.update(
                            old(self)@.exchanges.len() - 1,
                            crate::exchange::ExchangeView {
                                search_steps: old(self)@.exchanges.last().search_steps.push(step),
                                ..old(self)@.exchanges.last()
                            },
                        ),
                        ..old(self)@
                    })
                    &&& snapshot matches Some(turn) && turn@ == final(self)@.exchanges.last()
                },
                None => final(self)@ == old(self)@ && snapshot is None,
            },
    {
        let step = match directive {
            Directive::RunPath { query } => SearchStep::Path { query, response },
            Directive::RunCode { query } => SearchStep::Code { query, response },
            Directive::RunProc { query, paths } => SearchStep::Proc { query, paths, response },
            _ => {
                return None;
            },
        };
        Some(self.update(Update::StartStep(step)))
    }

    /// The functions offered to the model: the processing of files is among
    /// them only where the session holds a path.
    pub fn functions(&self) -> (offered: Vec<Tool>)
        ensures
            offered@ == catalog(all_paths(self@.exchanges).len() > 0),
    {
        let table = self.paths();
        assert(texts(table@).len() == table.len());
        functions(table.len() > 0)
    }

    /// Builds what is sent to the model: the catalog of functions, and the
    /// transcript, which is the system framing `system` followed by the
    /// history, brought within budget. `encoded` holds the answers that
    /// [`Agent::answers`] names, each in the compact form.
    pub fn request(&self, system: &str, encoded: &Vec<Option<String>>) -> (res: Result<
        Request,
        Error,
    >)
        ensures
            match requested(self@, system@, optional_texts(encoded@)) {
                Ok(request) => res matches Ok(built) && built@ == request,
                Err(RequestFault::MissingQuery) => res matches Err(
                    Error::Processing(Cause::MissingQuery),
                ),
                Err(RequestFault::UnknownPath) => res matches Err(
                    Error::Processing(Cause::UnknownPath),
                ),
                Err(RequestFault::UnencodedAnswer) => res matches Err(
                    Error::Processing(Cause::UnencodedAnswer),
                ),
                Err(RequestFault::Exhausted) => res matches Err(
                    Error::Processing(Cause::TrimExhausted),
                ),
                Err(RequestFault::Tokenizer) => res matches Err(
                    Error::Processing(Cause::Tokenizer(_)),
                ),
            },
    {
        let functions = self.functions();
        let mut shown = match self.history(encoded) {
            Ok(shown) => shown,
            Err(e) => {
                return Err(e);
            },
        };
        let mut history: Vec<Message> = Vec::new();
        history.push(Message::system(system));
        let ghost tail = transcript(shown@);
        history.append(&mut shown);
        assert(transcript(history@) =~= seq![plain(system_role(), system@)] + tail);
        let trimmed = match trim_history(copy_messages(&history)) {
            Ok(trimmed) => trimmed,
            Err(e) => {
                return Err(e);
            },
        };
        Ok(Request { functions, history, trimmed })
    }

    /// Turns the fragments of the model's reply, in the order they arrived,
    /// into one function call, reports it, and decodes it into the next
    /// action.
    pub fn reply(&self, request: Request, stream: &Vec<FunctionCall>) -> (reply: Reply)
        ensures
            reply.event@ == self@.event(reply_event(request@, folded(fragments(stream@)))),
            match decoded(folded(fragments(stream@))) {
                Ok(action) => reply.action matches Ok(made) && made@ == action,
                Err(DecodeFault::MissingName) => reply.action matches Err(
                    Error::Processing(Cause::MissingName),
                ),
                Err(DecodeFault::InvalidArguments) => reply.action matches Err(
                    Error::Processing(Cause::InvalidArguments(_)),
                ),
                Err(DecodeFault::UnknownAction) => reply.action matches Err(
                    Error::Processing(Cause::UnknownAction),
                ),
            },
    {
        let raw = FunctionCall::collect(stream);
        let action = Action::deserialize_gpt(&raw);
        let last = if request.history.len() > 0 {
            Some(request.history[request.history.len() - 1].duplicate())
        } else {
            None
        };
        let data = EventData::output_stage("llm_reply").with_payload(
            "full_history",
            Payload::Transcript(request.history),
        ).with_payload("trimmed_history", Payload::Transcript(request.trimmed)).with_payload(
            "last_message",
            Payload::LastMessage(last),
        ).with_payload("functions", Payload::Functions(request.functions)).with_payload(
            "raw_response",
            Payload::Call(raw),
        );
        Reply { event: self.track_query(data), action }
    }
}

} // verus!
