//! The session: the turns of one conversation and the marks of its life.

use vstd::prelude::*;
use crate::analytics::{
    EventData, EventDataView, PayloadView, QueryEvent, QueryEventView, Stage,
};
use crate::exchange::{turns, Exchange, ExchangeView, Query, QueryView, Update};

verus! {

/// An identifier of a session or of a query, carried as it came.
#[verifier::external_type_specification]
#[verifier::external_body]
pub struct ExUuid(uuid::Uuid);

/// The number of paths that a fuzzy path search asks for at most.
pub const FUZZY_PATH_LIMIT: usize = 50;

/// One session of the agent.
///
/// The turn list is never empty once the session has started: whatever
/// touches the active turn asks for that.
pub struct Agent {
    /// The repository the conversation is about.
    pub repo_ref: String,
    /// The turns, oldest first; the last one is the active turn.
    pub exchanges: Vec<Exchange>,
    /// The session.
    pub thread_id: uuid::Uuid,
    /// The query that the active turn answers.
    pub query_id: uuid::Uuid,
    /// Whether the request was answered. A session torn down before it was
    /// marked complete counts as cancelled.
    pub complete: bool,
}

/// The mathematical value of an [`Agent`].
pub struct AgentView {
    pub repo_ref: Seq<char>,
    pub exchanges: Seq<ExchangeView>,
    pub thread_id: uuid::Uuid,
    pub query_id: uuid::Uuid,
    pub complete: bool,
}

/// What is reported of a session that was torn down before it was complete.
pub open spec fn cancelled() -> EventDataView {
    EventDataView::bare(Stage::Output, "cancelled"@).with(
        "message"@,
        PayloadView::Text("request was cancelled"@),
    )
}

impl AgentView {
    /// The event of this session that says `data`.
    pub open spec fn event(self, data: EventDataView) -> QueryEventView {
        QueryEventView {
            query_id: self.query_id,
            thread_id: self.thread_id,
            repo_ref: Some(self.repo_ref),
            data,
        }
    }

    /// What the teardown of this session reports: a cancellation where the
    /// session is not complete, nothing where it is.
    pub open spec fn teardown(self) -> Option<QueryEventView> {
        if self.complete {
            None
        } else {
            Some(self.event(cancelled()))
        }
    }

    /// The query that a semantic search for `target` runs: the query of the
    /// active turn, turned to `target` and confined to the session's
    /// repository.
    pub open spec fn semantic_query(self, target: Seq<char>) -> QueryView
        recommends
            self.exchanges.len() > 0,
    {
        QueryView {
            target: Some(target),
            repos: seq![self.repo_ref],
            branches: self.exchanges.last().query.branches,
        }
    }

    /// The session with `update` applied to its active turn.
    pub open spec fn updated(self, update: Update) -> AgentView
        recommends
            self.exchanges.len() > 0,
    {
        AgentView {
            exchanges: self.exchanges.update(
                self.exchanges.len() - 1,
                self.exchanges.last().updated(update),
            ),
            ..self
        }
    }
}

/// Cancellation. Tearing down a session that was never marked complete
/// reports one cancellation, and no second one however often the teardown
/// runs, since it leaves the session complete; tearing down a session that was
/// marked complete reports nothing.
pub proof fn lemma_cancellation(session: AgentView)
    ensures
        !session.complete ==> session.teardown() == Some(session.event(cancelled())),
        session.complete ==> session.teardown() is None,
        (AgentView { complete: true, ..session }).teardown() is None,
{
}

impl View for Agent {
    type V = AgentView;

    open spec fn view(&self) -> AgentView {
        AgentView {
            repo_ref: self.repo_ref@,
            exchanges: turns(self.exchanges@),
            thread_id: self.thread_id,
            query_id: self.query_id,
            complete: self.complete,
        }
    }
}

impl Agent {
    /// A session on `repo_ref` that has started with the turns `exchanges`,
    /// and is not complete.
    pub fn new(
        repo_ref: String,
        exchanges: Vec<Exchange>,
        thread_id: uuid::Uuid,
        query_id: uuid::Uuid,
    ) -> (agent: Agent)
        ensures
            agent@ == (AgentView {
                repo_ref: repo_ref@,
                exchanges: turns(exchanges@),
                thread_id,
                query_id,
                complete: false,
            }),
    {
        Agent { repo_ref, exchanges, thread_id, query_id, complete: false }
    }

    /// The event of this session that says `data`. Sending it is the
    /// driver's business.
    pub fn track_query(&self, data: EventData) -> (event: QueryEvent)
        ensures
            event@ == self@.event(data@),
    {
        QueryEvent {
            query_id: self.query_id,
            thread_id: self.thread_id,
            repo_ref: Some(self.repo_ref.clone()),
            data,
        }
    }

    /// The teardown of the session. It reports a cancellation, to be sent by
    /// the driver, where the session is not complete, and leaves the session
    /// complete, so that nothing is reported twice.
    pub fn finalize(&mut self) -> (emitted: Option<QueryEvent>)
        ensures
            final(self)@ == (AgentView { complete: true, ..old(self)@ }),
            match old(self)@.teardown() {
                Some(event) => emitted matches Some(sent) && sent@ == event,
                None => emitted is None,
            },
    {
        if self.complete {
            None
        } else {
            self.complete = true;
            let data = EventData::output_stage("cancelled").with_text(
                "message",
                "request was cancelled",
            );
            Some(self.track_query(data))
        }
    }

    /// Completes this session and tears it down: no cancellation is
    /// reported.
    pub fn complete(self) -> (emitted: Option<QueryEvent>)
        ensures
            emitted is None,
    {
        let mut session = self;
        session.complete = true;
        session.finalize()
    }

    /// The query that a semantic search for `target` runs.
    pub fn semantic_query(&self, target: &str) -> (query: Query)
        requires
            self@.exchanges.len() > 0,
        ensures
            query@ == self@.semantic_query(target@),
    {
        self.last_exchange().query.scoped(target, self.repo_ref.as_str())
    }

    /// The queries that a batch of semantic searches runs, one for each
    /// target, in the order of the targets.
    pub fn batch_semantic_queries(&self, targets: &Vec<String>) -> (queries: Vec<Query>)
        requires
            self@.exchanges.len() > 0,
        ensures
            queries.len() == targets.len(),
            forall|i: int|
                0 <= i < targets.len() ==> (#[trigger] queries[i])@ == self@.semantic_query(
                    targets[i]@,
                ),
    {
        let mut queries: Vec<Query> = Vec::new();
        let mut i: usize = 0;
        while i < targets.len()
            invariant
                i <= targets.len(),
                self@.exchanges.len() > 0,
                queries.len() == i,
                forall|j: int|
                    0 <= j < i ==> (#[trigger] queries[j])@ == self@.semantic_query(targets[j]@),
            decreases targets.len() - i,
        {
            queries.push(self.semantic_query(targets[i].as_str()));
            i += 1;
        }
        queries
    }

    /// The branch on which files are looked up: the first branch of the
    /// active turn's query, if it names any.
    pub fn first_branch(&self) -> (branch: Option<String>)
        requires
            self@.exchanges.len() > 0,
        ensures
            crate::text::optional_text(branch) == (if self@.exchanges.last().query.branches.len()
                > 0 {
                Some(self@.exchanges.last().query.branches[0])
            } else {
                None
            }),
    {
        self.last_exchange().query.first_branch()
    }

    /// The active turn, to be changed.
    pub fn last_exchange_mut(&mut self) -> (turn: &mut Exchange)
        requires
            old(self)@.exchanges.len() > 0,
        ensures
            *turn == old(self).exchanges@.last(),
            final(self).exchanges@ == old(self).exchanges@.update(
                old(self).exchanges@.len() - 1,
                *final(turn),
            ),
            final(self).repo_ref == old(self).repo_ref,
            final(self).thread_id == old(self).thread_id,
            final(self).query_id == old(self).query_id,
            final(self).complete == old(self).complete,
    {
        let last = self.exchanges.len() - 1;
        &mut self.exchanges[last]
    }

    /// Applies `update` to the active turn and hands out the snapshot of that
    /// turn that is to be published.
    pub fn update(&mut self, update: Update) -> (snapshot: Exchange)
        requires
            old(self)@.exchanges.len() > 0,
        ensures
            final(self)@ == old(self)@.updated(update),
            snapshot@ == final(self)@.exchanges.last(),
    {
        let ghost before = self.exchanges@;
        self.last_exchange_mut().apply_update(update);
        assert(turns(self.exchanges@) =~= turns(before).update(
            before.len() - 1,
            turns(before).last().updated(update),
        ));
        let snapshot = self.last_exchange().duplicate();
        snapshot
    }

    /// The active turn.
    pub fn last_exchange(&self) -> (turn: &Exchange)
        requires
            self@.exchanges.len() > 0,
        ensures
            turn@ == self@.exchanges.last(),
    {
        &self.exchanges[self.exchanges.len() - 1]
    }
}

} // verus!
