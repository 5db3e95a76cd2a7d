//! One turn of the conversation: a query, the searches made for it, and the
//! answer it ended in.

use vstd::prelude::*;
use crate::text::{copy_optional_text, copy_texts, optional_text, texts};

verus! {

/// The query that a turn starts from, as the parser understood it.
#[derive(Clone, Debug, PartialEq, Eq)]
pub struct Query {
    /// What is being asked; a query without it cannot be resolved.
    pub target: Option<String>,
    /// The repositories the search is confined to.
    pub repos: Vec<String>,
    /// The branches the search is confined to.
    pub branches: Vec<String>,
}

/// The mathematical value of a [`Query`].
pub struct QueryView {
    pub target: Option<Seq<char>>,
    pub repos: Seq<Seq<char>>,
    pub branches: Seq<Seq<char>>,
}

impl View for Query {
    type V = QueryView;

    open spec fn view(&self) -> QueryView {
        QueryView {
            target: optional_text(self.target),
            repos: texts(self.repos@),
            branches: texts(self.branches@),
        }
    }
}

impl Query {
    /// A query for `target`, with no confinement.
    pub fn new(target: &str) -> (query: Query)
        ensures
            query@ == (QueryView {
                target: Some(target@),
                repos: Seq::<Seq<char>>::empty(),
                branches: Seq::<Seq<char>>::empty(),
            }),
    {
        let query = Query { target: Some(target.to_owned()), repos: Vec::new(), branches: Vec::new() };
        assert(texts(query.repos@) =~= Seq::<Seq<char>>::empty());
        assert(texts(query.branches@) =~= Seq::<Seq<char>>::empty());
        query
    }

    /// A copy of this query.
    pub fn duplicate(&self) -> (copy: Query)
        ensures
            copy@ == self@,
    {
        Query {
            target: copy_optional_text(&self.target),
            repos: copy_texts(&self.repos),
            branches: copy_texts(&self.branches),
        }
    }

    /// This query turned to another target and confined to the one repository
    /// `repo`; the branches stay.
    pub fn scoped(&self, target: &str, repo: &str) -> (query: Query)
        ensures
            query@ == (QueryView {
                target: Some(target@),
                repos: seq![repo@],
                branches: self@.branches,
            }),
    {
        let mut repos: Vec<String> = Vec::new();
        repos.push(repo.to_owned());
        assert(texts(repos@) =~= seq![repo@]);
        Query { target: Some(target.to_owned()), repos, branches: copy_texts(&self.branches) }
    }

    /// The first branch the query is confined to, if it names any.
    pub fn first_branch(&self) -> (branch: Option<String>)
        ensures
            optional_text(branch) == (if self@.branches.len() > 0 {
                Some(self@.branches[0])
            } else {
                None
            }),
    {
        if self.branches.len() > 0 {
            Some(self.branches[0].clone())
        } else {
            None
        }
    }
}

/// The record of one tool invocation within a turn, with the tool's raw
/// textual response.
#[derive(Clone, Debug, PartialEq, Eq)]
pub enum SearchStep {
    Path { query: String, response: String },
    Code { query: String, response: String },
    Proc { query: String, paths: Vec<String>, response: String },
}

/// The mathematical value of a [`SearchStep`].
pub enum SearchStepView {
    Path { query: Seq<char>, response: Seq<char> },
    Code { query: Seq<char>, response: Seq<char> },
    Proc { query: Seq<char>, paths: Seq<Seq<char>>, response: Seq<char> },
}

impl View for SearchStep {
    type V = SearchStepView;

    open spec fn view(&self) -> SearchStepView {
        match *self {
            SearchStep::Path { query, response } => SearchStepView::Path {
                query: query@,
                response: response@,
            },
            SearchStep::Code { query, response } => SearchStepView::Code {
                query: query@,
                response: response@,
            },
            SearchStep::Proc { query, paths, response } => SearchStepView::Proc {
                query: query@,
                paths: texts(paths@),
                response: response@,
            },
        }
    }
}

impl SearchStepView {
    /// The response that the tool gave.
    pub open spec fn response(self) -> Seq<char> {
        match self {
            SearchStepView::Path { response, .. } => response,
            SearchStepView::Code { response, .. } => response,
            SearchStepView::Proc { response, .. } => response,
        }
    }
}

impl SearchStep {
    /// The response that the tool gave.
    pub fn get_response(&self) -> (response: String)
        ensures
            response@ == self@.response(),
    {
        match self {
            SearchStep::Path { response, .. } => response.clone(),
            SearchStep::Code { response, .. } => response.clone(),
            SearchStep::Proc { response, .. } => response.clone(),
        }
    }

    /// A copy of this step.
    pub fn duplicate(&self) -> (copy: SearchStep)
        ensures
            copy@ == self@,
    {
        match self {
            SearchStep::Path { query, response } => SearchStep::Path {
                query: query.clone(),
                response: response.clone(),
            },
            SearchStep::Code { query, response } => SearchStep::Code {
                query: query.clone(),
                response: response.clone(),
            },
            SearchStep::Proc { query, paths, response } => SearchStep::Proc {
                query: query.clone(),
                paths: copy_texts(paths),
                response: response.clone(),
            },
        }
    }
}

/// What a list of search steps records.
pub open spec fn steps(items: Seq<SearchStep>) -> Seq<SearchStepView> {
    items.map_values(|s: SearchStep| s@)
}

/// A change to a turn.
#[derive(Clone, Debug, PartialEq, Eq)]
pub enum Update {
    /// A search was made.
    StartStep(SearchStep),
    /// The text of the answer, as far as it is written.
    Article(String),
    /// The summary that closes the answer.
    Conclude(String),
}

/// One user query and its resolution.
#[derive(Clone, Debug, PartialEq, Eq)]
pub struct Exchange {
    /// The query the turn started from.
    pub query: Query,
    /// The paths that entered the conversation during this turn.
    pub paths: Vec<String>,
    /// The searches made, in the order they were made.
    pub search_steps: Vec<SearchStep>,
    /// The text of the answer.
    pub answer: Option<String>,
    /// The summary that closes the answer.
    pub conclusion: Option<String>,
}

/// The mathematical value of an [`Exchange`].
pub struct ExchangeView {
    pub query: QueryView,
    pub paths: Seq<Seq<char>>,
    pub search_steps: Seq<SearchStepView>,
    pub answer: Option<Seq<char>>,
    pub conclusion: Option<Seq<char>>,
}

impl ExchangeView {
    /// The text of the query, where it can be resolved.
    pub open spec fn query_text(self) -> Option<Seq<char>> {
        self.query.target
    }

    /// The answer with its summary, once both are there.
    pub open spec fn final_answer(self) -> Option<(Seq<char>, Seq<char>)> {
        match (self.answer, self.conclusion) {
            (Some(answer), Some(conclusion)) => Some((answer, conclusion)),
            _ => None,
        }
    }

    /// The turn after `update`.
    pub open spec fn updated(self, update: Update) -> ExchangeView {
        match update {
            Update::StartStep(step) => ExchangeView {
                search_steps: self.search_steps.push(step@),
                ..self
            },
            Update::Article(text) => ExchangeView { answer: Some(text@), ..self },
            Update::Conclude(text) => ExchangeView { conclusion: Some(text@), ..self },
        }
    }
}

impl View for Exchange {
    type V = ExchangeView;

    open spec fn view(&self) -> ExchangeView {
        ExchangeView {
            query: self.query@,
            paths: texts(self.paths@),
            search_steps: steps(self.search_steps@),
            answer: optional_text(self.answer),
            conclusion: optional_text(self.conclusion),
        }
    }
}

/// What a list of turns holds.
pub open spec fn turns(items: Seq<Exchange>) -> Seq<ExchangeView> {
    items.map_values(|e: Exchange| e@)
}

impl Exchange {
    /// A turn that starts from `query`: no path, no search, no answer yet.
    pub fn new(query: Query) -> (turn: Exchange)
        ensures
            turn@ == (ExchangeView {
                query: query@,
                paths: Seq::<Seq<char>>::empty(),
                search_steps: Seq::<SearchStepView>::empty(),
                answer: None,
                conclusion: None,
            }),
    {
        let turn = Exchange {
            query,
            paths: Vec::new(),
            search_steps: Vec::new(),
            answer: None,
            conclusion: None,
        };
        assert(texts(turn.paths@) =~= Seq::<Seq<char>>::empty());
        assert(steps(turn.search_steps@) =~= Seq::<SearchStepView>::empty());
        turn
    }

    /// The text of the query, where it can be resolved.
    pub fn query(&self) -> (text: Option<String>)
        ensures
            optional_text(text) == self@.query_text(),
    {
        copy_optional_text(&self.query.target)
    }

    /// The answer with its summary, once both are there.
    pub fn answer(&self) -> (pair: Option<(String, String)>)
        ensures
            match pair {
                Some((answer, conclusion)) => self@.final_answer() == Some((answer@, conclusion@)),
                None => self@.final_answer() is None,
            },
    {
        match (&self.answer, &self.conclusion) {
            (Some(answer), Some(conclusion)) => Some((answer.clone(), conclusion.clone())),
            _ => None,
        }
    }

    /// Applies `update` to this turn.
    pub fn apply_update(&mut self, update: Update)
        ensures
            final(self)@ == old(self)@.updated(update),
    {
        match update {
            Update::StartStep(step) => {
                self.search_steps.push(step);
                assert(steps(self.search_steps@) =~= steps(old(self).search_steps@).push(step@));
            },
            Update::Article(text) => {
                self.answer = Some(text);
            },
            Update::Conclude(text) => {
                self.conclusion = Some(text);
            },
        }
    }

    /// A copy of this turn, as it is published.
    pub fn duplicate(&self) -> (copy: Exchange)
        ensures
            copy@ == self@,
    {
        let mut search_steps: Vec<SearchStep> = Vec::new();
        let mut i: usize = 0;
        while i < self.search_steps.len()
            invariant
                i <= self.search_steps.len(),
                steps(search_steps@) == steps(self.search_steps@).take(i as int),
            decreases self.search_steps.len() - i,
        {
            let ghost before = search_steps@;
            search_steps.push(self.search_steps[i].duplicate());
            assert(steps(search_steps@) =~= steps(before).push(self.search_steps@[i as int]@));
            assert(steps(self.search_steps@).take(i + 1) =~= steps(self.search_steps@).take(
                i as int,
            ).push(self.search_steps@[i as int]@));
            i += 1;
        }
        assert(steps(self.search_steps@).take(i as int) =~= steps(self.search_steps@));
        Exchange {
            query: self.query.duplicate(),
            paths: copy_texts(&self.paths),
            search_steps,
            answer: copy_optional_text(&self.answer),
            conclusion: copy_optional_text(&self.conclusion),
        }
    }
}

} // verus!
