//! Actions, and the decoding of the model's function calls into them.

use vstd::prelude::*;
use vstd::string::StringExecFns;
use crate::error::{Cause, Error};
use crate::json::{
    as_items, as_number, as_text, json_text, json_value, json_values, member, member_of, parse,
    JsonView,
};
use crate::text::{copy_optional_text, optional_text};

verus! {

/// What the agent is to do next.
#[derive(Clone, Debug, PartialEq, Eq)]
pub enum Action {
    /// A user-provided query.
    Query(String),
    /// Search for paths.
    Path { query: String },
    /// Answer from the files with these aliases. This ends the conversation.
    Answer { paths: Vec<usize> },
    /// Search for code.
    Code { query: String },
    /// Process the files with these aliases.
    Proc { query: String, paths: Vec<usize> },
}

/// The mathematical value of an [`Action`].
pub enum ActionView {
    Query(Seq<char>),
    Path { query: Seq<char> },
    Answer { paths: Seq<usize> },
    Code { query: Seq<char> },
    Proc { query: Seq<char>, paths: Seq<usize> },
}

impl View for Action {
    type V = ActionView;

    open spec fn view(&self) -> ActionView {
        match *self {
            Action::Query(text) => ActionView::Query(text@),
            Action::Path { query } => ActionView::Path { query: query@ },
            Action::Answer { paths } => ActionView::Answer { paths: paths@ },
            Action::Code { query } => ActionView::Code { query: query@ },
            Action::Proc { query, paths } => ActionView::Proc { query: query@, paths: paths@ },
        }
    }
}

impl ActionView {
    /// The tag under which the model names this action. A query has none: it
    /// comes from the user, never from the model.
    pub open spec fn tag(self) -> Option<Seq<char>> {
        match self {
            ActionView::Query(_) => None,
            ActionView::Path { .. } => Some("path"@),
            ActionView::Answer { .. } => Some("none"@),
            ActionView::Code { .. } => Some("code"@),
            ActionView::Proc { .. } => Some("proc"@),
        }
    }
}

/// One function call of the model: whole, or a fragment of one as it arrives.
#[derive(Clone, Debug, PartialEq, Eq)]
pub struct FunctionCall {
    /// The name of the function, where this fragment carries it.
    pub name: Option<String>,
    /// The argument string, or the part of it that this fragment carries.
    pub arguments: String,
}

/// The mathematical value of a [`FunctionCall`].
pub struct FunctionCallView {
    pub name: Option<Seq<char>>,
    pub arguments: Seq<char>,
}

impl View for FunctionCall {
    type V = FunctionCallView;

    open spec fn view(&self) -> FunctionCallView {
        FunctionCallView { name: optional_text(self.name), arguments: self.arguments@ }
    }
}

/// What a list of fragments holds.
pub open spec fn fragments(items: Seq<FunctionCall>) -> Seq<FunctionCallView> {
    items.map_values(|f: FunctionCall| f@)
}

impl FunctionCallView {
    /// The call before any fragment has arrived.
    pub open spec fn empty() -> FunctionCallView {
        FunctionCallView { name: None, arguments: Seq::<char>::empty() }
    }

    /// The call after one more fragment: the name stays where there is one,
    /// and the fragment's arguments are added at the end.
    pub open spec fn merged(self, fragment: FunctionCallView) -> FunctionCallView {
        FunctionCallView {
            name: if self.name is Some {
                self.name
            } else {
                fragment.name
            },
            arguments: self.arguments + fragment.arguments,
        }
    }
}

/// The call that a stream of fragments adds up to, fragment by fragment in
/// the order of arrival.
pub open spec fn folded(stream: Seq<FunctionCallView>) -> FunctionCallView
    decreases stream.len(),
{
    if stream.len() == 0 {
        FunctionCallView::empty()
    } else {
        folded(stream.drop_last()).merged(stream.last())
    }
}

/// The name of the first fragment that carries one.
pub open spec fn first_name(stream: Seq<FunctionCallView>) -> Option<Seq<char>>
    decreases stream.len(),
{
    if stream.len() == 0 {
        None
    } else if stream[0].name is Some {
        stream[0].name
    } else {
        first_name(stream.skip(1))
    }
}

/// The argument strings of all fragments, one after the other.
pub open spec fn all_arguments(stream: Seq<FunctionCallView>) -> Seq<char>
    decreases stream.len(),
{
    if stream.len() == 0 {
        Seq::<char>::empty()
    } else {
        stream[0].arguments + all_arguments(stream.skip(1))
    }
}

/// Folding a fragment in front.
pub proof fn lemma_folded_front(stream: Seq<FunctionCallView>)
    requires
        stream.len() > 0,
    ensures
        folded(stream) == FunctionCallView::empty().merged(stream[0]).merged(
            folded(stream.skip(1)),
        ),
    decreases stream.len(),
{
    let rest = stream.skip(1);
    if stream.len() == 1 {
        assert(stream.drop_last() =~= Seq::<FunctionCallView>::empty());
        assert(rest =~= Seq::<FunctionCallView>::empty());
        assert(folded(stream).arguments =~= FunctionCallView::empty().merged(stream[0]).merged(
            folded(rest),
        ).arguments);
    } else {
        lemma_folded_front(stream.drop_last());
        assert(stream.drop_last().skip(1) =~= rest.drop_last());
        assert(stream.drop_last()[0] == stream[0]);
        assert(rest.last() == stream.last());
        let head = FunctionCallView::empty().merged(stream[0]);
        let middle = folded(rest.drop_last());
        assert(head.merged(middle).merged(stream.last()).arguments =~= head.merged(
            middle.merged(stream.last()),
        ).arguments);
    }
}

/// What folding a stream comes to: the name is that of the first fragment
/// that carries one, and the argument string is all the fragments' argument
/// strings in the order they arrived.
pub proof fn lemma_folded(stream: Seq<FunctionCallView>)
    ensures
        folded(stream).name == first_name(stream),
        folded(stream).arguments == all_arguments(stream),
    decreases stream.len(),
{
    if stream.len() > 0 {
        lemma_folded_front(stream);
        lemma_folded(stream.skip(1));
        assert(folded(stream).arguments =~= all_arguments(stream));
    }
}

impl Default for FunctionCall {
    fn default() -> (call: FunctionCall)
        ensures
            call@ == FunctionCallView::empty(),
    {
        FunctionCall { name: None, arguments: String::new() }
    }
}

impl FunctionCall {
    /// This call after one more fragment.
    pub fn merge(self, fragment: &FunctionCall) -> (call: FunctionCall)
        ensures
            call@ == self@.merged(fragment@),
    {
        let name = match self.name {
            Some(name) => Some(name),
            None => copy_optional_text(&fragment.name),
        };
        let mut arguments = self.arguments;
        arguments.append(fragment.arguments.as_str());
        FunctionCall { name, arguments }
    }

    /// The call that the fragments of `stream` add up to, taken in the order
    /// they arrived.
    pub fn collect(stream: &Vec<FunctionCall>) -> (call: FunctionCall)
        ensures
            call@ == folded(fragments(stream@)),
    {
        let mut call = FunctionCall { name: None, arguments: String::new() };
        let mut i: usize = 0;
        assert(fragments(stream@).take(0) =~= Seq::<FunctionCallView>::empty());
        while i < stream.len()
            invariant
                i <= stream.len(),
                call@ == folded(fragments(stream@).take(i as int)),
            decreases stream.len() - i,
        {
            assert(fragments(stream@).take(i + 1).drop_last() =~= fragments(stream@).take(
                i as int,
            ));
            call = call.merge(&stream[i]);
            i += 1;
        }
        assert(fragments(stream@).take(i as int) =~= fragments(stream@));
        call
    }
}

/// The text of the member `key` of an argument object.
pub open spec fn field_text(arguments: JsonView, key: Seq<char>) -> Option<Seq<char>> {
    match member_of(arguments, key) {
        Some(JsonView::String(text)) => Some(text),
        _ => None,
    }
}

/// The aliases that a list of JSON values spells: each of them a whole
/// number that an alias can hold.
pub open spec fn indices(items: Seq<JsonView>) -> Option<Seq<usize>>
    decreases items.len(),
{
    if items.len() == 0 {
        Some(Seq::<usize>::empty())
    } else {
        match (indices(items.drop_last()), items.last()) {
            (Some(front), JsonView::Number(Some(n))) => if n <= usize::MAX {
                Some(front.push(n as usize))
            } else {
                None
            },
            _ => None,
        }
    }
}

/// The aliases in the member `key` of an argument object.
pub open spec fn field_indices(arguments: JsonView, key: Seq<char>) -> Option<Seq<usize>> {
    match member_of(arguments, key) {
        Some(JsonView::Array(items)) => indices(items),
        _ => None,
    }
}

/// The action with the tag `name`, put together from what its argument
/// object gave for `query` and for `paths`. There are four tags: `path` and
/// `code` take a query, `proc` a query and paths, `none` paths.
pub open spec fn assembled(
    name: Seq<char>,
    query: Option<Seq<char>>,
    paths: Option<Seq<usize>>,
) -> Option<ActionView> {
    if name == "path"@ {
        match query {
            Some(query) => Some(ActionView::Path { query }),
            None => None,
        }
    } else if name == "code"@ {
        match query {
            Some(query) => Some(ActionView::Code { query }),
            None => None,
        }
    } else if name == "proc"@ {
        match (query, paths) {
            (Some(query), Some(paths)) => Some(ActionView::Proc { query, paths }),
            _ => None,
        }
    } else if name == "none"@ {
        match paths {
            Some(paths) => Some(ActionView::Answer { paths }),
            None => None,
        }
    } else {
        None
    }
}

/// The action that the tag `name` and the parsed arguments stand for. Members
/// that the action does not take are passed over.
pub open spec fn decoded_arguments(name: Seq<char>, arguments: JsonView) -> Option<ActionView> {
    assembled(name, field_text(arguments, "query"@), field_indices(arguments, "paths"@))
}

/// Why a function call stands for no action.
pub enum DecodeFault {
    /// The call names no function.
    MissingName,
    /// The argument string is no JSON text.
    InvalidArguments,
    /// No tag matches, or the arguments do not have the shape the tag takes.
    UnknownAction,
}

/// The action that a function call of the model stands for.
pub open spec fn decoded(call: FunctionCallView) -> Result<ActionView, DecodeFault> {
    match call.name {
        None => Err(DecodeFault::MissingName),
        Some(name) => match json_text(call.arguments) {
            None => Err(DecodeFault::InvalidArguments),
            Some(arguments) => match decoded_arguments(name, arguments) {
                Some(action) => Ok(action),
                None => Err(DecodeFault::UnknownAction),
            },
        },
    }
}

/// The four tags differ from each other.
pub proof fn lemma_tags_differ()
    ensures
        "path"@ != "code"@,
        "path"@ != "proc"@,
        "path"@ != "none"@,
        "code"@ != "proc"@,
        "code"@ != "none"@,
        "proc"@ != "none"@,
{
    reveal_strlit("path");
    reveal_strlit("code");
    reveal_strlit("proc");
    reveal_strlit("none");
    assert("path"@[0] == 'p' && "code"@[0] == 'c' && "none"@[0] == 'n');
    assert("path"@[1] == 'a' && "proc"@[1] == 'r');
}

/// Whether `arguments` is an argument object of the shape that the tag
/// `name` takes: a text under `query` for `path`, `code` and `proc`, a list of
/// aliases under `paths` for `proc` and `none`.
pub open spec fn well_formed(name: Seq<char>, arguments: JsonView) -> bool {
    &&& name == "path"@ || name == "code"@ || name == "proc"@ || name == "none"@
    &&& name != "none"@ ==> field_text(arguments, "query"@) is Some
    &&& name == "proc"@ || name == "none"@ ==> field_indices(arguments, "paths"@) is Some
}

/// Decoding is total on what is well formed, and only there. Each of the four
/// tags with an argument object of its shape gives the action of that tag,
/// holding what the object holds; any other tag, and any other shape, gives
/// none. A call without a name is refused whatever its arguments are.
pub proof fn lemma_decode_total(name: Seq<char>, arguments: JsonView, text: Seq<char>)
    ensures
        well_formed(name, arguments) <==> decoded_arguments(name, arguments) is Some,
        decoded_arguments(name, arguments) matches Some(action) ==> {
            &&& action.tag() == Some(name)
            &&& action matches ActionView::Path { query } ==> field_text(arguments, "query"@)
                == Some(query)
            &&& action matches ActionView::Code { query } ==> field_text(arguments, "query"@)
                == Some(query)
            &&& action matches ActionView::Proc { query, paths } ==> field_text(
                arguments,
                "query"@,
            ) == Some(query) && field_indices(arguments, "paths"@) == Some(paths)
            &&& action matches ActionView::Answer { paths } ==> field_indices(
                arguments,
                "paths"@,
            ) == Some(paths)
            &&& !(action is Query)
        },
        decoded(FunctionCallView { name: None, arguments: text }) == Err::<
            ActionView,
            DecodeFault,
        >(DecodeFault::MissingName),
        json_text(text) == Some(arguments) ==> (decoded(
            FunctionCallView { name: Some(name), arguments: text },
        ) is Ok <==> well_formed(name, arguments)),
{
    lemma_tags_differ();
}

impl Action {
    /// The action with the tag `name`, put together from what its argument
    /// object gave for `query` and for `paths`.
    pub fn assemble(name: &str, query: Option<String>, paths: Option<Vec<usize>>) -> (res: Result<
        Action,
        Error,
    >)
        ensures
            match assembled(
                name@,
                optional_text(query),
                match paths {
                    Some(list) => Some(list@),
                    None => None,
                },
            ) {
                Some(action) => res matches Ok(made) && made@ == action,
                None => res matches Err(Error::Processing(Cause::UnknownAction)),
            },
    {
        let name = name.to_owned();
        if name == String::from_str("path") {
            match query {
                Some(query) => Ok(Action::Path { query }),
                None => Err(Error::Processing(Cause::UnknownAction)),
            }
        } else if name == String::from_str("code") {
            match query {
                Some(query) => Ok(Action::Code { query }),
                None => Err(Error::Processing(Cause::UnknownAction)),
            }
        } else if name == String::from_str("proc") {
            match (query, paths) {
                (Some(query), Some(paths)) => Ok(Action::Proc { query, paths }),
                _ => Err(Error::Processing(Cause::UnknownAction)),
            }
        } else if name == String::from_str("none") {
            match paths {
                Some(paths) => Ok(Action::Answer { paths }),
                None => Err(Error::Processing(Cause::UnknownAction)),
            }
        } else {
            Err(Error::Processing(Cause::UnknownAction))
        }
    }

    /// Reads the text under `key` in a parsed argument object.
    pub fn read_text(arguments: &serde_json::Value, key: &str) -> (text: Option<String>)
        ensures
            optional_text(text) == field_text(json_value(*arguments), key@),
    {
        match member(arguments, key) {
            Some(held) => match as_text(held) {
                Some(text) => Some(text.to_owned()),
                None => None,
            },
            None => None,
        }
    }

    /// Reads the aliases under `key` in a parsed argument object.
    pub fn read_indices(arguments: &serde_json::Value, key: &str) -> (list: Option<Vec<usize>>)
        ensures
            match list {
                Some(found) => field_indices(json_value(*arguments), key@) == Some(found@),
                None => field_indices(json_value(*arguments), key@) is None,
            },
    {
        let items = match member(arguments, key) {
            Some(held) => match as_items(held) {
                Some(items) => items,
                None => {
                    return None;
                },
            },
            None => {
                return None;
            },
        };
        let ghost held = json_values(items@);
        let mut found: Vec<usize> = Vec::new();
        let mut i: usize = 0;
        assert(held.take(0) =~= Seq::<JsonView>::empty());
        while i < items.len()
            invariant
                i <= items.len(),
                held == json_values(items@),
                member_of(json_value(*arguments), key@) == Some(JsonView::Array(held)),
                indices(held.take(i as int)) == Some(found@),
            decreases items.len() - i,
        {
            assert(held.take(i + 1).drop_last() =~= held.take(i as int));
            assert(held.take(i + 1).last() == json_value(items@[i as int]));
            match as_number(&items[i]) {
                Some(n) => {
                    if n > usize::MAX as u64 {
                        proof {
                            assert(indices(held.take(i + 1)) is None);
                            lemma_indices_fail(held, i + 1);
                        }
                        return None;
                    }
                    found.push(n as usize);
                },
                None => {
                    proof {
                        assert(indices(held.take(i + 1)) is None);
                        lemma_indices_fail(held, i + 1);
                    }
                    return None;
                },
            }
            i += 1;
        }
        assert(held.take(i as int) =~= held);
        Some(found)
    }

    /// The action that the tag `name` and the parsed `arguments` stand for.
    pub fn from_arguments(name: &str, arguments: &serde_json::Value) -> (res: Result<Action, Error>)
        ensures
            match decoded_arguments(name@, json_value(*arguments)) {
                Some(action) => res matches Ok(made) && made@ == action,
                None => res matches Err(Error::Processing(Cause::UnknownAction)),
            },
    {
        let query = Action::read_text(arguments, "query");
        let paths = Action::read_indices(arguments, "paths");
        Action::assemble(name, query, paths)
    }

    /// Decodes a function call of the model into the action it stands for.
    ///
    /// The call must name a function, its argument string must be JSON, and
    /// the name must be one of the tags `path`, `code`, `proc` and `none` with
    /// an argument object of the tag's shape. Nothing is read or changed but
    /// the call.
    pub fn deserialize_gpt(call: &FunctionCall) -> (res: Result<Action, Error>)
        ensures
            match decoded(call@) {
                Ok(action) => res matches Ok(made) && made@ == action,
                Err(DecodeFault::MissingName) => res matches Err(
                    Error::Processing(Cause::MissingName),
                ),
                Err(DecodeFault::InvalidArguments) => res matches Err(
                    Error::Processing(Cause::InvalidArguments(_)),
                ),
                Err(DecodeFault::UnknownAction) => res matches Err(
                    Error::Processing(Cause::UnknownAction),
                ),
            },
    {
        let name = match &call.name {
            Some(name) => name,
            None => {
                return Err(Error::Processing(Cause::MissingName));
            },
        };
        let arguments = match parse(call.arguments.as_str()) {
            Ok(arguments) => arguments,
            Err(said) => {
                return Err(Error::Processing(Cause::InvalidArguments(said)));
            },
        };
        Action::from_arguments(name.as_str(), &arguments)
    }

    /// A copy of this action.
    pub fn duplicate(&self) -> (copy: Action)
        ensures
            copy@ == self@,
    {
        match self {
            Action::Query(text) => Action::Query(text.clone()),
            Action::Path { query } => Action::Path { query: query.clone() },
            Action::Answer { paths } => Action::Answer { paths: copy_indices(paths) },
            Action::Code { query } => Action::Code { query: query.clone() },
            Action::Proc { query, paths } => Action::Proc {
                query: query.clone(),
                paths: copy_indices(paths),
            },
        }
    }
}

/// A copy of a list of aliases.
pub fn copy_indices(items: &Vec<usize>) -> (copy: Vec<usize>)
    ensures
        copy@ == items@,
{
    let mut copy: Vec<usize> = Vec::new();
    let mut i: usize = 0;
    while i < items.len()
        invariant
            i <= items.len(),
            copy@ == items@.take(i as int),
        decreases items.len() - i,
    {
        copy.push(items[i]);
        assert(items@.take(i + 1) =~= items@.take(i as int).push(items@[i as int]));
        i += 1;
    }
    assert(items@.take(i as int) =~= items@);
    copy
}

/// Where the first items of a list spell no aliases, the list spells none.
pub proof fn lemma_indices_fail(items: Seq<JsonView>, n: int)
    requires
        0 <= n <= items.len(),
        indices(items.take(n)) is None,
    ensures
        indices(items) is None,
    decreases items.len() - n,
{
    if n < items.len() {
        assert(items.take(n + 1).drop_last() =~= items.take(n));
        lemma_indices_fail(items, n + 1);
    } else {
        assert(items.take(n) =~= items);
    }
}

} // verus!
