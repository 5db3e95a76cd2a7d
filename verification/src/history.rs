//! The transcript that is shown to the model: what the last turns said and
//! did, message by message.

use vstd::prelude::*;
use vstd::string::StringExecFns;
use crate::agent::Agent;
use crate::alias::{all_paths, find_path, lemma_position, position};
use crate::error::{Cause, Error};
use crate::exchange::{steps, Exchange, ExchangeView, SearchStep, SearchStepView};
use crate::message::{assistant_role, plain, transcript, user_role, Message, MessageView};
use crate::text::{decimal, decimal_list, joined, optional_text, optional_texts, texts};

verus! {

/// The number of turns that the model is shown; older ones are out of sight.
pub const ANSWER_MAX_HISTORY_SIZE: usize = 3;

/// The words that keep the model calling functions.
pub open spec fn instruction_text() -> Seq<char> {
    "Call a function. Do not answer"@
}

/// The message that keeps the model calling functions.
pub open spec fn instruction() -> MessageView {
    plain(user_role(), instruction_text())
}

/// The argument string of a recorded `path` or `code` call.
pub open spec fn query_arguments(query: Seq<char>) -> Seq<char> {
    "{\n \"query\": \""@ + query + "\"\n}"@
}

/// The argument string of a recorded `proc` call on the paths with the given
/// aliases.
pub open spec fn proc_arguments(aliases: Seq<usize>, query: Seq<char>) -> Seq<char> {
    "{\n \"paths\": ["@ + joined(aliases.map_values(|n: usize| decimal(n as nat)), ", "@)
        + "],\n \"query\": \""@ + query + "\"\n}"@
}

/// Why no transcript can be built.
pub enum HistoryFault {
    /// A turn within the window has no query that can be resolved.
    MissingQuery,
    /// A recorded `proc` step names a path that has no alias.
    UnknownPath,
    /// A final answer came without the form in which it is shown.
    UnencodedAnswer,
}

/// The aliases of `paths` in `table`, where each of them has one.
pub open spec fn aliases_of(paths: Seq<Seq<char>>, table: Seq<Seq<char>>) -> Option<Seq<usize>>
    decreases paths.len(),
{
    if paths.len() == 0 {
        Some(Seq::<usize>::empty())
    } else {
        match (aliases_of(paths.drop_last(), table), position(table, paths.last())) {
            (Some(front), Some(i)) => Some(front.push(i as usize)),
            _ => None,
        }
    }
}

/// The function that a recorded step called, and the argument string it is
/// shown with.
pub open spec fn step_call(step: SearchStepView, table: Seq<Seq<char>>) -> Option<
    (Seq<char>, Seq<char>),
> {
    match step {
        SearchStepView::Path { query, .. } => Some(("path"@, query_arguments(query))),
        SearchStepView::Code { query, .. } => Some(("code"@, query_arguments(query))),
        SearchStepView::Proc { query, paths, .. } => match aliases_of(paths, table) {
            Some(aliases) => Some(("proc"@, proc_arguments(aliases, query))),
            None => None,
        },
    }
}

/// The three messages of a recorded step: the call, what it returned, and the
/// instruction again.
pub open spec fn step_messages(step: SearchStepView, table: Seq<Seq<char>>) -> Option<
    Seq<MessageView>,
> {
    match step_call(step, table) {
        Some((name, arguments)) => Some(
            seq![
                MessageView::FunctionCall { name, arguments },
                MessageView::FunctionReturn { name, content: step.response() },
                instruction(),
            ],
        ),
        None => None,
    }
}

/// The messages of the recorded steps, in the order the steps were made.
pub open spec fn steps_messages(steps: Seq<SearchStepView>, table: Seq<Seq<char>>) -> Option<
    Seq<MessageView>,
>
    decreases steps.len(),
{
    if steps.len() == 0 {
        Some(Seq::<MessageView>::empty())
    } else {
        match (steps_messages(steps.drop_last(), table), step_messages(steps.last(), table)) {
            (Some(front), Some(last)) => Some(front + last),
            _ => None,
        }
    }
}

/// The message that a turn's answer is shown as, once the answer is final:
/// `encoded`, which is the answer in the compact form that the driver's
/// encoder gave it, in the model's role. The summary plays no part. A final
/// answer for which no such form was given cannot be shown.
pub open spec fn answer_messages(turn: ExchangeView, encoded: Option<Seq<char>>) -> Option<
    Seq<MessageView>,
> {
    match turn.final_answer() {
        None => Some(Seq::<MessageView>::empty()),
        Some(_) => match encoded {
            Some(text) => Some(seq![plain(assistant_role(), text)]),
            None => None,
        },
    }
}

/// The messages of one turn: the query, the instruction, the recorded steps,
/// and the answer, in its encoded form, if there is one.
pub open spec fn turn_messages(
    turn: ExchangeView,
    table: Seq<Seq<char>>,
    encoded: Option<Seq<char>>,
) -> Result<Seq<MessageView>, HistoryFault> {
    match turn.query_text() {
        None => Err(HistoryFault::MissingQuery),
        Some(query) => match steps_messages(turn.search_steps, table) {
            None => Err(HistoryFault::UnknownPath),
            Some(searched) => match answer_messages(turn, encoded) {
                None => Err(HistoryFault::UnencodedAnswer),
                Some(answered) => Ok(
                    seq![plain(user_role(), query), instruction()] + searched + answered,
                ),
            },
        },
    }
}

/// The encoded answer given for the turn at place `i`, if one was given.
pub open spec fn encoded_at(encoded: Seq<Option<Seq<char>>>, i: int) -> Option<Seq<char>> {
    if 0 <= i < encoded.len() {
        encoded[i]
    } else {
        None
    }
}

/// The messages of the given turns, oldest first, the turn at each place with
/// the encoded answer at that place. The first turn that cannot be shown
/// decides the fault.
pub open spec fn turns_messages(
    turns: Seq<ExchangeView>,
    table: Seq<Seq<char>>,
    encoded: Seq<Option<Seq<char>>>,
) -> Result<Seq<MessageView>, HistoryFault>
    decreases turns.len(),
{
    if turns.len() == 0 {
        Ok(Seq::<MessageView>::empty())
    } else {
        match turns_messages(turns.drop_last(), table, encoded) {
            Err(fault) => Err(fault),
            Ok(front) => match turn_messages(
                turns.last(),
                table,
                encoded_at(encoded, turns.len() - 1),
            ) {
                Err(fault) => Err(fault),
                Ok(last) => Ok(front + last),
            },
        }
    }
}

/// The turns that the model is shown: the last three, or all where there are
/// fewer.
pub open spec fn window(turns: Seq<ExchangeView>) -> Seq<ExchangeView> {
    if turns.len() > ANSWER_MAX_HISTORY_SIZE {
        turns.skip(turns.len() - ANSWER_MAX_HISTORY_SIZE)
    } else {
        turns
    }
}

/// The final answers of the turns that the model is shown, turn by turn:
/// what the driver's encoder is to bring into the compact form.
pub open spec fn pending_answers(turns: Seq<ExchangeView>) -> Seq<Option<Seq<char>>> {
    window(turns).map_values(
        |turn: ExchangeView|
            match turn.final_answer() {
                Some((answer, _)) => Some(answer),
                None => None,
            },
    )
}

/// The transcript of a session with the given turns, where `encoded` holds,
/// for each turn shown, its answer in the compact form.
pub open spec fn history_of(turns: Seq<ExchangeView>, encoded: Seq<Option<Seq<char>>>) -> Result<
    Seq<MessageView>,
    HistoryFault,
> {
    turns_messages(window(turns), all_paths(turns), encoded)
}

/// The history window. The transcript holds what the last three turns hold and
/// nothing of a turn before them: two sessions whose last three turns are the
/// same, and whose paths have the same aliases, have the same transcript,
/// whatever their older turns are.
pub proof fn lemma_history_window(
    older: Seq<ExchangeView>,
    other: Seq<ExchangeView>,
    last: Seq<ExchangeView>,
    encoded: Seq<Option<Seq<char>>>,
)
    requires
        last.len() == ANSWER_MAX_HISTORY_SIZE,
        all_paths(older + last) == all_paths(other + last),
    ensures
        history_of(older + last, encoded) == history_of(other + last, encoded),
        history_of(older + last, encoded) == turns_messages(
            last,
            all_paths(older + last),
            encoded,
        ),
        pending_answers(older + last) == pending_answers(other + last),
{
    assert(window(older + last) =~= last);
    assert(window(other + last) =~= last);
}

/// What closes a turn. A turn without a final answer ends with its last
/// step; a turn with one ends with a single message of the model that holds
/// the encoded answer and nothing else, so that neither the stored text of the
/// answer nor its summary reaches the transcript.
pub proof fn lemma_turn_closing(turn: ExchangeView, table: Seq<Seq<char>>, encoded: Option<Seq<char>>)
    ensures
        turn_messages(turn, table, encoded) matches Ok(shown) ==> {
            &&& turn.final_answer() is Some ==> encoded is Some && shown.last() == plain(
                assistant_role(),
                encoded->0,
            )
            &&& turn.final_answer() is None ==> shown == turn_messages(turn, table, None)->Ok_0
        },
{
}

/// The message that keeps the model calling functions.
pub fn instruction_message() -> (message: Message)
    ensures
        message@ == instruction(),
{
    Message::user("Call a function. Do not answer")
}

/// The argument string of a recorded `path` or `code` call.
pub fn write_query_arguments(query: &str) -> (text: String)
    ensures
        text@ == query_arguments(query@),
{
    let mut text = String::from_str("{\n \"query\": \"");
    text.append(query);
    text.append("\"\n}");
    text
}

/// The argument string of a recorded `proc` call.
pub fn write_proc_arguments(aliases: &Vec<usize>, query: &str) -> (text: String)
    ensures
        text@ == proc_arguments(aliases@, query@),
{
    let mut text = String::from_str("{\n \"paths\": [");
    let list = decimal_list(aliases);
    text.append(list.as_str());
    text.append("],\n \"query\": \"");
    text.append(query);
    text.append("\"\n}");
    text
}

/// The aliases of `paths` in `table`, where each of them has one.
pub fn resolve_aliases(paths: &Vec<String>, table: &Vec<String>) -> (aliases: Option<Vec<usize>>)
    ensures
        match aliases {
            Some(found) => aliases_of(texts(paths@), texts(table@)) == Some(found@),
            None => aliases_of(texts(paths@), texts(table@)) is None,
        },
{
    let mut found: Vec<usize> = Vec::new();
    let mut i: usize = 0;
    assert(texts(paths@).take(0) =~= Seq::<Seq<char>>::empty());
    while i < paths.len()
        invariant
            i <= paths.len(),
            aliases_of(texts(paths@).take(i as int), texts(table@)) == Some(found@),
        decreases paths.len() - i,
    {
        proof {
            assert(texts(paths@).take(i + 1).drop_last() =~= texts(paths@).take(i as int));
            assert(texts(paths@).take(i + 1).last() == paths@[i as int]@);
            lemma_position(texts(table@), paths@[i as int]@);
        }
        match find_path(table, paths[i].as_str()) {
            Some(alias) => {
                found.push(alias);
            },
            None => {
                proof {
                    lemma_aliases_fail(texts(paths@), i + 1, texts(table@));
                }
                return None;
            },
        }
        i += 1;
    }
    assert(texts(paths@).take(i as int) =~= texts(paths@));
    Some(found)
}

/// Where the first paths of a list cannot be resolved, the list cannot.
pub proof fn lemma_aliases_fail(paths: Seq<Seq<char>>, n: int, table: Seq<Seq<char>>)
    requires
        0 <= n <= paths.len(),
        aliases_of(paths.take(n), table) is None,
    ensures
        aliases_of(paths, table) is None,
    decreases paths.len() - n,
{
    if n < paths.len() {
        assert(paths.take(n + 1).drop_last() =~= paths.take(n));
        lemma_aliases_fail(paths, n + 1, table);
    } else {
        assert(paths.take(n) =~= paths);
    }
}

/// Where the first steps of a list cannot be shown, the list cannot.
pub proof fn lemma_steps_fail(steps: Seq<SearchStepView>, n: int, table: Seq<Seq<char>>)
    requires
        0 <= n <= steps.len(),
        steps_messages(steps.take(n), table) is None,
    ensures
        steps_messages(steps, table) is None,
    decreases steps.len() - n,
{
    if n < steps.len() {
        assert(steps.take(n + 1).drop_last() =~= steps.take(n));
        lemma_steps_fail(steps, n + 1, table);
    } else {
        assert(steps.take(n) =~= steps);
    }
}

/// Where the first turns of a list cannot be shown, the list cannot, and for
/// the same reason.
pub proof fn lemma_turns_fail(
    turns: Seq<ExchangeView>,
    n: int,
    table: Seq<Seq<char>>,
    encoded: Seq<Option<Seq<char>>>,
)
    requires
        0 <= n <= turns.len(),
        turns_messages(turns.take(n), table, encoded) is Err,
    ensures
        turns_messages(turns, table, encoded) == turns_messages(turns.take(n), table, encoded),
    decreases turns.len() - n,
{
    if n < turns.len() {
        assert(turns.take(n + 1).drop_last() =~= turns.take(n));
        lemma_turns_fail(turns, n + 1, table, encoded);
    } else {
        assert(turns.take(n) =~= turns);
    }
}

/// The messages of one recorded step, added to `out`.
fn push_step(out: &mut Vec<Message>, step: &SearchStep, table: &Vec<String>) -> (done: bool)
    ensures
        match step_messages(step@, texts(table@)) {
            Some(shown) => done && transcript(final(out)@) == transcript(old(out)@) + shown,
            None => !done,
        },
{
    let (name, arguments): (&str, String) = match step {
        SearchStep::Path { query, .. } => ("path", write_query_arguments(query.as_str())),
        SearchStep::Code { query, .. } => ("code", write_query_arguments(query.as_str())),
        SearchStep::Proc { query, paths, .. } => match resolve_aliases(paths, table) {
            Some(aliases) => ("proc", write_proc_arguments(&aliases, query.as_str())),
            None => {
                return false;
            },
        },
    };
    let response = step.get_response();
    let ghost before = transcript(out@);
    out.push(Message::function_call(name, arguments.as_str()));
    out.push(Message::function_return(name, response.as_str()));
    out.push(instruction_message());
    assert(transcript(out@) =~= before + step_messages(step@, texts(table@))->0);
    true
}

/// The messages of one turn, whose answer, if it has a final one, is shown
/// in the form `encoded`.
pub fn turn_history(turn: &Exchange, table: &Vec<String>, encoded: &Option<String>) -> (res: Result<
    Vec<Message>,
    Error,
>)
    ensures
        match turn_messages(turn@, texts(table@), optional_text(*encoded)) {
            Ok(shown) => res matches Ok(messages) && transcript(messages@) == shown,
            Err(HistoryFault::MissingQuery) => res matches Err(
                Error::Processing(Cause::MissingQuery),
            ),
            Err(HistoryFault::UnknownPath) => res matches Err(
                Error::Processing(Cause::UnknownPath),
            ),
            Err(HistoryFault::UnencodedAnswer) => res matches Err(
                Error::Processing(Cause::UnencodedAnswer),
            ),
        },
{
    let query = match turn.query() {
        Some(query) => query,
        None => {
            return Err(Error::Processing(Cause::MissingQuery));
        },
    };
    let mut out: Vec<Message> = Vec::new();
    out.push(Message::user(query.as_str()));
    out.push(instruction_message());
    let ghost head = seq![plain(user_role(), query@), instruction()];
    assert(transcript(out@) =~= head);
    assert(steps(turn.search_steps@).take(0) =~= Seq::<SearchStepView>::empty());
    let mut i: usize = 0;
    while i < turn.search_steps.len()
        invariant
            i <= turn.search_steps.len(),
            turn@.query_text() == Some(query@),
            head == seq![plain(user_role(), query@), instruction()],
            steps_messages(steps(turn.search_steps@).take(i as int), texts(table@)) matches Some(
                searched,
            ) && transcript(out@) == head + searched,
        decreases turn.search_steps.len() - i,
    {
        proof {
            let upto = steps(turn.search_steps@).take(i + 1);
            assert(upto.drop_last() =~= steps(turn.search_steps@).take(i as int));
            assert(upto.last() == turn.search_steps@[i as int]@);
        }
        let done = push_step(&mut out, &turn.search_steps[i], table);
        if !done {
            proof {
                let upto = steps(turn.search_steps@).take(i + 1);
                assert(upto.drop_last() =~= steps(turn.search_steps@).take(i as int));
                assert(steps_messages(upto, texts(table@)) is None);
                lemma_steps_fail(steps(turn.search_steps@), i + 1, texts(table@));
            }
            return Err(Error::Processing(Cause::UnknownPath));
        }
        proof {
            let front = steps_messages(steps(turn.search_steps@).take(i as int), texts(table@))->0;
            let last = step_messages(turn.search_steps@[i as int]@, texts(table@))->0;
            assert(head + front + last =~= head + (front + last));
        }
        i += 1;
    }
    assert(steps(turn.search_steps@).take(i as int) =~= steps(turn.search_steps@));
    let ghost searched = steps_messages(turn@.search_steps, texts(table@))->0;
    match turn.answer() {
        Some(_) => match encoded {
            Some(text) => {
                out.push(Message::assistant(text.as_str()));
                assert(transcript(out@) =~= head + searched + seq![
                    plain(assistant_role(), text@),
                ]);
            },
            None => {
                return Err(Error::Processing(Cause::UnencodedAnswer));
            },
        },
        None => {
            assert(transcript(out@) =~= head + searched + Seq::<MessageView>::empty());
        },
    }
    Ok(out)
}

impl Agent {
    /// The final answers of the turns that the model is shown, turn by turn.
    /// The driver brings each into the compact form and hands the list to
    /// [`Agent::history`]; an answer that cannot be brought into it is the
    /// driver's to report.
    pub fn answers(&self) -> (pending: Vec<Option<String>>)
        ensures
            optional_texts(pending@) == pending_answers(self@.exchanges),
    {
        let n = self.exchanges.len();
        let start: usize = if n > ANSWER_MAX_HISTORY_SIZE {
            n - ANSWER_MAX_HISTORY_SIZE
        } else {
            0
        };
        let ghost shown = window(self@.exchanges);
        assert(shown =~= self@.exchanges.skip(start as int));
        let mut pending: Vec<Option<String>> = Vec::new();
        let mut i: usize = start;
        while i < n
            invariant
                start <= i <= n,
                n == self.exchanges.len(),
                shown == window(self@.exchanges),
                shown == self@.exchanges.skip(start as int),
                optional_texts(pending@) == pending_answers(self@.exchanges).take(i - start),
            decreases n - i,
        {
            let ghost before = optional_texts(pending@);
            let answer = match self.exchanges[i].answer() {
                Some((answer, _conclusion)) => Some(answer),
                None => None,
            };
            pending.push(answer);
            proof {
                assert(shown[i - start] == self.exchanges@[i as int]@);
                assert(optional_texts(pending@) =~= before.push(optional_text(answer)));
                assert(pending_answers(self@.exchanges).take(i - start + 1) =~= before.push(
                    optional_text(answer),
                ));
            }
            i += 1;
        }
        assert(pending_answers(self@.exchanges).take(i - start) =~= pending_answers(
            self@.exchanges,
        ));
        pending
    }

    /// The full history of messages of the last turns, the recorded function
    /// calls included, as it is shown to the model. `encoded` holds, for each
    /// turn shown, its answer in the compact form; [`Agent::answers`] says
    /// which answers those are.
    ///
    /// It fails where a turn within the window has no query, where a
    /// recorded step names a path without an alias, and where a final answer
    /// has no encoded form; nothing else makes it fail. The same turns and
    /// the same encoded answers always give the same transcript.
    pub fn history(&self, encoded: &Vec<Option<String>>) -> (res: Result<Vec<Message>, Error>)
        ensures
            match history_of(self@.exchanges, optional_texts(encoded@)) {
                Ok(shown) => res matches Ok(messages) && transcript(messages@) == shown,
                Err(HistoryFault::MissingQuery) => res matches Err(
                    Error::Processing(Cause::MissingQuery),
                ),
                Err(HistoryFault::UnknownPath) => res matches Err(
                    Error::Processing(Cause::UnknownPath),
                ),
                Err(HistoryFault::UnencodedAnswer) => res matches Err(
                    Error::Processing(Cause::UnencodedAnswer),
                ),
            },
    {
        let table = self.paths();
        let n = self.exchanges.len();
        let start: usize = if n > ANSWER_MAX_HISTORY_SIZE {
            n - ANSWER_MAX_HISTORY_SIZE
        } else {
            0
        };
        let ghost shown = window(self@.exchanges);
        let ghost given = optional_texts(encoded@);
        assert(shown =~= self@.exchanges.skip(start as int));
        assert(shown.take(0) =~= Seq::<ExchangeView>::empty());
        let none: Option<String> = None;
        let mut out: Vec<Message> = Vec::new();
        assert(transcript(out@) =~= Seq::<MessageView>::empty());
        let mut i: usize = start;
        while i < n
            invariant
                start <= i <= n,
                n == self.exchanges.len(),
                none is None,
                given == optional_texts(encoded@),
                shown == window(self@.exchanges),
                shown == self@.exchanges.skip(start as int),
                texts(table@) == all_paths(self@.exchanges),
                turns_messages(shown.take(i - start), texts(table@), given) == Ok::<
                    Seq<MessageView>,
                    HistoryFault,
                >(transcript(out@)),
            decreases n - i,
        {
            let place = i - start;
            let answer: &Option<String> = if place < encoded.len() {
                &encoded[place]
            } else {
                &none
            };
            proof {
                let upto = shown.take(i - start + 1);
                assert(upto.drop_last() =~= shown.take(i - start));
                assert(upto.last() == self.exchanges@[i as int]@);
                assert(optional_text(*answer) == encoded_at(given, place as int));
            }
            match turn_history(&self.exchanges[i], &table, answer) {
                Ok(mut part) => {
                    let ghost before = transcript(out@);
                    let ghost added = transcript(part@);
                    out.append(&mut part);
                    assert(transcript(out@) =~= before + added);
                },
                Err(e) => {
                    proof {
                        let upto = shown.take(i - start + 1);
                        assert(upto.drop_last() =~= shown.take(i - start));
                        assert(turns_messages(upto, texts(table@), given) == turn_messages(
                            self.exchanges@[i as int]@,
                            texts(table@),
                            encoded_at(given, place as int),
                        ));
                        lemma_turns_fail(shown, i - start + 1, texts(table@), given);
                    }
                    return Err(e);
                },
            }
            i += 1;
        }
        assert(shown.take(i - start) =~= shown);
        Ok(out)
    }
}

} // verus!
