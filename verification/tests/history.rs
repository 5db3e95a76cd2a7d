use agent::agent::Agent;
use agent::error::{Cause, Error};
use agent::exchange::{Exchange, Query, SearchStep, Update};
use agent::history::{
    instruction_message, resolve_aliases, turn_history, write_proc_arguments,
    write_query_arguments, ANSWER_MAX_HISTORY_SIZE,
};
use agent::message::Message;

const INSTRUCTION: &str = "Call a function. Do not answer";

fn session(exchanges: Vec<Exchange>) -> Agent {
    Agent::new("repo".to_owned(), exchanges, uuid::Uuid::nil(), uuid::Uuid::nil())
}

fn turn(query: &str) -> Exchange {
    Exchange::new(Query::new(query))
}

/// Stands for the driver's encoder.
fn encode(answer: &str) -> String {
    format!("<{}>", answer)
}

fn shown(agent: &Agent) -> Result<Vec<Message>, Error> {
    let encoded: Vec<Option<String>> =
        agent.answers().into_iter().map(|answer| answer.map(|text| encode(&text))).collect();
    agent.history(&encoded)
}

fn strings(items: &[&str]) -> Vec<String> {
    items.iter().map(|s| s.to_string()).collect()
}

#[test]
fn argument_strings_are_written_out_exactly() {
    assert_eq!(write_query_arguments("foo"), "{\n \"query\": \"foo\"\n}");
    assert_eq!(write_query_arguments(""), "{\n \"query\": \"\"\n}");
    assert_eq!(write_query_arguments("a \"b\""), "{\n \"query\": \"a \"b\"\"\n}");
    assert_eq!(
        write_proc_arguments(&vec![0, 12, 3], "what"),
        "{\n \"paths\": [0, 12, 3],\n \"query\": \"what\"\n}"
    );
    assert_eq!(
        write_proc_arguments(&vec![7], "what"),
        "{\n \"paths\": [7],\n \"query\": \"what\"\n}"
    );
    assert_eq!(write_proc_arguments(&vec![], "q"), "{\n \"paths\": [],\n \"query\": \"q\"\n}");
    assert_eq!(instruction_message(), Message::user(INSTRUCTION));
    assert_eq!(ANSWER_MAX_HISTORY_SIZE, 3);
}

#[test]
fn a_turn_is_shown_query_first_then_steps_then_answer() {
    let mut first = turn("where is main?");
    first.paths = strings(&["src/main.rs", "src/lib.rs"]);
    first.apply_update(Update::StartStep(SearchStep::Path {
        query: "main".to_owned(),
        response: "src/main.rs".to_owned(),
    }));
    first.apply_update(Update::StartStep(SearchStep::Code {
        query: "fn main".to_owned(),
        response: "fn main() {}".to_owned(),
    }));
    first.apply_update(Update::StartStep(SearchStep::Proc {
        query: "entry".to_owned(),
        paths: strings(&["src/lib.rs", "src/main.rs"]),
        response: "it is in main.rs".to_owned(),
    }));
    first.apply_update(Update::Article("It is in src/main.rs.".to_owned()));
    first.apply_update(Update::Conclude("Found it.".to_owned()));

    let expected = vec![
        Message::user("where is main?"),
        Message::user(INSTRUCTION),
        Message::function_call("path", "{\n \"query\": \"main\"\n}"),
        Message::function_return("path", "src/main.rs"),
        Message::user(INSTRUCTION),
        Message::function_call("code", "{\n \"query\": \"fn main\"\n}"),
        Message::function_return("code", "fn main() {}"),
        Message::user(INSTRUCTION),
        Message::function_call("proc", "{\n \"paths\": [1, 0],\n \"query\": \"entry\"\n}"),
        Message::function_return("proc", "it is in main.rs"),
        Message::user(INSTRUCTION),
        Message::assistant("<It is in src/main.rs.>"),
    ];
    assert_eq!(shown(&session(vec![first.clone()])).unwrap(), expected);
    assert_eq!(
        turn_history(
            &first,
            &strings(&["src/main.rs", "src/lib.rs"]),
            &Some("<It is in src/main.rs.>".to_owned())
        )
        .unwrap(),
        expected
    );
    assert_eq!(shown(&session(vec![first.clone()])).unwrap(), shown(&session(vec![first])).unwrap());
}

#[test]
fn an_answer_without_its_summary_is_not_shown() {
    let mut open = turn("q");
    open.apply_update(Update::Article("half an answer".to_owned()));
    assert_eq!(open.answer(), None);
    assert_eq!(
        shown(&session(vec![open.clone()])).unwrap(),
        vec![Message::user("q"), Message::user(INSTRUCTION)]
    );
    open.apply_update(Update::Conclude("done".to_owned()));
    assert_eq!(open.answer(), Some(("half an answer".to_owned(), "done".to_owned())));
    assert_eq!(
        shown(&session(vec![open])).unwrap(),
        vec![Message::user("q"), Message::user(INSTRUCTION), Message::assistant("<half an answer>")]
    );
}

#[test]
fn history_shows_the_last_three_turns_only() {
    let mut turns = Vec::new();
    for i in 0..5 {
        let mut t = turn(&format!("question {}", i));
        t.apply_update(Update::StartStep(SearchStep::Path {
            query: format!("search {}", i),
            response: format!("response {}", i),
        }));
        t.apply_update(Update::Article(format!("answer {}", i)));
        t.apply_update(Update::Conclude(format!("summary {}", i)));
        turns.push(t);
    }
    let history = shown(&session(turns.clone())).unwrap();
    let mut expected = Vec::new();
    for i in 2..5 {
        expected.push(Message::user(&format!("question {}", i)));
        expected.push(Message::user(INSTRUCTION));
        expected.push(Message::function_call(
            "path",
            &format!("{{\n \"query\": \"search {}\"\n}}", i),
        ));
        expected.push(Message::function_return("path", &format!("response {}", i)));
        expected.push(Message::user(INSTRUCTION));
        expected.push(Message::assistant(&format!("<answer {}>", i)));
    }
    assert_eq!(history, expected);
    assert_eq!(history.len(), 18);
    for message in &history {
        let shown = format!("{:?}", message);
        assert!(!shown.contains(" 0\"") && !shown.contains(" 1\""), "{}", shown);
        assert!(!shown.contains("summary"), "{}", shown);
    }

    let last_three = shown(&session(turns[2..].to_vec())).unwrap();
    assert_eq!(history, last_three);

    turns[0] = turn("something else entirely");
    turns[1].query.target = None;
    assert_eq!(shown(&session(turns)).unwrap(), expected);
}

#[test]
fn history_of_few_turns_shows_them_all() {
    assert_eq!(shown(&session(Vec::new())).unwrap(), Vec::new());
    assert_eq!(
        shown(&session(vec![turn("a"), turn("b")])).unwrap(),
        vec![
            Message::user("a"),
            Message::user(INSTRUCTION),
            Message::user("b"),
            Message::user(INSTRUCTION),
        ]
    );
    assert_eq!(shown(&session(vec![turn("a"), turn("b"), turn("c")])).unwrap().len(), 6);
    assert_eq!(
        shown(&session(vec![turn("a"), turn("b"), turn("c"), turn("d")])).unwrap()[0],
        Message::user("b")
    );
}

#[test]
fn aliases_in_the_window_count_paths_of_older_turns() {
    let mut old = turn("old");
    old.paths = strings(&["a.rs", "b.rs"]);
    let mut recent = turn("recent");
    recent.paths = strings(&["c.rs"]);
    recent.apply_update(Update::StartStep(SearchStep::Proc {
        query: "q".to_owned(),
        paths: strings(&["c.rs", "a.rs"]),
        response: "r".to_owned(),
    }));
    let history = shown(&session(vec![old, turn("x"), turn("y"), recent])).unwrap();
    assert_eq!(
        history[6],
        Message::function_call("proc", "{\n \"paths\": [2, 0],\n \"query\": \"q\"\n}")
    );
    assert_eq!(history[0], Message::user("x"));
}

#[test]
fn history_fails_on_a_turn_without_a_query() {
    let mut blank = turn("x");
    blank.query.target = None;
    assert_eq!(blank.query(), None);
    let err = shown(&session(vec![turn("a"), blank, turn("c")])).unwrap_err();
    assert!(matches!(err, Error::Processing(Cause::MissingQuery)));
    match err {
        Error::Processing(cause) => assert_eq!(cause.message(), "query does not have target"),
        Error::Timeout(_) => panic!("a timeout is never raised here"),
    }
}

#[test]
fn history_fails_on_a_step_with_a_path_that_has_no_alias() {
    let mut stray = turn("x");
    stray.paths = strings(&["a.rs"]);
    stray.apply_update(Update::StartStep(SearchStep::Proc {
        query: "q".to_owned(),
        paths: strings(&["a.rs", "nowhere.rs"]),
        response: "r".to_owned(),
    }));
    let err = shown(&session(vec![stray])).unwrap_err();
    assert!(matches!(err, Error::Processing(Cause::UnknownPath)));
    assert_eq!(resolve_aliases(&strings(&["b", "a", "b"]), &strings(&["a", "b", "a"])), Some(vec![1, 0, 1]));
    assert_eq!(resolve_aliases(&strings(&["b", "z"]), &strings(&["a", "b"])), None);
    assert_eq!(resolve_aliases(&Vec::new(), &Vec::new()), Some(Vec::new()));
}

#[test]
fn the_answers_to_encode_are_those_of_the_turns_shown() {
    let mut turns = Vec::new();
    for i in 0..5 {
        let mut t = turn(&format!("question {}", i));
        if i != 3 {
            t.apply_update(Update::Article(format!("answer {}", i)));
        }
        if i != 4 {
            t.apply_update(Update::Conclude(format!("summary {}", i)));
        }
        turns.push(t);
    }
    let agent = session(turns);
    assert_eq!(agent.answers(), vec![Some("answer 2".to_owned()), None, None]);
    assert_eq!(session(Vec::new()).answers(), Vec::<Option<String>>::new());
    assert_eq!(session(vec![turn("a")]).answers(), vec![None]);
}

#[test]
fn the_answer_is_shown_in_the_form_that_was_given() {
    let mut done = turn("q");
    done.apply_update(Update::Article("a long answer with code".to_owned()));
    done.apply_update(Update::Conclude("summary".to_owned()));
    let agent = session(vec![turn("before"), done, turn("after")]);
    let history = agent
        .history(&vec![Some("never shown".to_owned()), Some("compact".to_owned()), None, None])
        .unwrap();
    assert_eq!(
        history,
        vec![
            Message::user("before"),
            Message::user(INSTRUCTION),
            Message::user("q"),
            Message::user(INSTRUCTION),
            Message::assistant("compact"),
            Message::user("after"),
            Message::user(INSTRUCTION),
        ]
    );
    for message in &history {
        let text = format!("{:?}", message);
        assert!(!text.contains("a long answer") && !text.contains("summary"), "{}", text);
    }
}

#[test]
fn history_fails_on_a_final_answer_that_was_not_encoded() {
    let mut done = turn("q");
    done.apply_update(Update::Article("answer".to_owned()));
    done.apply_update(Update::Conclude("summary".to_owned()));
    let agent = session(vec![turn("before"), done]);
    for encoded in [vec![], vec![None], vec![None, None], vec![Some("x".to_owned()), None]] {
        let err = agent.history(&encoded).unwrap_err();
        assert!(matches!(err, Error::Processing(Cause::UnencodedAnswer)));
    }
    assert!(agent.history(&vec![None, Some("x".to_owned())]).is_ok());
    assert_eq!(Cause::UnencodedAnswer.message(), "answer was not encoded");

    let mut blank = turn("x");
    blank.query.target = None;
    blank.apply_update(Update::Article("answer".to_owned()));
    blank.apply_update(Update::Conclude("summary".to_owned()));
    assert!(matches!(
        session(vec![blank]).history(&Vec::new()).unwrap_err(),
        Error::Processing(Cause::MissingQuery)
    ));
}
