use agent::action::{Action, FunctionCall};
use agent::error::{Cause, Error};

fn call(name: &str, arguments: &str) -> FunctionCall {
    FunctionCall { name: Some(name.to_owned()), arguments: arguments.to_owned() }
}

fn cause_of(res: Result<Action, Error>) -> Cause {
    match res {
        Err(Error::Processing(cause)) => cause,
        Err(Error::Timeout(_)) => panic!("a timeout is never raised here"),
        Ok(action) => panic!("decoded {:?}", action),
    }
}

#[test]
fn decodes_each_tag_into_its_action() {
    assert_eq!(
        Action::deserialize_gpt(&call("path", "{\"query\": \"main.rs\"}")).unwrap(),
        Action::Path { query: "main.rs".to_owned() }
    );
    assert_eq!(
        Action::deserialize_gpt(&call("code", "{\n \"query\": \"fn main\"\n}")).unwrap(),
        Action::Code { query: "fn main".to_owned() }
    );
    assert_eq!(
        Action::deserialize_gpt(&call("proc", "{\"paths\": [0, 2], \"query\": \"what\"}"))
            .unwrap(),
        Action::Proc { query: "what".to_owned(), paths: vec![0, 2] }
    );
    assert_eq!(
        Action::deserialize_gpt(&call("none", "{\"paths\": [1]}")).unwrap(),
        Action::Answer { paths: vec![1] }
    );
    assert_eq!(
        Action::deserialize_gpt(&call("none", "{\"paths\": []}")).unwrap(),
        Action::Answer { paths: vec![] }
    );
}

#[test]
fn decoding_reads_escapes_and_passes_over_other_members() {
    assert_eq!(
        Action::deserialize_gpt(&call(
            "path",
            "{\"mode\": 3, \"query\": \"a \\\"b\\\" \\u00e9\", \"paths\": \"no list\"}"
        ))
        .unwrap(),
        Action::Path { query: "a \"b\" \u{e9}".to_owned() }
    );
    assert_eq!(
        Action::deserialize_gpt(&call("none", "{\"query\": 7, \"paths\": [4, 4, 0]}")).unwrap(),
        Action::Answer { paths: vec![4, 4, 0] }
    );
}

#[test]
fn decoding_fails_without_a_name() {
    let nameless = FunctionCall { name: None, arguments: "{\"query\": \"x\"}".to_owned() };
    let cause = cause_of(Action::deserialize_gpt(&nameless));
    assert!(matches!(cause, Cause::MissingName));
    assert_eq!(cause.message(), "malformed function call: missing name");

    let nameless_and_broken = FunctionCall { name: None, arguments: "{".to_owned() };
    assert!(matches!(cause_of(Action::deserialize_gpt(&nameless_and_broken)), Cause::MissingName));
}

#[test]
fn decoding_fails_on_arguments_that_are_no_json() {
    let cause = cause_of(Action::deserialize_gpt(&call("path", "{\"query\": ")));
    assert!(matches!(cause, Cause::InvalidArguments(_)));
    assert_eq!(cause.message(), "malformed function call: invalid arguments");
    assert!(matches!(
        cause_of(Action::deserialize_gpt(&call("path", ""))),
        Cause::InvalidArguments(_)
    ));
    assert!(matches!(
        cause_of(Action::deserialize_gpt(&call("jump", "not json"))),
        Cause::InvalidArguments(_)
    ));
    assert!(matches!(
        cause_of(Action::deserialize_gpt(&call("path", "{\"query\": \"x\"} trailing"))),
        Cause::InvalidArguments(_)
    ));
}

#[test]
fn decoding_fails_on_an_unknown_tag() {
    let cause = cause_of(Action::deserialize_gpt(&call("jump", "{\"query\": \"x\"}")));
    assert!(matches!(cause, Cause::UnknownAction));
    assert_eq!(cause.message(), "unknown action");
    assert!(matches!(
        cause_of(Action::deserialize_gpt(&call("", "{\"query\": \"x\"}"))),
        Cause::UnknownAction
    ));
    assert!(matches!(
        cause_of(Action::deserialize_gpt(&call("Path", "{\"query\": \"x\"}"))),
        Cause::UnknownAction
    ));
    assert!(matches!(
        cause_of(Action::deserialize_gpt(&call("answer", "{\"paths\": [1]}"))),
        Cause::UnknownAction
    ));
}

#[test]
fn decoding_never_gives_a_query() {
    assert!(matches!(
        cause_of(Action::deserialize_gpt(&call("query", "\"what is this\""))),
        Cause::UnknownAction
    ));
    assert!(matches!(
        cause_of(Action::deserialize_gpt(&call("query", "{\"query\": \"x\"}"))),
        Cause::UnknownAction
    ));
}

#[test]
fn decoding_fails_on_arguments_of_the_wrong_shape() {
    let wrong = [
        ("path", "{}"),
        ("path", "{\"query\": 3}"),
        ("path", "{\"query\": null}"),
        ("path", "[\"main.rs\"]"),
        ("path", "\"main.rs\""),
        ("path", "null"),
        ("code", "{\"paths\": [1]}"),
        ("proc", "{\"query\": \"x\"}"),
        ("proc", "{\"paths\": [1]}"),
        ("proc", "{\"query\": \"x\", \"paths\": 1}"),
        ("proc", "{\"query\": \"x\", \"paths\": [\"1\"]}"),
        ("none", "{}"),
        ("none", "{\"paths\": [-1]}"),
        ("none", "{\"paths\": [1.5]}"),
        ("none", "{\"paths\": [1, null]}"),
        ("none", "{\"paths\": [[1]]}"),
        ("none", "{\"paths\": {\"0\": 1}}"),
        ("none", "[[1]]"),
    ];
    for (name, arguments) in wrong {
        let cause = cause_of(Action::deserialize_gpt(&call(name, arguments)));
        assert!(matches!(cause, Cause::UnknownAction), "{} {}", name, arguments);
    }
}

#[test]
fn assembling_goes_by_the_tag() {
    assert_eq!(
        Action::assemble("path", Some("q".to_owned()), Some(vec![1])).unwrap(),
        Action::Path { query: "q".to_owned() }
    );
    assert_eq!(
        Action::assemble("code", Some("q".to_owned()), None).unwrap(),
        Action::Code { query: "q".to_owned() }
    );
    assert_eq!(
        Action::assemble("proc", Some("q".to_owned()), Some(vec![1, 0])).unwrap(),
        Action::Proc { query: "q".to_owned(), paths: vec![1, 0] }
    );
    assert_eq!(
        Action::assemble("none", None, Some(vec![5])).unwrap(),
        Action::Answer { paths: vec![5] }
    );
    assert!(matches!(
        cause_of(Action::assemble("none", Some("q".to_owned()), None)),
        Cause::UnknownAction
    ));
    assert!(matches!(
        cause_of(Action::assemble("proc", None, Some(vec![1]))),
        Cause::UnknownAction
    ));
    assert!(matches!(
        cause_of(Action::assemble("query", Some("q".to_owned()), Some(vec![1]))),
        Cause::UnknownAction
    ));
}

#[test]
fn reading_members_of_parsed_arguments() {
    let parsed: serde_json::Value =
        serde_json::from_str("{\"query\": \"q\", \"paths\": [3, 18446744073709551615], \"n\": 1}")
            .unwrap();
    assert_eq!(Action::read_text(&parsed, "query"), Some("q".to_owned()));
    assert_eq!(Action::read_text(&parsed, "paths"), None);
    assert_eq!(Action::read_text(&parsed, "n"), None);
    assert_eq!(Action::read_text(&parsed, "absent"), None);
    assert_eq!(Action::read_indices(&parsed, "paths"), Some(vec![3, usize::MAX]));
    assert_eq!(Action::read_indices(&parsed, "query"), None);
    assert_eq!(Action::read_indices(&parsed, "absent"), None);
    assert_eq!(
        Action::from_arguments("proc", &parsed).unwrap(),
        Action::Proc { query: "q".to_owned(), paths: vec![3, usize::MAX] }
    );
    let list: serde_json::Value = serde_json::from_str("[1, 2]").unwrap();
    assert_eq!(Action::read_indices(&list, "paths"), None);
    assert_eq!(Action::read_text(&list, "query"), None);
}

#[test]
fn folding_takes_the_first_name_and_all_arguments_in_order() {
    let stream = vec![
        FunctionCall { name: None, arguments: "".to_owned() },
        FunctionCall { name: Some("path".to_owned()), arguments: "{\"que".to_owned() },
        FunctionCall { name: None, arguments: "ry\": ".to_owned() },
        FunctionCall { name: Some("code".to_owned()), arguments: "\"lib\"}".to_owned() },
    ];
    let folded = FunctionCall::collect(&stream);
    assert_eq!(folded, call("path", "{\"query\": \"lib\"}"));
    assert_eq!(
        Action::deserialize_gpt(&folded).unwrap(),
        Action::Path { query: "lib".to_owned() }
    );

    assert_eq!(
        FunctionCall::collect(&Vec::new()),
        FunctionCall { name: None, arguments: String::new() }
    );
    assert_eq!(FunctionCall::default(), FunctionCall { name: None, arguments: String::new() });

    let empty_name_first = vec![
        FunctionCall { name: Some("".to_owned()), arguments: "a".to_owned() },
        FunctionCall { name: Some("proc".to_owned()), arguments: "b".to_owned() },
    ];
    assert_eq!(FunctionCall::collect(&empty_name_first), call("", "ab"));
}

#[test]
fn merging_keeps_a_name_that_is_there() {
    let merged = call("code", "ab").merge(&call("path", "cd"));
    assert_eq!(merged, call("code", "abcd"));
    let named_late = FunctionCall { name: None, arguments: "ab".to_owned() }.merge(&call("path", "cd"));
    assert_eq!(named_late, call("path", "abcd"));
    let copy = Action::Proc { query: "q".to_owned(), paths: vec![1, 2] }.duplicate();
    assert_eq!(copy, Action::Proc { query: "q".to_owned(), paths: vec![1, 2] });
}
