use agent::error::{Cause, Error};
use agent::message::Message;
use agent::tokens::estimate;
use agent::trim::{count_messages, trim_history, trim_step, TrimStep, HEADROOM};

#[test]
fn test_trimming_history() {
    let long_string = "long string ".repeat(2000);
    let history = vec![
        Message::system("foo"),
        Message::user("bar"),
        Message::assistant("baz"),
        Message::user("box"),
        Message::assistant(&long_string),
        Message::user("fred"),
        Message::assistant("thud"),
        Message::user(&long_string),
        Message::user("corge"),
    ];

    assert_eq!(
        trim_history(history).unwrap(),
        vec![
            Message::system("foo"),
            Message::user("bar"),
            Message::assistant("[HIDDEN]"),
            Message::user("box"),
            Message::assistant("[HIDDEN]"),
            Message::user("fred"),
            Message::assistant("thud"),
            Message::user(&long_string),
            Message::user("corge"),
        ]
    );
}

#[test]
fn trimming_hides_the_two_long_replies_and_nothing_else() {
    let long_string = "long string ".repeat(4000);
    let history = vec![
        Message::system("frame"),
        Message::user("one"),
        Message::assistant(&long_string),
        Message::user("two"),
        Message::assistant(&long_string),
        Message::user("three"),
        Message::assistant("short"),
        Message::user("four"),
    ];
    assert_eq!(
        trim_history(history).unwrap(),
        vec![
            Message::system("frame"),
            Message::user("one"),
            Message::assistant("[HIDDEN]"),
            Message::user("two"),
            Message::assistant("[HIDDEN]"),
            Message::user("three"),
            Message::assistant("short"),
            Message::user("four"),
        ]
    );
}

#[test]
fn trimming_leaves_a_transcript_within_budget_alone() {
    let history = vec![
        Message::system("foo"),
        Message::user("bar"),
        Message::assistant("baz"),
        Message::function_call("path", "{\n \"query\": \"x\"\n}"),
        Message::function_return("path", "some paths"),
    ];
    assert_eq!(trim_history(history.clone()).unwrap(), history);
}

#[test]
fn trimming_twice_is_trimming_once() {
    let long_string = "long string ".repeat(2000);
    let history = vec![
        Message::system("foo"),
        Message::assistant(&long_string),
        Message::function_return("code", &long_string),
        Message::assistant("thud"),
        Message::user("corge"),
    ];
    let once = trim_history(history.clone()).unwrap();
    assert_eq!(once.len(), history.len());
    assert_eq!(
        once,
        vec![
            Message::system("foo"),
            Message::assistant("[HIDDEN]"),
            Message::function_return("code", &long_string),
            Message::assistant("thud"),
            Message::user("corge"),
        ]
    );
    let twice = trim_history(once.clone()).unwrap();
    assert_eq!(twice, once);

    let room_before = estimate(&count_messages(&history)).unwrap();
    let room_after = estimate(&count_messages(&once)).unwrap();
    assert_eq!(room_before, 160);
    assert!(room_after >= HEADROOM);
    assert!(room_before <= room_after);
}

#[test]
fn trimming_hides_function_returns_but_not_calls() {
    let long_string = "long string ".repeat(2000);
    let history = vec![
        Message::system("foo"),
        Message::function_call("code", &long_string),
        Message::function_return("code", &long_string),
        Message::user("corge"),
    ];
    assert_eq!(
        trim_history(history).unwrap(),
        vec![
            Message::system("foo"),
            Message::function_call("code", &long_string),
            Message::function_return("code", "[HIDDEN]"),
            Message::user("corge"),
        ]
    );
}

#[test]
fn trimming_fails_when_nothing_is_left_to_hide() {
    let long_string = "long string ".repeat(2000);
    let history = vec![
        Message::system("foo"),
        Message::user(&long_string),
        Message::assistant("baz"),
        Message::user(&long_string),
    ];
    let err = trim_history(history).unwrap_err();
    assert!(matches!(err, Error::Processing(Cause::TrimExhausted)));
    match err {
        Error::Processing(cause) => {
            assert_eq!(cause.message(), "could not find message to trim")
        }
        Error::Timeout(_) => panic!("a timeout is never raised here"),
    }
}

#[test]
fn trim_step_decides_by_the_room_that_is_left() {
    let history = vec![
        Message::system("foo"),
        Message::user("bar"),
        Message::assistant("[HIDDEN]"),
        Message::function_call("path", "{}"),
        Message::function_return("path", "found"),
        Message::assistant("baz"),
    ];
    assert_eq!(HEADROOM, 2048);
    assert_eq!(trim_step(&history, 2048), TrimStep::Done);
    assert_eq!(trim_step(&history, 9000), TrimStep::Done);
    assert_eq!(trim_step(&history, 2047), TrimStep::Redact(4));
    assert_eq!(trim_step(&history, 0), TrimStep::Redact(4));

    let settled = vec![
        Message::system("foo"),
        Message::user("bar"),
        Message::assistant("[HIDDEN]"),
        Message::function_return("path", "[HIDDEN]"),
    ];
    assert_eq!(trim_step(&settled, 2047), TrimStep::Exhausted);
    assert_eq!(trim_step(&settled, 2048), TrimStep::Done);
    assert_eq!(trim_step(&Vec::new(), 0), TrimStep::Exhausted);
}

#[test]
fn redaction_keeps_role_and_name() {
    assert!(Message::assistant("x").is_redactable());
    assert!(!Message::assistant("[HIDDEN]").is_redactable());
    assert!(!Message::user("x").is_redactable());
    assert!(!Message::system("x").is_redactable());
    assert!(!Message::function_call("path", "x").is_redactable());
    assert!(Message::function_return("path", "x").is_redactable());
    assert!(!Message::function_return("path", "[HIDDEN]").is_redactable());
    assert_eq!(Message::assistant("x").redact(), Message::assistant("[HIDDEN]"));
    assert_eq!(
        Message::function_return("code", "x").redact(),
        Message::function_return("code", "[HIDDEN]")
    );
}

#[test]
fn trimming_hides_what_is_too_large_to_count() {
    let huge = "a".repeat(1_100_000);
    let history = vec![
        Message::system("foo"),
        Message::function_return("code", &huge),
        Message::assistant("baz"),
        Message::user("corge"),
    ];
    assert_eq!(
        trim_history(history).unwrap(),
        vec![
            Message::system("foo"),
            Message::function_return("code", "[HIDDEN]"),
            Message::assistant("baz"),
            Message::user("corge"),
        ]
    );
    let stuck = vec![Message::user(&huge), Message::assistant("baz")];
    assert!(matches!(
        trim_history(stuck).unwrap_err(),
        Error::Processing(Cause::TrimExhausted)
    ));
}

#[test]
fn trimming_goes_by_the_tokenizer_and_not_by_the_size() {
    // 128000 bytes that cost some 3000 tokens: well within the budget.
    let blanks = format!("{}x", " ".repeat(127)).repeat(1000);
    let history = vec![
        Message::system("foo"),
        Message::assistant("baz"),
        Message::function_return("code", &blanks),
        Message::user("corge"),
    ];
    assert!(estimate(&count_messages(&history)).unwrap() >= HEADROOM);
    assert_eq!(trim_history(history.clone()).unwrap(), history);

    let nothing_to_hide = vec![Message::system("foo"), Message::user(&blanks)];
    assert_eq!(trim_history(nothing_to_hide.clone()).unwrap(), nothing_to_hide);
}
