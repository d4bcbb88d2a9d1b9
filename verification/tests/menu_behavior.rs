use api_menu::menu::{
    activity_endpoint, error_line, fact_endpoint, joke_endpoint, menu_lines, parse_choice,
    step_input, step_response, MenuAction, Request,
};
use api_menu::records::FetchError;

#[test]
fn quit_lowercase_terminates() {
    let r = step_input("q");
    assert!(r.done);
    assert!(r.request.is_none());
    assert_eq!(r.lines, vec!["Bye!".to_string()]);
}

#[test]
fn quit_uppercase_terminates() {
    let r = step_input("Q");
    assert!(r.done);
    assert!(r.request.is_none());
    assert_eq!(r.lines, vec!["Bye!".to_string()]);
}

#[test]
fn quit_padded_terminates() {
    let r = step_input("  q  ");
    assert!(r.done);
    assert!(r.request.is_none());
    assert_eq!(r.lines, vec!["Bye!".to_string()]);
}

#[test]
fn quit_with_newline_terminates() {
    let r = step_input("q\n");
    assert!(r.done);
    assert_eq!(r.lines, vec!["Bye!".to_string()]);
}

#[test]
fn quit_padded_with_unicode_whitespace_terminates() {
    for line in [
        "\u{000B}q",
        "\u{000C}q\u{000C}",
        "\u{0085}q",
        "\u{00A0}q\u{00A0}",
        "\u{2003}q\u{200A}",
        "\u{3000}Q\u{202F}",
    ] {
        let r = step_input(line);
        assert!(r.done, "input {:?} must quit", line);
        assert_eq!(r.lines, vec!["Bye!".to_string()]);
    }
}

#[test]
fn whitespace_padding_matches_std_trim() {
    for line in ["\u{000B}1", "\u{2028}2\u{2029}", "\u{205F}3", "\u{1680}q\u{2000}"] {
        assert_eq!(
            parse_choice(line),
            parse_choice(line.trim()),
            "padding of {:?} must be inert",
            line
        );
    }
}

#[test]
fn digit_nine_is_invalid_and_makes_no_request() {
    let r = step_input("9");
    assert!(!r.done);
    assert!(r.request.is_none());
    assert_eq!(r.lines, vec!["Selected menu does not exist".to_string()]);
}

#[test]
fn word_is_invalid_and_makes_no_request() {
    let r = step_input("abc");
    assert!(!r.done);
    assert!(r.request.is_none());
    assert_eq!(r.lines, vec!["Selected menu does not exist".to_string()]);
}

#[test]
fn empty_line_is_invalid_and_makes_no_request() {
    let r = step_input("");
    assert!(!r.done);
    assert!(r.request.is_none());
    assert_eq!(r.lines, vec!["Selected menu does not exist".to_string()]);
}

#[test]
fn choice_one_requests_a_joke() {
    let r = step_input("1");
    assert!(!r.done);
    assert_eq!(r.request, Some(Request::Joke));
    assert!(r.lines.is_empty());
}

#[test]
fn choice_two_requests_an_activity() {
    let r = step_input("2\n");
    assert!(!r.done);
    assert_eq!(r.request, Some(Request::Activity));
    assert!(r.lines.is_empty());
}

#[test]
fn choice_three_requests_a_fact() {
    let r = step_input(" 3 ");
    assert!(!r.done);
    assert_eq!(r.request, Some(Request::Fact));
    assert!(r.lines.is_empty());
}

#[test]
fn parse_choice_recognizes_tokens() {
    assert_eq!(parse_choice("1"), MenuAction::FetchJoke);
    assert_eq!(parse_choice("2"), MenuAction::FetchActivity);
    assert_eq!(parse_choice("3"), MenuAction::FetchFact);
    assert_eq!(parse_choice("q"), MenuAction::Quit);
    assert_eq!(parse_choice("Q"), MenuAction::Quit);
    assert_eq!(parse_choice("\t q \n"), MenuAction::Quit);
    assert_eq!(parse_choice("11"), MenuAction::Invalid);
    assert_eq!(parse_choice("quit"), MenuAction::Invalid);
    assert_eq!(parse_choice("  "), MenuAction::Invalid);
}

#[test]
fn transport_failure_prints_one_error_line() {
    let lines = step_response(Request::Joke, Err("connection refused".to_string()));
    assert_eq!(lines, vec!["Api error: connection refused".to_string()]);
    let lines = step_response(Request::Activity, Err("timed out".to_string()));
    assert_eq!(lines, vec!["Api error: timed out".to_string()]);
    let lines = step_response(Request::Fact, Err("dns failure".to_string()));
    assert_eq!(lines, vec!["Api error: dns failure".to_string()]);
}

#[test]
fn malformed_body_prints_one_error_line() {
    let lines = step_response(Request::Joke, Ok("{oops".to_string()));
    assert_eq!(
        lines,
        vec!["Api error: could not decode response body".to_string()]
    );
}

#[test]
fn error_line_carries_the_message() {
    let e = FetchError::Transport("boom".to_string());
    assert_eq!(error_line(&e), "Api error: boom".to_string());
    let e = FetchError::Decode("bad body".to_string());
    assert_eq!(error_line(&e), "Api error: bad body".to_string());
    assert_eq!(e.message(), "bad body".to_string());
}

#[test]
fn menu_banner_lines() {
    let lines = menu_lines();
    assert_eq!(
        lines,
        vec![
            "Menu: ".to_string(),
            "1. Random daily joke".to_string(),
            "2. Activity recommendation".to_string(),
            "3. Chuck Norris Facts".to_string(),
            "q: Quit".to_string(),
        ]
    );
}

#[test]
fn endpoints_are_fixed() {
    assert_eq!(joke_endpoint(), "https://v2.jokeapi.dev/joke/Any");
    assert_eq!(activity_endpoint(), "https://bored-api.appbrewery.com/random");
    assert_eq!(fact_endpoint(), "https://api.chucknorris.io/jokes/random");
}

#[test]
fn joke_then_quit_sequence() {
    let stub = "{\"setup\":\"Why did the chicken cross the road?\",\
                \"delivery\":\"To get to the other side.\"}";
    let mut output: Vec<String> = Vec::new();

    let first = step_input("1");
    assert!(!first.done);
    output.extend(first.lines);
    let req = first.request.expect("choice 1 must request a joke");
    output.extend(step_response(req, Ok(stub.to_string())));

    let second = step_input("q");
    output.extend(second.lines.clone());
    assert!(second.done);
    assert!(second.request.is_none());

    assert_eq!(
        output,
        vec![
            "Why did the chicken cross the road?".to_string(),
            "To get to the other side.".to_string(),
            "Bye!".to_string(),
        ]
    );
}
