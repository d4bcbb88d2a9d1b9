//! The menu: recognizing a line of input as a choice, and the per-iteration
//! step functions that drive the read-dispatch-print loop.

use vstd::prelude::*;
use crate::json::{
    activity_result_matches, decode_activity, decode_fact, decode_joke, decode_msg,
    fact_result_matches, joke_result_matches, spec_activity_decode, spec_fact_decode,
    spec_joke_decode,
};
use crate::records::{ActivityRecord, FactRecord, FetchError, JokeRecord, spec_message};
use crate::text::{ascii_lower, spec_normalize, spec_trim, trim_bounds};

verus! {

/// What a line of input asks for, once trimmed and case folded.
#[derive(Debug, Clone, Copy, PartialEq, Eq, Structural)]
pub enum MenuAction {
    FetchJoke,
    FetchActivity,
    FetchFact,
    Quit,
    Invalid,
}

/// The choice that a line of input names: the line is trimmed and case
/// folded, and the result must be exactly one of the menu tokens.
pub open spec fn spec_choice(s: Seq<char>) -> MenuAction {
    let n = spec_normalize(s);
    if n == seq!['1'] {
        MenuAction::FetchJoke
    } else if n == seq!['2'] {
        MenuAction::FetchActivity
    } else if n == seq!['3'] {
        MenuAction::FetchFact
    } else if n == seq!['q'] {
        MenuAction::Quit
    } else {
        MenuAction::Invalid
    }
}

/// Recognize one line of input as a menu choice.
pub fn parse_choice(input: &str) -> (r: MenuAction)
    ensures
        r == spec_choice(input@),
{
    let (lo, hi) = trim_bounds(input);
    proof {
        assert(spec_normalize(input@) == spec_trim(input@).map_values(
            |c: char| ascii_lower(c),
        ));
        assert(spec_normalize(input@).len() == spec_trim(input@).len());
    }
    if hi - lo != 1 {
        proof {
            let n = spec_normalize(input@);
            assert(n.len() != 1);
            assert(seq!['1'].len() == 1 && seq!['2'].len() == 1 && seq!['3'].len() == 1
                && seq!['q'].len() == 1);
        }
        return MenuAction::Invalid;
    }
    let c = input.get_char(lo);
    proof {
        let n = spec_normalize(input@);
        let t = spec_trim(input@);
        assert(t.len() == 1 && t[0] == input@[lo as int]);
        assert(n.len() == 1 && n[0] == ascii_lower(c));
        assert(n =~= seq![ascii_lower(c)]);
        lemma_lower_of_token(c);
    }
    if c == '1' {
        MenuAction::FetchJoke
    } else if c == '2' {
        MenuAction::FetchActivity
    } else if c == '3' {
        MenuAction::FetchFact
    } else if c == 'q' || c == 'Q' {
        MenuAction::Quit
    } else {
        proof {
            let n = spec_normalize(input@);
            assert(n != seq!['1'] && n != seq!['2'] && n != seq!['3'] && n != seq!['q']);
        }
        MenuAction::Invalid
    }
}

/// One of the three kinds of outbound request the menu can ask for.
#[derive(Debug, Clone, Copy, PartialEq, Eq, Structural)]
pub enum Request {
    Joke,
    Activity,
    Fact,
}

/// The request that a menu choice asks for, if any.
pub open spec fn spec_request_of(a: MenuAction) -> Option<Request> {
    match a {
        MenuAction::FetchJoke => Some(Request::Joke),
        MenuAction::FetchActivity => Some(Request::Activity),
        MenuAction::FetchFact => Some(Request::Fact),
        MenuAction::Quit => None,
        MenuAction::Invalid => None,
    }
}

/// The view of a list of output lines.
pub open spec fn lines_view(v: Seq<String>) -> Seq<Seq<char>> {
    v.map_values(|s: String| s@)
}

/// The view of a transport outcome: the response body on success, the
/// transport error's message on failure.
pub open spec fn transport_view(t: Result<String, String>) -> Result<Seq<char>, Seq<char>> {
    match t {
        Ok(b) => Ok(b@),
        Err(m) => Err(m@),
    }
}

/// The single diagnostic line printed for a failed fetch.
pub open spec fn spec_error_line(msg: Seq<char>) -> Seq<char> {
    "Api error: "@ + msg
}

/// Render a fetch error as its diagnostic line.
pub fn error_line(e: &FetchError) -> (r: String)
    ensures
        r@ == spec_error_line(spec_message(*e)),
{
    let mut line: String = "Api error: ".to_owned();
    line.append(e.message().as_str());
    line
}

/// What one joke fetch prints, as a function of the transport outcome: both
/// record fields on success, one diagnostic line otherwise.
pub open spec fn spec_joke_lines(t: Result<Seq<char>, Seq<char>>) -> Seq<Seq<char>> {
    match t {
        Ok(body) => match spec_joke_decode(body) {
            Some(p) => seq![p.0, p.1],
            None => seq![spec_error_line(decode_msg())],
        },
        Err(m) => seq![spec_error_line(m)],
    }
}

/// What one activity fetch prints, as a function of the transport outcome.
pub open spec fn spec_activity_lines(t: Result<Seq<char>, Seq<char>>) -> Seq<Seq<char>> {
    match t {
        Ok(body) => match spec_activity_decode(body) {
            Some(a) => seq![a],
            None => seq![spec_error_line(decode_msg())],
        },
        Err(m) => seq![spec_error_line(m)],
    }
}

/// What one fact fetch prints, as a function of the transport outcome.
pub open spec fn spec_fact_lines(t: Result<Seq<char>, Seq<char>>) -> Seq<Seq<char>> {
    match t {
        Ok(body) => match spec_fact_decode(body) {
            Some(v) => seq![v],
            None => seq![spec_error_line(decode_msg())],
        },
        Err(m) => seq![spec_error_line(m)],
    }
}

/// What one fetch prints, whichever request was made.
pub open spec fn spec_response_lines(
    req: Request,
    t: Result<Seq<char>, Seq<char>>,
) -> Seq<Seq<char>> {
    match req {
        Request::Joke => spec_joke_lines(t),
        Request::Activity => spec_activity_lines(t),
        Request::Fact => spec_fact_lines(t),
    }
}

/// The record or error of one joke fetch, given the transport outcome: the
/// body is decoded on transport success, and a transport failure carries the
/// transport error's message.
pub fn joke_outcome(transport: Result<String, String>) -> (r: Result<JokeRecord, FetchError>)
    ensures
        match transport {
            Ok(body) => joke_result_matches(r, body@),
            Err(m) => r matches Err(FetchError::Transport(t)) && t@ == m@,
        },
{
    match transport {
        Ok(body) => decode_joke(body.as_str()),
        Err(m) => Err(FetchError::Transport(m)),
    }
}

/// The record or error of one activity fetch, given the transport outcome.
pub fn activity_outcome(transport: Result<String, String>) -> (r: Result<
    ActivityRecord,
    FetchError,
>)
    ensures
        match transport {
            Ok(body) => activity_result_matches(r, body@),
            Err(m) => r matches Err(FetchError::Transport(t)) && t@ == m@,
        },
{
    match transport {
        Ok(body) => decode_activity(body.as_str()),
        Err(m) => Err(FetchError::Transport(m)),
    }
}

/// The record or error of one fact fetch, given the transport outcome.
pub fn fact_outcome(transport: Result<String, String>) -> (r: Result<FactRecord, FetchError>)
    ensures
        match transport {
            Ok(body) => fact_result_matches(r, body@),
            Err(m) => r matches Err(FetchError::Transport(t)) && t@ == m@,
        },
{
    match transport {
        Ok(body) => decode_fact(body.as_str()),
        Err(m) => Err(FetchError::Transport(m)),
    }
}

/// The lines a joke outcome prints: setup then delivery, or the diagnostic.
pub fn render_joke(r: &Result<JokeRecord, FetchError>) -> (lines: Vec<String>)
    ensures
        match r {
            Ok(rec) => lines_view(lines@) =~= seq![rec.setup@, rec.delivery@],
            Err(e) => lines_view(lines@) =~= seq![spec_error_line(spec_message(*e))],
        },
{
    match r {
        Ok(rec) => {
            let out: Vec<String> = vec![rec.setup.clone(), rec.delivery.clone()];
            proof {
                assert(lines_view(out@) =~= seq![rec.setup@, rec.delivery@]);
            }
            out
        },
        Err(e) => {
            let out: Vec<String> = vec![error_line(e)];
            proof {
                assert(lines_view(out@) =~= seq![spec_error_line(spec_message(*e))]);
            }
            out
        },
    }
}

/// The line an activity outcome prints: the activity, or the diagnostic.
pub fn render_activity(r: &Result<ActivityRecord, FetchError>) -> (lines: Vec<String>)
    ensures
        match r {
            Ok(rec) => lines_view(lines@) =~= seq![rec.activity@],
            Err(e) => lines_view(lines@) =~= seq![spec_error_line(spec_message(*e))],
        },
{
    match r {
        Ok(rec) => {
            let out: Vec<String> = vec![rec.activity.clone()];
            proof {
                assert(lines_view(out@) =~= seq![rec.activity@]);
            }
            out
        },
        Err(e) => {
            let out: Vec<String> = vec![error_line(e)];
            proof {
                assert(lines_view(out@) =~= seq![spec_error_line(spec_message(*e))]);
            }
            out
        },
    }
}

/// The line a fact outcome prints: the fact, or the diagnostic.
pub fn render_fact(r: &Result<FactRecord, FetchError>) -> (lines: Vec<String>)
    ensures
        match r {
            Ok(rec) => lines_view(lines@) =~= seq![rec.value@],
            Err(e) => lines_view(lines@) =~= seq![spec_error_line(spec_message(*e))],
        },
{
    match r {
        Ok(rec) => {
            let out: Vec<String> = vec![rec.value.clone()];
            proof {
                assert(lines_view(out@) =~= seq![rec.value@]);
            }
            out
        },
        Err(e) => {
            let out: Vec<String> = vec![error_line(e)];
            proof {
                assert(lines_view(out@) =~= seq![spec_error_line(spec_message(*e))]);
            }
            out
        },
    }
}

/// Decode and render the outcome of one request: the loop prints exactly
/// these lines after the transport hands back `transport`.
pub fn step_response(req: Request, transport: Result<String, String>) -> (lines: Vec<String>)
    ensures
        lines_view(lines@) =~= spec_response_lines(req, transport_view(transport)),
{
    match req {
        Request::Joke => render_joke(&joke_outcome(transport)),
        Request::Activity => render_activity(&activity_outcome(transport)),
        Request::Fact => render_fact(&fact_outcome(transport)),
    }
}

/// What the loop does with one line of input, before any request is made.
pub struct InputStep {
    /// The outbound request to perform, if the choice asks for one.
    pub request: Option<Request>,
    /// The lines printed at once: the farewell on quit, the complaint on an
    /// unrecognized choice, nothing otherwise.
    pub lines: Vec<String>,
    /// Whether the loop terminates.
    pub done: bool,
}

/// The lines printed at once for a choice: the farewell on quit, the
/// complaint on an unrecognized choice, nothing otherwise.
pub open spec fn spec_input_lines(a: MenuAction) -> Seq<Seq<char>> {
    match a {
        MenuAction::Quit => seq!["Bye!"@],
        MenuAction::Invalid => seq!["Selected menu does not exist"@],
        _ => Seq::<Seq<char>>::empty(),
    }
}

/// Take one line of input: recognize the choice, and say which request to
/// make, what to print at once, and whether the loop ends. The loop ends
/// exactly on the quit choice, and only the three fetch choices ask for a
/// request.
pub fn step_input(line: &str) -> (r: InputStep)
    ensures
        r.request == spec_request_of(spec_choice(line@)),
        r.done == (spec_choice(line@) == MenuAction::Quit),
        lines_view(r.lines@) =~= spec_input_lines(spec_choice(line@)),
{
    match parse_choice(line) {
        MenuAction::FetchJoke => InputStep {
            request: Some(Request::Joke),
            lines: Vec::new(),
            done: false,
        },
        MenuAction::FetchActivity => InputStep {
            request: Some(Request::Activity),
            lines: Vec::new(),
            done: false,
        },
        MenuAction::FetchFact => InputStep {
            request: Some(Request::Fact),
            lines: Vec::new(),
            done: false,
        },
        MenuAction::Quit => {
            let out: Vec<String> = vec!["Bye!".to_owned()];
            proof {
                assert(lines_view(out@) =~= seq!["Bye!"@]);
            }
            InputStep { request: None, lines: out, done: true }
        },
        MenuAction::Invalid => {
            let out: Vec<String> = vec!["Selected menu does not exist".to_owned()];
            proof {
                assert(lines_view(out@) =~= seq!["Selected menu does not exist"@]);
            }
            InputStep { request: None, lines: out, done: false }
        },
    }
}

/// The menu banner, one line per entry.
pub fn menu_lines() -> (lines: Vec<String>)
    ensures
        lines_view(lines@) =~= seq![
            "Menu: "@,
            "1. Random daily joke"@,
            "2. Activity recommendation"@,
            "3. Chuck Norris Facts"@,
            "q: Quit"@,
        ],
{
    let out: Vec<String> = vec![
        "Menu: ".to_owned(),
        "1. Random daily joke".to_owned(),
        "2. Activity recommendation".to_owned(),
        "3. Chuck Norris Facts".to_owned(),
        "q: Quit".to_owned(),
    ];
    proof {
        assert(lines_view(out@) =~= seq![
            "Menu: "@,
            "1. Random daily joke"@,
            "2. Activity recommendation"@,
            "3. Chuck Norris Facts"@,
            "q: Quit"@,
        ]);
    }
    out
}

/// The fixed endpoint queried for a joke.
pub fn joke_endpoint() -> (r: String)
    ensures
        r@ == "https://v2.jokeapi.dev/joke/Any"@,
{
    "https://v2.jokeapi.dev/joke/Any".to_owned()
}

/// The fixed endpoint queried for an activity suggestion.
pub fn activity_endpoint() -> (r: String)
    ensures
        r@ == "https://bored-api.appbrewery.com/random"@,
{
    "https://bored-api.appbrewery.com/random".to_owned()
}

/// The fixed endpoint queried for a trivia fact.
pub fn fact_endpoint() -> (r: String)
    ensures
        r@ == "https://api.chucknorris.io/jokes/random"@,
{
    "https://api.chucknorris.io/jokes/random".to_owned()
}

/// A transport failure prints exactly one line, the diagnostic line carrying
/// the transport error's message, whatever was requested.
pub proof fn lemma_transport_failure_prints_one_line(req: Request, msg: Seq<char>)
    ensures
        spec_response_lines(req, Err(msg)).len() == 1,
        spec_response_lines(req, Err(msg))[0] == spec_error_line(msg),
{
}

/// A body that is not a well-formed JSON object prints exactly one line, the
/// diagnostic line carrying the decode message, whatever was requested.
pub proof fn lemma_malformed_body_prints_one_line(req: Request, body: Seq<char>)
    requires
        crate::json::json_top_strings(body) is None,
    ensures
        spec_response_lines(req, Ok(body)).len() == 1,
        spec_response_lines(req, Ok(body))[0] == spec_error_line(decode_msg()),
{
}

/// A choice that is not recognized asks for no request and does not end the
/// loop; only the quit choice ends it.
pub proof fn lemma_unrecognized_choice_is_inert(s: Seq<char>)
    ensures
        spec_choice(s) == MenuAction::Invalid ==> spec_request_of(spec_choice(s)) is None,
        spec_choice(s) == MenuAction::Invalid ==> spec_choice(s) != MenuAction::Quit,
        spec_request_of(MenuAction::Quit) is None,
{
}

/// The loop ends exactly on the inputs whose trimmed, case-folded text is the
/// quit token.
pub proof fn lemma_quit_inputs(s: Seq<char>)
    ensures
        (spec_choice(s) == MenuAction::Quit) == (spec_normalize(s) == seq!['q']),
{
    assert(seq!['1'][0] == '1' && seq!['2'][0] == '2' && seq!['3'][0] == '3' && seq!['q'][0]
        == 'q');
}

/// Which characters case fold onto each menu token: only `'q'` and `'Q'`
/// fold onto `'q'`, and each digit token only onto itself.
proof fn lemma_lower_of_token(c: char)
    ensures
        (ascii_lower(c) == '1') == (c == '1'),
        (ascii_lower(c) == '2') == (c == '2'),
        (ascii_lower(c) == '3') == (c == '3'),
        (ascii_lower(c) == 'q') == (c == 'q' || c == 'Q'),
{
    if 'A' <= c && c <= 'Z' {
        assert(65 <= c as u8 && c as u8 <= 90);
        let l = ((c as u8) + 32) as char;
        assert(97 <= l as u32 && l as u32 <= 122);
    }
}

} // verus!
