use explain::error::LookupError;
use explain::lookup::Reply;
use explain::pipeline::{begin, output, resume, wikipedia, Pending, Step, USAGE};
use explain::summary::WikipediaSummary;

const SEARCH_ADDRESS: &str = "https://en.wikipedia.org/w/api.php?action=query&list=search&srsearch=turing_machine&utf8=&format=json";
const SUMMARY_ADDRESS: &str = "https://en.wikipedia.org/api/rest_v1/page/summary/Turing_machine";
const SEARCH_BODY: &str = r#"{"query":{"search":[{"title":"Turing machine"}]}}"#;
const SUMMARY_BODY: &str = r#"{"description":"abstract machine","content_urls":{"desktop":{"page":"https://en.wikipedia.org/wiki/Turing_machine"}}}"#;
const SHOWN: &str = "\x1b[1m\x1b[4mTuring machine\x1b[0m: abstract machine \n\nhttps://en.wikipedia.org/wiki/Turing_machine";

fn query(list: &[&str]) -> Vec<String> {
    list.iter().map(|word| word.to_string()).collect()
}

fn ok(body: &str) -> Reply {
    Reply::Answer { status: 200, body: Some(body.as_bytes().to_vec()) }
}

/// Runs a lookup to its end, answering the requests from `replies` in turn,
/// and returns the addresses asked for and the text shown.
fn run(words: &[&str], more: bool, replies: &[Reply]) -> (Vec<String>, Option<String>) {
    let mut asked = Vec::new();
    let mut step = begin(&query(words), more);
    loop {
        step = match step {
            Step::Fetch { url, pending } => {
                let reply = &replies[asked.len()];
                asked.push(url);
                resume(pending, reply)
            }
            last => return (asked, output(&last)),
        };
    }
}

#[test]
fn no_words_ask_for_the_usage_message() {
    assert_eq!(begin(&query(&[]), false), Step::Usage);
    assert_eq!(begin(&query(&[]), true), Step::Usage);
    assert_eq!(output(&Step::Usage), Some(USAGE.to_string()));
    assert_eq!(USAGE, "Usage: explain <concept you want explained>");
}

#[test]
fn no_words_make_no_request() {
    let (asked, shown) = run(&[], false, &[]);
    assert!(asked.is_empty());
    assert_eq!(shown, Some("Usage: explain <concept you want explained>".to_string()));
}

#[test]
fn the_words_are_joined_once_for_the_search() {
    let expected = Step::Fetch {
        url: SEARCH_ADDRESS.to_string(),
        pending: Pending::Title { long_summary: false },
    };
    assert_eq!(begin(&query(&["turing", "machine"]), false), expected);
    assert_eq!(wikipedia("turing_machine", false), expected);
}

#[test]
fn one_word_is_searched_as_it_is() {
    let step = begin(&query(&["entropy"]), true);
    let expected = Step::Fetch {
        url: "https://en.wikipedia.org/w/api.php?action=query&list=search&srsearch=entropy&utf8=&format=json".to_string(),
        pending: Pending::Title { long_summary: true },
    };
    assert_eq!(step, expected);
}

#[test]
fn a_title_found_asks_for_its_summary() {
    let step = resume(Pending::Title { long_summary: true }, &ok(SEARCH_BODY));
    let expected = Step::Fetch {
        url: SUMMARY_ADDRESS.to_string(),
        pending: Pending::Summary { title: "Turing machine".to_string(), long_summary: true },
    };
    assert_eq!(step, expected);
    assert_eq!(output(&step), None);
}

#[test]
fn turing_machine_round_trip() {
    let (asked, shown) = run(&["turing", "machine"], false, &[ok(SEARCH_BODY), ok(SUMMARY_BODY)]);
    assert_eq!(asked, vec![SEARCH_ADDRESS.to_string(), SUMMARY_ADDRESS.to_string()]);
    let shown = shown.unwrap();
    assert!(shown.contains("Turing machine"));
    assert!(shown.contains("abstract machine"));
    assert!(shown.contains("https://en.wikipedia.org/wiki/Turing_machine"));
    assert_eq!(shown, SHOWN);
}

#[test]
fn the_round_trip_ends_in_the_summary() {
    let pending = Pending::Summary { title: "Turing machine".to_string(), long_summary: false };
    let expected = WikipediaSummary {
        title: "Turing machine".to_string(),
        summary: "abstract machine".to_string(),
        url: "https://en.wikipedia.org/wiki/Turing_machine".to_string(),
    };
    assert_eq!(resume(pending, &ok(SUMMARY_BODY)), Step::Done(Ok(expected)));
}

#[test]
fn the_long_form_of_the_round_trip_lacks_an_extract() {
    let (asked, shown) = run(&["turing", "machine"], true, &[ok(SEARCH_BODY), ok(SUMMARY_BODY)]);
    assert_eq!(asked.len(), 2);
    assert_eq!(shown, Some("Parse error, couldn't parse url.".to_string()));
}

#[test]
fn a_failed_search_makes_no_summary_request() {
    let unavailable = Reply::Answer { status: 503, body: Some(Vec::new()) };
    let step = resume(Pending::Title { long_summary: false }, &unavailable);
    assert_eq!(step, Step::Done(Err(LookupError::UnsuccessfulResponse)));
    let (asked, shown) = run(&["turing", "machine"], false, &[unavailable]);
    assert_eq!(asked, vec![SEARCH_ADDRESS.to_string()]);
    assert_eq!(shown, Some("Unsuccessful response.".to_string()));
}

#[test]
fn an_empty_result_list_ends_the_lookup() {
    let (asked, shown) = run(&["zzzz"], false, &[ok(r#"{"query":{"search":[]}}"#)]);
    assert_eq!(asked.len(), 1);
    assert_eq!(shown, Some("Article not found.".to_string()));
}

#[test]
fn a_search_that_cannot_be_sent_ends_the_lookup() {
    let (asked, shown) = run(&["turing"], false, &[Reply::Unreachable]);
    assert_eq!(asked.len(), 1);
    assert_eq!(shown, Some("Url error, can't reach the resource.".to_string()));
}

#[test]
fn a_failed_summary_request_shows_its_error() {
    let missing = Reply::Answer { status: 404, body: Some(b"{}".to_vec()) };
    let (asked, shown) = run(&["turing", "machine"], false, &[ok(SEARCH_BODY), missing]);
    assert_eq!(asked.len(), 2);
    assert_eq!(shown, Some("Unsuccessful response.".to_string()));
    let (_, shown) = run(&["turing", "machine"], false, &[ok(SEARCH_BODY), Reply::Unreachable]);
    assert_eq!(shown, Some("Url error, can't reach the resource.".to_string()));
    let (_, shown) = run(&["turing", "machine"], false, &[ok(SEARCH_BODY), ok("{}")]);
    assert_eq!(shown, Some("Parse error, couldn't parse url.".to_string()));
}

#[test]
fn the_same_replies_show_the_same_text() {
    let replies = [ok(SEARCH_BODY), ok(SUMMARY_BODY)];
    let first = run(&["turing", "machine"], false, &replies);
    let second = run(&["turing", "machine"], false, &replies);
    assert_eq!(first, second);
    assert_eq!(first.1.unwrap().into_bytes(), second.1.unwrap().into_bytes());
}

#[test]
fn each_word_of_a_title_gets_its_underscore() {
    let body = r#"{"query":{"search":[{"title":"Ada Lovelace Day 2020"}]}}"#;
    let step = resume(Pending::Title { long_summary: false }, &ok(body));
    let expected = Step::Fetch {
        url: "https://en.wikipedia.org/api/rest_v1/page/summary/Ada_Lovelace_Day_2020".to_string(),
        pending: Pending::Summary {
            title: "Ada Lovelace Day 2020".to_string(),
            long_summary: false,
        },
    };
    assert_eq!(step, expected);
}

#[test]
fn a_finished_step_shows_its_outcome() {
    let failed = Step::Done(Err(LookupError::ArticleNotFound));
    assert_eq!(output(&failed), Some("Article not found.".to_string()));
    let made = Step::Done(Ok(WikipediaSummary {
        title: "T".to_string(),
        summary: "s".to_string(),
        url: "u".to_string(),
    }));
    assert_eq!(output(&made), Some("\x1b[1m\x1b[4mT\x1b[0m: s \n\nu".to_string()));
}
