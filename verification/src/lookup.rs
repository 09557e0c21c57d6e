//! Reading the two replies: the search reply names an article, the summary
//! reply describes it.

use crate::error::LookupError;
use crate::json::{document, element, member, parse, parsed, Json};
use crate::summary::{SummaryView, WikipediaSummary};
use vstd::prelude::*;

verus! {

/// What came back for one request.
#[derive(Debug, PartialEq, Eq)]
pub enum Reply {
    /// The request could not be sent, or no reply came.
    Unreachable,
    /// The server answered with this status code. `body` holds the bytes of
    /// the reply's body, or `None` where they could not be read to the end.
    Answer { status: u16, body: Option<Vec<u8>> },
}

/// The content of a [`Reply`].
pub enum ReplyView {
    Unreachable,
    Answer { status: u16, body: Option<Seq<u8>> },
}

impl View for Reply {
    type V = ReplyView;

    open spec fn view(&self) -> ReplyView {
        match *self {
            Reply::Unreachable => ReplyView::Unreachable,
            Reply::Answer { status, body } => ReplyView::Answer {
                status,
                body: match body {
                    Some(bytes) => Some(bytes@),
                    None => None,
                },
            },
        }
    }
}

/// A status code in the success range, 200 to 299.
pub open spec fn is_success_code(status: u16) -> bool {
    200 <= status < 300
}

/// Tells whether a status code is in the success range.
pub fn is_success(status: u16) -> (yes: bool)
    ensures
        yes == is_success_code(status),
{
    200 <= status && status < 300
}

/// The document that a reply carries. A reply that never came is a
/// `UrlError`, a status outside the success range an `UnsuccessfulResponse`,
/// and a body that could not be read or is not JSON a `UrlError` again. The
/// status is looked at before the body.
pub open spec fn document_of(reply: ReplyView) -> Result<Json, LookupError> {
    match reply {
        ReplyView::Unreachable => Err(LookupError::UrlError),
        ReplyView::Answer { status, body } => if !is_success_code(status) {
            Err(LookupError::UnsuccessfulResponse)
        } else {
            match body {
                Some(bytes) => match parsed(bytes) {
                    Some(doc) => Ok(doc),
                    None => Err(LookupError::UrlError),
                },
                None => Err(LookupError::UrlError),
            }
        },
    }
}

/// Checks a reply's status and reads its body as JSON.
pub fn read_reply(reply: &Reply) -> (outcome: Result<serde_json::Value, LookupError>)
    ensures
        match outcome {
            Ok(value) => document_of(reply@) == Ok::<Json, LookupError>(document(value)),
            Err(error) => document_of(reply@) == Err::<Json, LookupError>(error),
        },
{
    match reply {
        Reply::Unreachable => Err(LookupError::UrlError),
        Reply::Answer { status, body } => {
            if !is_success(*status) {
                return Err(LookupError::UnsuccessfulResponse);
            }
            match body {
                Some(bytes) => match parse(bytes.as_slice()) {
                    Ok(value) => Ok(value),
                    Err(error) => Err(LookupError::from(error)),
                },
                None => Err(LookupError::UrlError),
            }
        },
    }
}

/// The characters of a text or the error in its place.
pub open spec fn text_view(outcome: Result<String, LookupError>) -> Result<Seq<char>, LookupError> {
    match outcome {
        Ok(text) => Ok(text@),
        Err(error) => Err(error),
    }
}

/// The characters of a summary or the error in its place.
pub open spec fn summary_view(outcome: Result<WikipediaSummary, LookupError>) -> Result<
    SummaryView,
    LookupError,
> {
    match outcome {
        Ok(summary) => Ok(summary@),
        Err(error) => Err(error),
    }
}

/// The title of the first search result in a search document, at
/// `query.search[0].title`. Anything but a string there is `ArticleNotFound`.
pub open spec fn title_in(doc: Json) -> Result<Seq<char>, LookupError> {
    match doc.member("query"@).member("search"@).element(0).member("title"@).text() {
        Some(title) => Ok(title),
        None => Err(LookupError::ArticleNotFound),
    }
}

/// Extracts the title of the first search result from a search document.
pub fn first_title(doc: &serde_json::Value) -> (found: Result<String, LookupError>)
    ensures
        text_view(found) == title_in(document(*doc)),
{
    let hit = member(element(member(member(doc, "query"), "search"), 0), "title");
    match hit.as_str() {
        Some(title) => Ok(title.to_owned()),
        None => Err(LookupError::ArticleNotFound),
    }
}

/// A search document names no article where its result list is empty, where
/// it has no result list, or where the first result has no title.
pub proof fn lemma_no_title(doc: Json)
    requires
        ({
            let results = doc.member("query"@).member("search"@);
            ||| results == Json::List(Seq::empty())
            ||| !(results is List)
            ||| !(results.element(0).member("title"@) is Text)
        }),
    ensures
        title_in(doc) == Err::<Seq<char>, LookupError>(LookupError::ArticleNotFound),
{
}

/// A search document whose first result has a title resolves to that title,
/// unchanged.
pub proof fn lemma_first_title(doc: Json, title: Seq<char>)
    requires
        doc.member("query"@).member("search"@).element(0).member("title"@) == Json::Text(title),
    ensures
        title_in(doc) == Ok::<Seq<char>, LookupError>(title),
{
}

/// The title that a search reply resolves to.
pub open spec fn title_of(reply: ReplyView) -> Result<Seq<char>, LookupError> {
    match document_of(reply) {
        Ok(doc) => title_in(doc),
        Err(error) => Err(error),
    }
}

/// Resolves the reply to a search request to the title of the best match.
pub fn get_wikipedia_title(reply: &Reply) -> (found: Result<String, LookupError>)
    ensures
        text_view(found) == title_of(reply@),
{
    match read_reply(reply) {
        Ok(doc) => first_title(&doc),
        Err(error) => Err(error),
    }
}

/// The member of a summary document that the summary text is taken from:
/// `extract` for the long form or where `description` is null or missing,
/// else `description`.
pub open spec fn summary_source(doc: Json, long_summary: bool) -> Json {
    if long_summary || doc.member("description"@) is Null {
        doc.member("extract"@)
    } else {
        doc.member("description"@)
    }
}

/// The address of the article's page in a summary document, at
/// `content_urls.desktop.page`.
pub open spec fn page_source(doc: Json) -> Json {
    doc.member("content_urls"@).member("desktop"@).member("page"@)
}

/// The summary that a summary document yields for `title`. It is a
/// `ParseError` unless both the chosen text and the page address are strings.
pub open spec fn summary_in(title: Seq<char>, long_summary: bool, doc: Json) -> Result<
    SummaryView,
    LookupError,
> {
    match (summary_source(doc, long_summary).text(), page_source(doc).text()) {
        (Some(summary), Some(url)) => Ok(SummaryView { title, summary, url }),
        _ => Err(LookupError::ParseError),
    }
}

/// With a description that is a string and the short form asked for, a
/// summary that is made holds the description, whatever the extract is; it
/// is made exactly when the page address is a string.
pub proof fn lemma_short_form_takes_description(title: Seq<char>, doc: Json, description: Seq<char>)
    requires
        doc.member("description"@) == Json::Text(description),
    ensures
        summary_in(title, false, doc) is Ok <==> page_source(doc) is Text,
        summary_in(title, false, doc) matches Ok(made) ==> made.summary == description
            && made.title == title && Json::Text(made.url) == page_source(doc),
{
}

/// With the long form asked for, or a description that is null or missing,
/// a summary that is made holds the extract; it is made exactly when the
/// extract and the page address are strings.
pub proof fn lemma_extract_is_the_fallback(title: Seq<char>, long_summary: bool, doc: Json)
    requires
        long_summary || doc.member("description"@) is Null,
    ensures
        summary_in(title, long_summary, doc) is Ok <==> doc.member("extract"@) is Text
            && page_source(doc) is Text,
        summary_in(title, long_summary, doc) matches Ok(made) ==> Json::Text(made.summary)
            == doc.member("extract"@) && made.title == title && Json::Text(made.url)
            == page_source(doc),
{
}

/// With neither a description nor an extract there is no summary, in either
/// form: the outcome is a `ParseError`.
pub proof fn lemma_no_text_is_a_parse_error(title: Seq<char>, long_summary: bool, doc: Json)
    requires
        doc.member("description"@) is Null,
        doc.member("extract"@) is Null,
    ensures
        summary_in(title, long_summary, doc) == Err::<SummaryView, LookupError>(
            LookupError::ParseError,
        ),
{
}

/// Without a page address that is a string there is no summary.
pub proof fn lemma_no_page_is_a_parse_error(title: Seq<char>, long_summary: bool, doc: Json)
    requires
        !(page_source(doc) is Text),
    ensures
        summary_in(title, long_summary, doc) == Err::<SummaryView, LookupError>(
            LookupError::ParseError,
        ),
{
}

/// A summary is made whole or not at all: it has the title it was asked
/// for, and where the title, the chosen text and the page address are not
/// empty, none of its three fields is.
pub proof fn lemma_summary_is_whole(title: Seq<char>, long_summary: bool, doc: Json)
    requires
        summary_in(title, long_summary, doc) is Ok,
    ensures
        summary_in(title, long_summary, doc) matches Ok(made) && made.title == title && Json::Text(
            made.summary,
        ) == summary_source(doc, long_summary) && Json::Text(made.url) == page_source(doc) && (
        made.filled() <==> title.len() > 0 && summary_source(doc, long_summary)->Text_0.len() > 0
            && page_source(doc)->Text_0.len() > 0),
{
}

/// Builds the summary of the article `title` from its summary document.
pub fn summary_from(title: &str, long_summary: bool, doc: &serde_json::Value) -> (made: Result<
    WikipediaSummary,
    LookupError,
>)
    ensures
        summary_view(made) == summary_in(title@, long_summary, document(*doc)),
{
    let description = member(doc, "description");
    let source = if long_summary || description.is_null() {
        member(doc, "extract")
    } else {
        description
    };
    let summary = match source.as_str() {
        Some(text) => text.to_owned(),
        None => { return Err(LookupError::ParseError); },
    };
    let page = member(member(member(doc, "content_urls"), "desktop"), "page");
    let url = match page.as_str() {
        Some(text) => text.to_owned(),
        None => { return Err(LookupError::ParseError); },
    };
    Ok(WikipediaSummary { title: title.to_owned(), summary, url })
}

/// The summary that a summary reply yields for `title`.
pub open spec fn summary_of(title: Seq<char>, long_summary: bool, reply: ReplyView) -> Result<
    SummaryView,
    LookupError,
> {
    match document_of(reply) {
        Ok(doc) => summary_in(title, long_summary, doc),
        Err(error) => Err(error),
    }
}

/// A reply is read the same way for both requests: one that never came is
/// a `UrlError`, a status outside the success range an
/// `UnsuccessfulResponse` whatever the body holds, and a body that could not
/// be read or is not JSON a `UrlError`. An error in reading the reply is the
/// outcome of the request; a search never ends in a `ParseError`, a summary
/// request never in `ArticleNotFound`.
pub proof fn lemma_reply_errors(title: Seq<char>, long_summary: bool, reply: ReplyView)
    ensures
        reply is Unreachable ==> document_of(reply) == Err::<Json, LookupError>(
            LookupError::UrlError,
        ),
        reply matches ReplyView::Answer { status, .. } && !is_success_code(status) ==> document_of(
            reply,
        ) == Err::<Json, LookupError>(LookupError::UnsuccessfulResponse),
        document_of(reply) matches Err(error) ==> title_of(reply) == Err::<
            Seq<char>,
            LookupError,
        >(error) && summary_of(title, long_summary, reply) == Err::<SummaryView, LookupError>(
            error,
        ),
        title_of(reply) matches Err(error) ==> error != LookupError::ParseError,
        summary_of(title, long_summary, reply) matches Err(error) ==> error
            != LookupError::ArticleNotFound,
{
}

/// Turns the reply to a summary request for `title` into the summary shown.
pub fn get_wikipedia_summary(title: &str, long_summary: bool, reply: &Reply) -> (made: Result<
    WikipediaSummary,
    LookupError,
>)
    ensures
        summary_view(made) == summary_of(title@, long_summary, reply@),
{
    match read_reply(reply) {
        Ok(doc) => summary_from(title, long_summary, &doc),
        Err(error) => Err(error),
    }
}

} // verus!
