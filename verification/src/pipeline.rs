//! The lookup as a sequence of steps.
//!
//! The library decides and the caller acts: [`begin`] says what to do first,
//! and each reply the caller hands to [`resume`] yields the next step, until
//! a step has something to show.

use crate::error::LookupError;
use crate::lookup::{
    get_wikipedia_summary, get_wikipedia_title, summary_of, summary_view, title_of, Reply,
    ReplyView,
};
use crate::summary::{SummaryView, WikipediaSummary};
use crate::text::{
    join_words, joined, search_address, search_url, summary_address, summary_url, word_chars,
};
use vstd::prelude::*;

verus! {

/// Shown when no query was given.
pub const USAGE: &'static str = "Usage: explain <concept you want explained>";

/// What a request that is under way was sent for.
#[derive(Debug, PartialEq, Eq)]
pub enum Pending {
    /// The search for the best-matching title.
    Title { long_summary: bool },
    /// The summary of the article `title`.
    Summary { title: String, long_summary: bool },
}

/// The characters of a [`Pending`].
pub enum PendingView {
    Title { long_summary: bool },
    Summary { title: Seq<char>, long_summary: bool },
}

impl View for Pending {
    type V = PendingView;

    open spec fn view(&self) -> PendingView {
        match *self {
            Pending::Title { long_summary } => PendingView::Title { long_summary },
            Pending::Summary { title, long_summary } => PendingView::Summary {
                title: title@,
                long_summary,
            },
        }
    }
}

/// What the caller is to do next.
#[derive(Debug, PartialEq, Eq)]
pub enum Step {
    /// Show the usage message: there is nothing to look up.
    Usage,
    /// Send a GET request to `url` and hand the reply to [`resume`] together
    /// with `pending`.
    Fetch { url: String, pending: Pending },
    /// The lookup is over: show the summary or the error.
    Done(Result<WikipediaSummary, LookupError>),
}

/// The characters of a [`Step`].
pub enum StepView {
    Usage,
    Fetch { url: Seq<char>, pending: PendingView },
    Done(Result<SummaryView, LookupError>),
}

impl View for Step {
    type V = StepView;

    open spec fn view(&self) -> StepView {
        match *self {
            Step::Usage => StepView::Usage,
            Step::Fetch { url, pending } => StepView::Fetch { url: url@, pending: pending@ },
            Step::Done(outcome) => StepView::Done(summary_view(outcome)),
        }
    }
}

/// The first step of the lookup of a query: the search request.
pub open spec fn search_step(query: Seq<char>, long_summary: bool) -> StepView {
    StepView::Fetch {
        url: search_address(query),
        pending: PendingView::Title { long_summary },
    }
}

/// The first step for the words of a command line: the usage message for no
/// words, else the search for the words joined by underscores.
pub open spec fn first_step(words: Seq<Seq<char>>, more: bool) -> StepView {
    if words.len() == 0 {
        StepView::Usage
    } else {
        search_step(joined(words), more)
    }
}

/// The step that follows a reply. A title found leads to the summary
/// request; a summary, or an error at either request, ends the lookup.
pub open spec fn next_step(pending: PendingView, reply: ReplyView) -> StepView {
    match pending {
        PendingView::Title { long_summary } => match title_of(reply) {
            Ok(title) => StepView::Fetch {
                url: summary_address(title),
                pending: PendingView::Summary { title, long_summary },
            },
            Err(error) => StepView::Done(Err(error)),
        },
        PendingView::Summary { title, long_summary } => StepView::Done(
            summary_of(title, long_summary, reply),
        ),
    }
}

/// What a step puts on the screen, if anything.
pub open spec fn shown(step: StepView) -> Option<Seq<char>> {
    match step {
        StepView::Usage => Some(USAGE@),
        StepView::Fetch { .. } => None,
        StepView::Done(Ok(summary)) => Some(summary.rendered()),
        StepView::Done(Err(error)) => Some(error.message_text()),
    }
}

/// The step reached from `step` once the request it makes, if it makes one,
/// is answered by `reply`.
pub open spec fn answered(step: StepView, reply: ReplyView) -> StepView {
    match step {
        StepView::Fetch { pending, .. } => next_step(pending, reply),
        _ => step,
    }
}

/// The last step of a whole lookup in which the search request is answered
/// by `search` and the summary request, if it is made, by `summary`.
pub open spec fn last_step(
    words: Seq<Seq<char>>,
    more: bool,
    search: ReplyView,
    summary: ReplyView,
) -> StepView {
    answered(answered(first_step(words, more), search), summary)
}

/// For one word or more the first step is the search request, and what it
/// sends as the search parameter is the words joined by underscores, between
/// the fixed parts of the address.
pub proof fn lemma_search_sends_the_joined_words(words: Seq<Seq<char>>, more: bool)
    requires
        words.len() > 0,
    ensures
        first_step(words, more) == (StepView::Fetch {
            url: crate::text::SEARCH_PREFIX@ + joined(words) + crate::text::SEARCH_SUFFIX@,
            pending: PendingView::Title { long_summary: more },
        }),
{
}

/// A search that fails ends the lookup with its error: no summary request
/// follows. So it is for a status outside the success range, which gives
/// `UnsuccessfulResponse`.
pub proof fn lemma_failed_search_ends_the_lookup(long_summary: bool, reply: ReplyView)
    ensures
        title_of(reply) matches Err(error) ==> next_step(
            PendingView::Title { long_summary },
            reply,
        ) == StepView::Done(Err(error)),
        reply matches ReplyView::Answer { status, .. } && !crate::lookup::is_success_code(status)
            ==> next_step(PendingView::Title { long_summary }, reply) == StepView::Done(
            Err(LookupError::UnsuccessfulResponse),
        ),
        next_step(PendingView::Title { long_summary }, reply) is Fetch <==> title_of(reply) is Ok,
{
}

/// A title found leads to the summary request for that title: the address
/// ends in the normalized title, and the title itself is kept as found.
pub proof fn lemma_title_leads_to_summary(long_summary: bool, reply: ReplyView, title: Seq<char>)
    requires
        title_of(reply) == Ok::<Seq<char>, LookupError>(title),
    ensures
        next_step(PendingView::Title { long_summary }, reply) == (StepView::Fetch {
            url: crate::text::SUMMARY_PREFIX@ + crate::text::underscored(title),
            pending: PendingView::Summary { title, long_summary },
        }),
{
}

/// A lookup makes two requests at most, and its last step shows something:
/// the usage message, the summary, or one error message.
pub proof fn lemma_lookup_ends(
    words: Seq<Seq<char>>,
    more: bool,
    search: ReplyView,
    summary: ReplyView,
)
    ensures
        !(last_step(words, more, search, summary) is Fetch),
        shown(last_step(words, more, search, summary)) is Some,
        words.len() == 0 ==> shown(last_step(words, more, search, summary)) == Some(USAGE@),
{
}

/// What a lookup shows depends on nothing but the words, the flag and the
/// content of the two replies: a second run on the same content shows the
/// same text.
pub proof fn lemma_same_replies_same_output(
    words: Seq<Seq<char>>,
    more: bool,
    search: Reply,
    summary: Reply,
    search_again: Reply,
    summary_again: Reply,
)
    requires
        search@ == search_again@,
        summary@ == summary_again@,
    ensures
        shown(last_step(words, more, search@, summary@)) == shown(
            last_step(words, more, search_again@, summary_again@),
        ),
{
}

/// Starts the lookup of a query.
pub fn wikipedia(query: &str, long_summary: bool) -> (step: Step)
    ensures
        step@ == search_step(query@, long_summary),
{
    Step::Fetch { url: search_url(query), pending: Pending::Title { long_summary } }
}

/// Decides what to do with the words of a command line.
pub fn begin(words: &Vec<String>, more: bool) -> (step: Step)
    ensures
        step@ == first_step(word_chars(words@), more),
{
    if words.len() == 0 {
        Step::Usage
    } else {
        let query = join_words(words);
        wikipedia(query.as_str(), more)
    }
}

/// Takes the reply to the request that `pending` stands for and decides
/// what follows.
pub fn resume(pending: Pending, reply: &Reply) -> (step: Step)
    ensures
        step@ == next_step(pending@, reply@),
{
    match pending {
        Pending::Title { long_summary } => match get_wikipedia_title(reply) {
            Ok(title) => {
                let url = summary_url(title.as_str());
                Step::Fetch { url, pending: Pending::Summary { title, long_summary } }
            },
            Err(error) => Step::Done(Err(error)),
        },
        Pending::Summary { title, long_summary } => Step::Done(
            get_wikipedia_summary(title.as_str(), long_summary, reply),
        ),
    }
}

/// The text to print for a step: the usage message, the summary or the
/// error's message. A request to send prints nothing.
pub fn output(step: &Step) -> (text: Option<String>)
    ensures
        match text {
            Some(line) => shown(step@) == Some(line@),
            None => shown(step@) is None,
        },
{
    match step {
        Step::Usage => Some(USAGE.to_owned()),
        Step::Fetch { .. } => None,
        Step::Done(Ok(summary)) => Some(summary.render()),
        Step::Done(Err(error)) => Some(error.message()),
    }
}

} // verus!
