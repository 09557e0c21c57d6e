//! What a successful lookup yields, and how it is shown.

use vstd::prelude::*;
use vstd::string::StringExecFns;

verus! {

/// An article as it is presented: its title, the text chosen to describe it,
/// and the address of its page.
#[derive(Debug, PartialEq, Eq)]
pub struct WikipediaSummary {
    pub title: String,
    pub summary: String,
    pub url: String,
}

/// The characters of a [`WikipediaSummary`].
pub struct SummaryView {
    pub title: Seq<char>,
    pub summary: Seq<char>,
    pub url: Seq<char>,
}

impl View for WikipediaSummary {
    type V = SummaryView;

    open spec fn view(&self) -> SummaryView {
        SummaryView { title: self.title@, summary: self.summary@, url: self.url@ }
    }
}

impl SummaryView {
    /// None of the three fields is empty.
    pub open spec fn filled(self) -> bool {
        self.title.len() > 0 && self.summary.len() > 0 && self.url.len() > 0
    }

    /// The presented form: the title in bold and underlined, a colon, the
    /// summary, an empty line, the address.
    pub open spec fn rendered(self) -> Seq<char> {
        "\x1b[1m\x1b[4m"@ + self.title + "\x1b[0m: "@ + self.summary + " \n\n"@ + self.url
    }
}

impl WikipediaSummary {
    /// Formats the summary for a terminal.
    pub fn render(&self) -> (shown: String)
        ensures
            shown@ == self@.rendered(),
    {
        let mut shown = String::from_str("\x1b[1m\x1b[4m");
        shown.append(self.title.as_str());
        shown.append("\x1b[0m: ");
        shown.append(self.summary.as_str());
        shown.append(" \n\n");
        shown.append(self.url.as_str());
        shown
    }
}

} // verus!
