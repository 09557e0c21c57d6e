//! The texts that the library builds: the query, the normalized title, and
//! the addresses of the two requests.

use std::string::String;
use vstd::prelude::*;
use vstd::string::StringExecFns;

verus! {

/// Where search requests go; the query follows.
pub const SEARCH_PREFIX: &'static str =
    "https://en.wikipedia.org/w/api.php?action=query&list=search&srsearch=";

/// What follows the query in a search request.
pub const SEARCH_SUFFIX: &'static str = "&utf8=&format=json";

/// Where summary requests go; the normalized title follows.
pub const SUMMARY_PREFIX: &'static str = "https://en.wikipedia.org/api/rest_v1/page/summary/";

/// `String::push`. Trusted: it appends the character to the end of the text.
pub assume_specification[ String::push ](text: &mut String, c: char)
    ensures
        final(text)@ == old(text)@.push(c),
;

/// The characters of each word.
pub open spec fn word_chars(words: Seq<String>) -> Seq<Seq<char>> {
    words.map_values(|word: String| word@)
}

/// The words with one underscore between each two neighbours.
pub open spec fn joined(words: Seq<Seq<char>>) -> Seq<char>
    decreases words.len(),
{
    if words.len() == 0 {
        Seq::empty()
    } else if words.len() == 1 {
        words[0]
    } else {
        joined(words.drop_last()) + seq!['_'] + words.last()
    }
}

/// Joins the words of a query with underscores.
pub fn join_words(words: &Vec<String>) -> (query: String)
    ensures
        query@ == joined(word_chars(words@)),
{
    let mut query = String::new();
    let mut done: usize = 0;
    while done < words.len()
        invariant
            done <= words.len(),
            query@ == joined(word_chars(words@).take(done as int)),
        decreases words.len() - done,
    {
        if done > 0 {
            query.push('_');
        }
        query.append(words[done].as_str());
        proof {
            let all = word_chars(words@);
            assert(all.take(done + 1).drop_last() == all.take(done as int));
            assert(all.take(done + 1).last() == words[done as int]@);
        }
        done += 1;
    }
    proof {
        let all = word_chars(words@);
        assert(all.take(done as int) == all);
    }
    query
}

/// The number of characters in all the words together.
pub open spec fn total_len(words: Seq<Seq<char>>) -> nat
    decreases words.len(),
{
    if words.len() == 0 {
        0
    } else {
        total_len(words.drop_last()) + words.last().len()
    }
}

/// A single word is its own query.
pub proof fn lemma_joined_single(word: Seq<char>)
    ensures
        joined(seq![word]) == word,
{
}

/// Joining puts in exactly one character for each two neighbouring words:
/// the query is as long as the words together and one more for every word
/// after the first.
pub proof fn lemma_joined_len(words: Seq<Seq<char>>)
    requires
        words.len() > 0,
    ensures
        joined(words).len() == total_len(words) + words.len() - 1,
    decreases words.len(),
{
    if words.len() == 1 {
        assert(total_len(words.drop_last()) == 0);
    } else {
        lemma_joined_len(words.drop_last());
    }
}

/// Joining two runs of words and putting one underscore between the two
/// queries gives the query of all the words in a row.
pub proof fn lemma_joined_concat(front: Seq<Seq<char>>, back: Seq<Seq<char>>)
    requires
        front.len() > 0,
        back.len() > 0,
    ensures
        joined(front + back) == joined(front) + seq!['_'] + joined(back),
    decreases back.len(),
{
    let all = front + back;
    assert(all.last() == back.last());
    if back.len() == 1 {
        assert(all.drop_last() == front);
    } else {
        assert(all.drop_last() == front + back.drop_last());
        lemma_joined_concat(front, back.drop_last());
        assert(joined(all) == (joined(front) + seq!['_'] + joined(back.drop_last())) + seq!['_']
            + back.last());
    }
}

/// The title with each space turned into an underscore.
pub open spec fn underscored(title: Seq<char>) -> Seq<char> {
    title.map_values(|c: char| if c == ' ' { '_' } else { c })
}

/// Normalizes a title for the summary address: every space becomes an
/// underscore, every other character stays.
pub fn underscore_title(title: &str) -> (normal: String)
    ensures
        normal@ == underscored(title@),
{
    let mut normal = String::new();
    for c in it: title.chars()
        invariant
            it.seq() == title@,
            normal@ == underscored(title@.take(it.index() as int)),
    {
        proof {
            let read = it.index() as int;
            assert(title@.take(read + 1) == title@.take(read).push(title@[read]));
        }
        if c == ' ' {
            normal.push('_');
        } else {
            normal.push(c);
        }
    }
    proof {
        assert(title@.take(title@.len() as int) == title@);
    }
    normal
}

/// Normalizing keeps the length, turns every space into an underscore and
/// leaves every other character where and what it was; no space is left,
/// and normalizing again changes nothing.
pub proof fn lemma_underscored(title: Seq<char>)
    ensures
        underscored(title).len() == title.len(),
        forall|at: int|
            0 <= at < title.len() ==> #[trigger] underscored(title)[at] == if title[at] == ' ' {
                '_'
            } else {
                title[at]
            },
        !underscored(title).contains(' '),
        underscored(underscored(title)) == underscored(title),
{
}

/// The address of the search request for a query.
pub open spec fn search_address(query: Seq<char>) -> Seq<char> {
    SEARCH_PREFIX@ + query + SEARCH_SUFFIX@
}

/// Builds the address of the search request: the query goes in as it is.
pub fn search_url(query: &str) -> (url: String)
    ensures
        url@ == search_address(query@),
{
    let mut url = String::from_str(SEARCH_PREFIX);
    url.append(query);
    url.append(SEARCH_SUFFIX);
    url
}

/// The address of the summary request for a title.
pub open spec fn summary_address(title: Seq<char>) -> Seq<char> {
    SUMMARY_PREFIX@ + underscored(title)
}

/// Builds the address of the summary request: the normalized title is the
/// last path segment.
pub fn summary_url(title: &str) -> (url: String)
    ensures
        url@ == summary_address(title@),
{
    let mut url = String::from_str(SUMMARY_PREFIX);
    let normal = underscore_title(title);
    url.append(normal.as_str());
    url
}

} // verus!
