//! Release discovery: the versions that the release index page lists, and
//! the latest of them.

use crate::version::{at_most, lemma_view_determines, parse_spec, Version};
use scraper::error::SelectorErrorKind;
use scraper::{Html, Selector};
use vstd::prelude::*;

verus! {

/// The address of the release index page.
pub const RELEASES: &'static str = "https://www.thunderbird.net/en-US/thunderbird/releases/";

/// The selector of the anchors whose text is a version.
pub const VERSION_SELECTOR: &'static str = "a.inline-link";

/// What `Selector::parse` fails with.
#[verifier::external_type_specification]
#[verifier::external_body]
pub struct ExSelectorErrorKind<'a>(SelectorErrorKind<'a>);

/// For a page and a selector that parses: one item for each element of the
/// page that the selector matches, in the order in which the page's tree
/// yields them. The item is the element's first text, where it has any.
/// Nothing for a selector that does not parse.
pub uninterp spec fn selected_texts(page: Seq<char>, selector: Seq<char>) -> Option<
    Seq<Option<Seq<char>>>,
>;

/// The text that an item holds, as characters.
pub open spec fn text_of(item: Option<String>) -> Option<Seq<char>> {
    match item {
        Some(text) => Some(text@),
        None => None,
    }
}

/// The version that an item of the page writes, if it writes one.
pub open spec fn candidate(item: Option<Seq<char>>) -> Option<(int, int, int)> {
    match item {
        Some(text) => parse_spec(text),
        None => None,
    }
}

/// No item writes a version.
pub open spec fn no_candidate(items: Seq<Option<Seq<char>>>) -> bool {
    forall|i: int| 0 <= i < items.len() ==> candidate(#[trigger] items[i]) is None
}

/// Some item writes `v`, and no item writes a later version.
pub open spec fn is_latest(items: Seq<Option<Seq<char>>>, v: (int, int, int)) -> bool {
    &&& exists|i: int| 0 <= i < items.len() && candidate(#[trigger] items[i]) == Some(v)
    &&& forall|j: int|
        0 <= j < items.len() && candidate(#[trigger] items[j]) is Some ==> at_most(
            candidate(items[j])->0,
            v,
        )
}

/// What discovery gives for the items of a page: the latest version that
/// they write, or nothing where none writes one.
pub open spec fn found_latest(items: Seq<Option<Seq<char>>>, found: Option<Version>) -> bool {
    match found {
        Some(v) => is_latest(items, v@),
        None => no_candidate(items),
    }
}

/// Parses the selector with `Selector::parse` and the page with
/// `Html::parse_fragment`, which takes any text, walks the matches of
/// `Html::select`, and takes of each the first item of `ElementRef::text`,
/// its first text in document order. Fails only where the selector does not
/// parse. What it gives depends on the page and the selector alone.
#[verifier::external_body]
fn select_texts<'a>(page: &str, selector: &'a str) -> (r: Result<
    Vec<Option<String>>,
    SelectorErrorKind<'a>,
>)
    ensures
        match r {
            Ok(items) => {
                &&& selected_texts(page@, selector@) matches Some(listed)
                &&& listed.len() == items@.len()
                &&& forall|i: int|
                    0 <= i < items@.len() ==> text_of(#[trigger] items@[i]) == listed[i]
            },
            Err(_) => selected_texts(page@, selector@) is None,
        },
{
    let selector = Selector::parse(selector)?;
    let fragment = Html::parse_fragment(page);
    let mut items = Vec::new();
    for element in fragment.select(&selector) {
        items.push(element.text().next().map(String::from));
    }
    Ok(items)
}

/// The latest version among the items of a page. Items without text, and
/// texts that write no version, are passed over.
pub fn latest_of(items: &Vec<Option<String>>) -> (found: Option<Version>)
    ensures
        found_latest(Seq::new(items@.len(), |i: int| text_of(items@[i])), found),
{
    let ghost texts = Seq::new(items@.len(), |i: int| text_of(items@[i]));
    let n = items.len();
    let mut best: Option<Version> = None;
    let mut i: usize = 0;
    while i < n
        invariant
            n == items@.len(),
            i <= n,
            texts == Seq::new(items@.len(), |i: int| text_of(items@[i])),
            found_latest(texts.take(i as int), best),
        decreases n - i,
    {
        let ghost before = texts.take(i as int);
        let ghost after = texts.take(i + 1);
        let parsed = match &items[i] {
            Some(text) => Version::from_str(text.as_str()),
            None => None,
        };
        match parsed {
            Some(version) => {
                let newer = match best {
                    Some(current) => current < version,
                    None => true,
                };
                if newer {
                    best = Some(version);
                }
            },
            None => {},
        }
        proof {
            if let Some(v) = best {
                let w = if parsed is Some && best == parsed {
                    i as int
                } else {
                    choose|k: int|
                        0 <= k < before.len() && candidate(#[trigger] before[k]) == Some(v@)
                };
                assert(candidate(after[w]) == Some(v@));
            }
        }
        i += 1;
    }
    proof {
        assert(texts.take(n as int) =~= texts);
    }
    best
}

/// What discovery gives for a page: the latest version among the texts of
/// the anchors that `VERSION_SELECTOR` matches, or nothing where none of
/// them writes a version.
pub open spec fn lists_latest(page: Seq<char>, found: Option<Version>) -> bool {
    match selected_texts(page, VERSION_SELECTOR@) {
        Some(listed) => found_latest(listed, found),
        None => found is None,
    }
}

/// The latest version that the release index page lists: of the anchors
/// that `VERSION_SELECTOR` matches, those whose text writes a version, and
/// of these the latest. Nothing where no anchor writes a version.
pub fn latest_release(page: &str) -> (found: Option<Version>)
    ensures
        lists_latest(page@, found),
{
    match select_texts(page, VERSION_SELECTOR) {
        Ok(items) => {
            proof {
                let listed = selected_texts(page@, VERSION_SELECTOR@)->0;
                assert(Seq::new(items@.len(), |i: int| text_of(items@[i])) =~= listed);
            }
            latest_of(&items)
        },
        Err(_) => None,
    }
}

/// A page has at most one latest version.
pub proof fn lemma_latest_unique(
    items: Seq<Option<Seq<char>>>,
    a: (int, int, int),
    b: (int, int, int),
)
    requires
        is_latest(items, a),
        is_latest(items, b),
    ensures
        a == b,
{
}

/// A page lists at most one latest version.
pub proof fn lemma_lists_one_latest(page: Seq<char>, a: Option<Version>, b: Option<Version>)
    requires
        lists_latest(page, a),
        lists_latest(page, b),
    ensures
        a == b,
{
    if let Some(listed) = selected_texts(page, VERSION_SELECTOR@) {
        if let (Some(first), Some(second)) = (a, b) {
            lemma_latest_unique(listed, first@, second@);
            lemma_view_determines(first, second);
        }
    }
}

} // verus!
