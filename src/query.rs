use vstd::prelude::*;

use crate::text::texts;

verus! {

#[verifier::external_type_specification]
#[verifier::external_body]
pub struct ExHtml(scraper::Html);

#[verifier::external_type_specification]
#[verifier::external_body]
pub struct ExSelector(scraper::Selector);

/// Whether scraper accepts `text` as a CSS selector group.
pub uninterp spec fn selector_accepted(text: Seq<char>) -> bool;

/// The inner markup of each element that the selector group `selector` matches
/// in the HTML document `source`, in document order.
pub uninterp spec fn matched_markup(source: Seq<char>, selector: Seq<char>) -> Seq<Seq<char>>;

/// The value of the attribute `name` on each element that `selector` matches in
/// `source`, in document order (`None` where the element lacks it).
pub uninterp spec fn matched_attribute(
    source: Seq<char>,
    selector: Seq<char>,
    name: Seq<char>,
) -> Seq<Option<Seq<char>>>;

/// The characters of an optional string.
pub open spec fn option_view(a: Option<String>) -> Option<Seq<char>> {
    match a {
        Some(v) => Some(v@),
        None => None,
    }
}

/// A parsed HTML document, together with the text it was parsed from. The
/// fields are private and only `parse_page` fills them, so the tree is always
/// the one scraper builds from `source`.
pub struct Page {
    tree: scraper::Html,
    source: String,
}

/// A compiled selector group, together with its text. Only `compile_query`
/// fills the private fields, so `compiled` is always what scraper makes of `text`.
pub struct Query {
    compiled: scraper::Selector,
    text: String,
}

impl Page {
    /// The text that the document was parsed from.
    pub closed spec fn source(&self) -> Seq<char> {
        self.source@
    }
}

impl Query {
    /// The text of the selector group.
    pub closed spec fn text(&self) -> Seq<char> {
        self.text@
    }
}

/// Relies on `scraper::Html::parse_document`, which builds a tree from any text
/// and never fails.
#[verifier::external_body]
pub(crate) fn parse_page(source: &str) -> (r: Page)
    ensures
        r.source() == source@,
{
    Page { tree: scraper::Html::parse_document(source), source: source.to_string() }
}

/// Relies on `scraper::Selector::parse`, whose error is dropped.
#[verifier::external_body]
pub(crate) fn compile_query(text: &str) -> (r: Option<Query>)
    ensures
        r is Some <==> selector_accepted(text@),
        r matches Some(q) ==> q.text() == text@,
{
    scraper::Selector::parse(text).ok().map(|c| Query { compiled: c, text: text.to_string() })
}

/// Relies on `scraper::Html::select` and `ElementRef::inner_html`.
#[verifier::external_body]
pub(crate) fn select_markup(page: &Page, query: &Query) -> (r: Vec<String>)
    ensures
        texts(r@) == matched_markup(page.source(), query.text()),
{
    page.tree.select(&query.compiled).map(|e| e.inner_html()).collect()
}

/// Relies on `scraper::Html::select` and `ElementRef::attr`; the elements are
/// those that `select_markup` reads.
#[verifier::external_body]
pub(crate) fn select_attribute(page: &Page, query: &Query, name: &str) -> (r: Vec<Option<String>>)
    ensures
        r@.map_values(|a: Option<String>| option_view(a)) == matched_attribute(
            page.source(),
            query.text(),
            name@,
        ),
        r@.len() == matched_markup(page.source(), query.text()).len(),
{
    page.tree.select(&query.compiled).map(|e| e.attr(name).map(|v| v.to_string())).collect()
}

} // verus!
