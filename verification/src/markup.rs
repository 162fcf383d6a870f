//! Selector evaluation over fetched markup, through the scraper crate. The
//! results of parsing a document and evaluating a selector group against it
//! are functions of the input strings alone; `selected_inner` and
//! `selected_attrs` name them, and the extraction logic is verified against
//! those names.

use vstd::prelude::*;

verus! {

#[verifier::external_type_specification]
#[verifier::external_body]
pub struct ExSelectorErrorKind<'a>(scraper::error::SelectorErrorKind<'a>);

/// Whether scraper's `Selector::parse` accepts the selector string.
pub uninterp spec fn selector_ok(selector: Seq<char>) -> bool;

/// The inner markup of each element the selector matches in the document
/// parsed from `body`, in document order.
pub uninterp spec fn selected_inner(body: Seq<char>, selector: Seq<char>) -> Seq<Seq<char>>;

/// For each element the selector matches in the document parsed from `body`,
/// in document order, the value of its attribute named `attr`, where the
/// element carries one.
pub uninterp spec fn selected_attrs(
    body: Seq<char>,
    selector: Seq<char>,
    attr: Seq<char>,
) -> Seq<Option<Seq<char>>>;

/// Relies on scraper's `Selector::parse`: whether it accepts the selector
/// string depends on the string alone, which `selector_ok` names. Lets a
/// constructor surface an unparsable selector as a configuration error.
#[verifier::external_body]
pub(crate) fn check_selector(selector: &str) -> (r: bool)
    ensures
        r == selector_ok(selector@),
{
    scraper::Selector::parse(selector).is_ok()
}

/// Relies on scraper: `Html::parse_document` is lenient and always yields a
/// document, `Selector::parse` succeeds exactly on well-formed selector
/// groups, `Html::select` walks the matched elements in document order, and
/// `ElementRef::inner_html` is each match's inner markup. The pipeline is a
/// function of the two strings alone, which `selected_inner` names.
#[verifier::external_body]
pub(crate) fn select_inner_html<'a>(body: &str, selector: &'a str) -> (r: Result<
    Vec<String>,
    scraper::error::SelectorErrorKind<'a>,
>)
    ensures
        r is Ok <==> selector_ok(selector@),
        r is Ok ==> r->Ok_0.deep_view() == selected_inner(body@, selector@),
{
    let query = match scraper::Selector::parse(selector) {
        Ok(q) => q,
        Err(e) => {
            return Err(e);
        },
    };
    let document = scraper::Html::parse_document(body);
    Ok(document.select(&query).map(|e| e.inner_html()).collect())
}

/// Relies on scraper, as `select_inner_html` does, and on
/// `ElementRef::attr`: the value of the named attribute, where the matched
/// element carries one. The pipeline is a function of the three strings
/// alone, which `selected_attrs` names.
#[verifier::external_body]
pub(crate) fn select_attr_values<'a>(body: &str, selector: &'a str, attr: &str) -> (r: Result<
    Vec<Option<String>>,
    scraper::error::SelectorErrorKind<'a>,
>)
    ensures
        r is Ok <==> selector_ok(selector@),
        r is Ok ==> r->Ok_0.deep_view() == selected_attrs(body@, selector@, attr@),
{
    let query = match scraper::Selector::parse(selector) {
        Ok(q) => q,
        Err(e) => {
            return Err(e);
        },
    };
    let document = scraper::Html::parse_document(body);
    Ok(document.select(&query).map(|e| e.attr(attr).map(|v| v.to_owned())).collect())
}

} // verus!
