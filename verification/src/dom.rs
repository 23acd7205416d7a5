use vstd::prelude::*;

verus! {

#[verifier::external_type_specification]
#[verifier::external_body]
pub struct ExHtml(scraper::Html);

#[verifier::external_type_specification]
#[verifier::external_body]
pub struct ExSelector(scraper::Selector);

#[verifier::external_type_specification]
#[verifier::external_body]
pub struct ExElementRef<'a>(scraper::ElementRef<'a>);

/// Relies on scraper::Html::parse_document: parses markup into a DOM
/// queryable by CSS selectors.
#[verifier::external_body]
pub(crate) fn parse_document(html: &str) -> scraper::Html {
    scraper::Html::parse_document(html)
}

/// Relies on scraper::Selector::parse: compiles a CSS selector string, or
/// yields nothing on a selector syntax error.
#[verifier::external_body]
pub(crate) fn parse_selector(sel: &str) -> Option<scraper::Selector> {
    scraper::Selector::parse(sel).ok()
}

/// Relies on scraper::Html::select: every element of the document matching
/// the selector, in document order.
#[verifier::external_body]
pub(crate) fn select_document<'a>(
    doc: &'a scraper::Html,
    sel: &scraper::Selector,
) -> Vec<scraper::ElementRef<'a>> {
    doc.select(sel).collect()
}

/// Relies on scraper::ElementRef::select: every descendant element matching
/// the selector, in document order.
#[verifier::external_body]
pub(crate) fn select_element<'a>(
    el: &scraper::ElementRef<'a>,
    sel: &scraper::Selector,
) -> Vec<scraper::ElementRef<'a>> {
    el.select(sel).collect()
}

/// Relies on scraper::ElementRef::text: the text of every descendant text
/// node, concatenated in document order.
#[verifier::external_body]
pub(crate) fn element_text(el: &scraper::ElementRef<'_>) -> String {
    el.text().collect()
}

/// Relies on scraper::ElementRef::attr: the element's value for the named
/// attribute, where it has one.
#[verifier::external_body]
pub(crate) fn element_attr(el: &scraper::ElementRef<'_>, name: &str) -> Option<String> {
    el.attr(name).map(|a| a.to_string())
}

/// The text of the first element of the parsed markup that matches the
/// selector; a function of the markup and the selector alone.
pub uninterp spec fn first_text_sel(html: Seq<char>, sel: Seq<char>) -> Option<Seq<char>>;

/// Relies on scraper::Html::parse_document, Html::select and
/// ElementRef::text: the text of the first match of the selector in the
/// parsed markup, determined by the markup and the selector alone; a
/// selector that does not compile matches nothing.
#[verifier::external_body]
pub(crate) fn first_text_of(html: &str, sel: &str) -> (r: Option<String>)
    ensures
        r.deep_view() == first_text_sel(html@, sel@),
{
    let doc = scraper::Html::parse_document(html);
    let parsed = match scraper::Selector::parse(sel) {
        Ok(s) => s,
        Err(_) => return None,
    };
    doc.select(&parsed).next().map(|el| el.text().collect())
}

/// The named attribute of the first element of the parsed markup that
/// matches the selector; a function of its three arguments alone.
pub uninterp spec fn first_attr_sel(html: Seq<char>, sel: Seq<char>, attr: Seq<char>) -> Option<
    Seq<char>,
>;

/// Relies on scraper::Html::parse_document, Html::select and
/// ElementRef::attr: the named attribute of the first match of the selector
/// in the parsed markup, determined by the arguments alone; absent when the
/// selector matches nothing, does not compile, or the attribute is not set.
#[verifier::external_body]
pub(crate) fn first_attr_of(html: &str, sel: &str, attr: &str) -> (r: Option<String>)
    ensures
        r.deep_view() == first_attr_sel(html@, sel@, attr@),
{
    let doc = scraper::Html::parse_document(html);
    let parsed = match scraper::Selector::parse(sel) {
        Ok(s) => s,
        Err(_) => return None,
    };
    doc.select(&parsed).next().and_then(|el| el.attr(attr)).map(|a| a.to_string())
}

/// Every element of the document matching the selector string; a selector
/// string that does not compile matches nothing.
pub(crate) fn select_all<'a>(doc: &'a scraper::Html, sel: &str) -> Vec<scraper::ElementRef<'a>> {
    match parse_selector(sel) {
        Some(s) => select_document(doc, &s),
        None => Vec::new(),
    }
}

/// Every descendant of the element matching the selector string; a selector
/// string that does not compile matches nothing.
pub(crate) fn select_in<'a>(
    el: &scraper::ElementRef<'a>,
    sel: &str,
) -> Vec<scraper::ElementRef<'a>> {
    match parse_selector(sel) {
        Some(s) => select_element(el, &s),
        None => Vec::new(),
    }
}

} // verus!
