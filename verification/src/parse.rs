use vstd::prelude::*;
use crate::dom::{
    element_attr, element_text, first_attr_of, first_attr_sel, first_text_of, first_text_sel,
    parse_document, select_all, select_in,
};
use crate::extract::{
    RawItem, RawNote, RawResource, RawSample, RawSection, document_from_parts,
    lemma_samples_language, video_from_parts,
};
use crate::records::{ExtractError, WWDCDocument, WWDCVideo};

verus! {

/// The text of the first element of a query result, where there is one.
fn first_text(els: &Vec<scraper::ElementRef<'_>>) -> Option<String> {
    if els.len() > 0 {
        Some(element_text(&els[0]))
    } else {
        None
    }
}

/// The texts of all elements of a query result, in order.
fn all_texts(els: &Vec<scraper::ElementRef<'_>>) -> Vec<String> {
    let mut out: Vec<String> = Vec::new();
    let mut i: usize = 0;
    while i < els.len()
        invariant
            0 <= i <= els.len(),
        decreases els.len() - i,
    {
        out.push(element_text(&els[i]));
        i += 1;
    }
    out
}

/// Extracts a video record from the raw HTML of a video page: the title and
/// overview are required, and every other absent element degrades to an
/// empty or omitted value.
pub fn parse_wwdc_video_html(html: &str, url: &str) -> (r: Result<WWDCVideo, ExtractError>)
    ensures
        r is Ok <==> (first_text_sel(html@, "h1"@) is Some && first_text_sel(
            html@,
            ".supplement.details > p"@,
        ) is Some),
        r matches Ok(v) ==> {
            &&& Some(v@.title) == first_text_sel(html@, "h1"@)
            &&& Some(v@.overview) == first_text_sel(html@, ".supplement.details > p"@)
            &&& v@.url == url@
            &&& forall|k: int|
                0 <= k < v@.code_samples.len() ==> #[trigger] v@.code_samples[k].language
                    == "swift"@
        },
        r matches Err(e) ==> e == ExtractError::MissingRequiredField,
{
    let title = first_text_of(html, "h1");
    let overview = first_text_of(html, ".supplement.details > p");

    let doc = parse_document(html);

    let sentence_els = select_all(&doc, ".supplement.transcript .sentence");
    let sentences = all_texts(&sentence_els);

    let container_els = select_all(&doc, ".sample-code-main-container");
    let mut samples: Vec<RawSample> = Vec::new();
    let mut i: usize = 0;
    while i < container_els.len()
        invariant
            0 <= i <= container_els.len(),
        decreases container_els.len() - i,
    {
        let el = &container_els[i];
        let p_els = select_in(el, "p");
        let code_els = select_in(el, "code");
        samples.push(RawSample { title_text: first_text(&p_els), code: first_text(&code_els) });
        i += 1;
    }

    let li_els = select_all(&doc, ".links.small li");
    let mut resources: Vec<RawResource> = Vec::new();
    let mut j: usize = 0;
    while j < li_els.len()
        invariant
            0 <= j <= li_els.len(),
        decreases li_els.len() - j,
    {
        let el = &li_els[j];
        let a_els = select_in(el, "a");
        let (href, link_title) = if a_els.len() > 0 {
            (element_attr(&a_els[0], "href"), element_text(&a_els[0]))
        } else {
            (None, String::new())
        };
        let classes = match element_attr(el, "class") {
            Some(c) => c,
            None => String::new(),
        };
        resources.push(RawResource { href, title: link_title, classes });
        j += 1;
    }

    proof {
        lemma_samples_language(samples.deep_view());
    }
    video_from_parts(title, overview, sentences, samples, resources, url)
}

/// Extracts a document record from the rendered HTML of a reference page:
/// only the title is required, and every other absent element degrades to
/// an empty or default value.
pub fn parse_wwdc_document_html(html: &str) -> (r: Result<WWDCDocument, ExtractError>)
    ensures
        r is Ok <==> first_text_sel(html@, "h1"@) is Some,
        r matches Ok(d) ==> {
            &&& Some(d@.title) == first_text_sel(html@, "h1"@)
            &&& d@.description == (match first_attr_sel(
                html@,
                "meta[name='description']"@,
                "content"@,
            ) {
                Some(x) => x,
                None => Seq::<char>::empty(),
            })
        },
        r matches Err(e) ==> e == ExtractError::MissingRequiredField,
{
    let title = first_text_of(html, "h1");
    let description = first_attr_of(html, "meta[name='description']", "content");

    let doc = parse_document(html);

    let overview_els = select_all(&doc, ".content > p");
    let overview_paras = all_texts(&overview_els);

    let note_els = select_all(&doc, ".note");
    let mut notes: Vec<RawNote> = Vec::new();
    let mut i: usize = 0;
    while i < note_els.len()
        invariant
            0 <= i <= note_els.len(),
        decreases note_els.len() - i,
    {
        let el = &note_els[i];
        let label_els = select_in(el, ".label");
        let para_els = select_in(el, "p:not(.label)");
        notes.push(RawNote { label: first_text(&label_els), paras: all_texts(&para_els) });
        i += 1;
    }

    let section_els = select_all(&doc, ".contenttable-section");
    let mut sections: Vec<RawSection> = Vec::new();
    let mut j: usize = 0;
    while j < section_els.len()
        invariant
            0 <= j <= section_els.len(),
        decreases section_els.len() - j,
    {
        let el = &section_els[j];
        let title_inner = select_in(el, ".contenttable-title");
        let item_els = select_in(el, ".link-block");
        let mut items: Vec<RawItem> = Vec::new();
        let mut k: usize = 0;
        while k < item_els.len()
            invariant
                0 <= k <= item_els.len(),
            decreases item_els.len() - k,
        {
            let item_el = &item_els[k];
            let primary_els = select_in(item_el, ".identifier, .decorated-title, code");
            let span_els = select_in(item_el, ".link span");
            let desc_els = select_in(item_el, ".content");
            let a_els = select_in(item_el, "a");
            let href = if a_els.len() > 0 {
                element_attr(&a_els[0], "href")
            } else {
                None
            };
            let decorator_els = select_in(item_el, ".decorator");
            items.push(
                RawItem {
                    primary: first_text(&primary_els),
                    span: first_text(&span_els),
                    description: first_text(&desc_els),
                    href,
                    decorator: first_text(&decorator_els),
                },
            );
            k += 1;
        }
        sections.push(RawSection { title: first_text(&title_inner), items });
        j += 1;
    }

    document_from_parts(title, description, overview_paras, notes, sections)
}

} // verus!
