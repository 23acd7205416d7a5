use vstd::prelude::*;
use vstd::string::StringExecFns;
use crate::records::{
    CodeSample, CodeSampleView, DocumentItem, DocumentItemView, ExtractError, Resource,
    ResourceType, ResourceView, Section, SectionView, WWDCDocument, WWDCVideo,
};
use crate::text::{
    contains_seq, contains_sub, join_with, spec_join, spec_split_timestamp, spec_strip_zwsp,
    split_timestamp, strip_zwsp, views_of,
};

verus! {

/// Which resource type a CSS class list selects: the first matching
/// substring among "document", "download", "video" wins, and no match
/// falls back to Document.
pub open spec fn spec_classify(classes: Seq<char>) -> ResourceType {
    if contains_seq(classes, "document"@) {
        ResourceType::Document
    } else if contains_seq(classes, "download"@) {
        ResourceType::Download
    } else if contains_seq(classes, "video"@) {
        ResourceType::Video
    } else {
        ResourceType::Document
    }
}

/// Classifies a resource by the class attribute of its list item.
pub fn classify_resource(classes: &str) -> (r: ResourceType)
    ensures
        r == spec_classify(classes@),
{
    if contains_sub(classes, "document") {
        ResourceType::Document
    } else if contains_sub(classes, "download") {
        ResourceType::Download
    } else if contains_sub(classes, "video") {
        ResourceType::Video
    } else {
        ResourceType::Document
    }
}

/// What the DOM gave for one code-sample container: the text of its first
/// paragraph and of its first code element, where present.
pub struct RawSample {
    pub title_text: Option<String>,
    pub code: Option<String>,
}

/// The mathematical value of a raw sample.
pub struct RawSampleView {
    pub title_text: Option<Seq<char>>,
    pub code: Option<Seq<char>>,
}

impl View for RawSample {
    type V = RawSampleView;

    open spec fn view(&self) -> RawSampleView {
        RawSampleView { title_text: self.title_text.deep_view(), code: self.code.deep_view() }
    }
}

impl DeepView for RawSample {
    type V = RawSampleView;

    open spec fn deep_view(&self) -> RawSampleView {
        self.view()
    }
}

/// What the DOM gave for one resource list item: the first anchor's href
/// and text, where an anchor was present, and the item's class attribute.
pub struct RawResource {
    pub href: Option<String>,
    pub title: String,
    pub classes: String,
}

/// The mathematical value of a raw resource.
pub struct RawResourceView {
    pub href: Option<Seq<char>>,
    pub title: Seq<char>,
    pub classes: Seq<char>,
}

impl View for RawResource {
    type V = RawResourceView;

    open spec fn view(&self) -> RawResourceView {
        RawResourceView {
            href: self.href.deep_view(),
            title: self.title@,
            classes: self.classes@,
        }
    }
}

impl DeepView for RawResource {
    type V = RawResourceView;

    open spec fn deep_view(&self) -> RawResourceView {
        self.view()
    }
}

/// The code sample built from one container, where both parts were present;
/// a container missing either part contributes nothing.
pub open spec fn spec_sample_of(raw: RawSampleView) -> Option<CodeSampleView> {
    match (raw.title_text, raw.code) {
        (Some(t), Some(c)) => Some(
            CodeSampleView {
                title: spec_split_timestamp(t).1,
                timestamp: spec_split_timestamp(t).0,
                code: c,
                language: "swift"@,
            },
        ),
        _ => None,
    }
}

/// The code samples kept from a sequence of containers, in order.
pub open spec fn spec_samples(raws: Seq<RawSampleView>) -> Seq<CodeSampleView>
    decreases raws.len(),
{
    if raws.len() == 0 {
        Seq::<CodeSampleView>::empty()
    } else {
        let rest = spec_samples(raws.drop_last());
        match spec_sample_of(raws.last()) {
            Some(s) => rest.push(s),
            None => rest,
        }
    }
}

/// Builds the code samples of a video record from the raw containers.
pub fn build_samples(raws: &Vec<RawSample>) -> (r: Vec<CodeSample>)
    ensures
        r.deep_view() == spec_samples(raws.deep_view()),
{
    let mut out: Vec<CodeSample> = Vec::new();
    let mut i: usize = 0;
    proof {
        assert(out.deep_view() =~= spec_samples(raws.deep_view().take(0)));
    }
    while i < raws.len()
        invariant
            0 <= i <= raws.len(),
            out.deep_view() == spec_samples(raws.deep_view().take(i as int)),
        decreases raws.len() - i,
    {
        let raw = &raws[i];
        match (&raw.title_text, &raw.code) {
            (Some(t), Some(c)) => {
                let (ts, ti) = split_timestamp(t.as_str());
                let sample = CodeSample {
                    title: ti,
                    timestamp: ts,
                    code: c.clone(),
                    language: String::from_str("swift"),
                };
                out.push(sample);
            },
            _ => {},
        }
        proof {
            let rv = raws.deep_view();
            assert(rv.take(i + 1).drop_last() =~= rv.take(i as int));
            assert(rv.take(i + 1).last() == rv[i as int]);
            assert(out.deep_view() =~= spec_samples(rv.take(i + 1)));
        }
        i += 1;
    }
    proof {
        assert(raws.deep_view().take(raws.len() as int) =~= raws.deep_view());
    }
    out
}

/// Every code sample kept from raw containers carries the fixed language tag.
pub proof fn lemma_samples_language(raws: Seq<RawSampleView>)
    ensures
        forall|k: int|
            0 <= k < spec_samples(raws).len() ==> #[trigger] spec_samples(
                raws,
            )[k].language == "swift"@,
    decreases raws.len(),
{
    if raws.len() > 0 {
        lemma_samples_language(raws.drop_last());
        let rest = spec_samples(raws.drop_last());
        match spec_sample_of(raws.last()) {
            Some(s) => {
                assert forall|k: int| 0 <= k < spec_samples(raws).len() implies #[trigger] spec_samples(raws)[k].language == "swift"@ by {
                    if k < rest.len() {
                        assert(rest.push(s)[k] == rest[k]);
                    } else {
                        assert(rest.push(s)[k] == s);
                    }
                }
            },
            None => {},
        }
    }
}

/// The resource built from one list item, where an anchor with an href was
/// present; an item without one contributes nothing.
pub open spec fn spec_resource_of(raw: RawResourceView) -> Option<ResourceView> {
    match raw.href {
        Some(h) => Some(
            ResourceView { title: raw.title, url: h, resource_type: spec_classify(raw.classes) },
        ),
        None => None,
    }
}

/// The resources kept from a sequence of list items, in order.
pub open spec fn spec_resources(raws: Seq<RawResourceView>) -> Seq<ResourceView>
    decreases raws.len(),
{
    if raws.len() == 0 {
        Seq::<ResourceView>::empty()
    } else {
        let rest = spec_resources(raws.drop_last());
        match spec_resource_of(raws.last()) {
            Some(r) => rest.push(r),
            None => rest,
        }
    }
}

/// Builds the resource links of a video record from the raw list items.
pub fn build_resources(raws: &Vec<RawResource>) -> (r: Vec<Resource>)
    ensures
        r.deep_view() == spec_resources(raws.deep_view()),
{
    let mut out: Vec<Resource> = Vec::new();
    let mut i: usize = 0;
    proof {
        assert(out.deep_view() =~= spec_resources(raws.deep_view().take(0)));
    }
    while i < raws.len()
        invariant
            0 <= i <= raws.len(),
            out.deep_view() == spec_resources(raws.deep_view().take(i as int)),
        decreases raws.len() - i,
    {
        let raw = &raws[i];
        match &raw.href {
            Some(h) => {
                let resource = Resource {
                    title: raw.title.clone(),
                    url: h.clone(),
                    resource_type: classify_resource(raw.classes.as_str()),
                };
                out.push(resource);
            },
            None => {},
        }
        proof {
            let rv = raws.deep_view();
            assert(rv.take(i + 1).drop_last() =~= rv.take(i as int));
            assert(rv.take(i + 1).last() == rv[i as int]);
            assert(out.deep_view() =~= spec_resources(rv.take(i + 1)));
        }
        i += 1;
    }
    proof {
        assert(raws.deep_view().take(raws.len() as int) =~= raws.deep_view());
    }
    out
}

/// Assembles a video record from the plain values a page gave, or fails
/// with MissingRequiredField exactly when the title or the overview is
/// absent.
pub fn video_from_parts(
    title: Option<String>,
    overview: Option<String>,
    sentences: Vec<String>,
    samples: Vec<RawSample>,
    resources: Vec<RawResource>,
    url: &str,
) -> (r: Result<WWDCVideo, ExtractError>)
    ensures
        r matches Ok(v) ==> {
            &&& title matches Some(t) && v@.title == t@
            &&& overview matches Some(o) && v@.overview == o@
            &&& v@.url == url@
            &&& v@.transcript == spec_join(views_of(sentences@), " "@)
            &&& v@.code_samples == spec_samples(samples.deep_view())
            &&& v@.resources == spec_resources(resources.deep_view())
        },
        r matches Err(e) ==> e == ExtractError::MissingRequiredField && (title is None
            || overview is None),
        r is Ok <==> (title is Some && overview is Some),
{
    let t = match title {
        Some(t) => t,
        None => {
            return Err(ExtractError::MissingRequiredField);
        },
    };
    let o = match overview {
        Some(o) => o,
        None => {
            return Err(ExtractError::MissingRequiredField);
        },
    };
    let transcript = join_with(&sentences, " ");
    let code_samples = build_samples(&samples);
    let built_resources = build_resources(&resources);
    proof {
        assert(sentences.deep_view() =~= views_of(sentences@));
    }
    Ok(
        WWDCVideo {
            title: t,
            url: String::from_str(url),
            overview: o,
            transcript,
            code_samples,
            resources: built_resources,
        },
    )
}

/// What the DOM gave for one note: the text of its label element, where
/// present, and the text of each paragraph outside the label.
pub struct RawNote {
    pub label: Option<String>,
    pub paras: Vec<String>,
}

/// The mathematical value of a raw note.
pub struct RawNoteView {
    pub label: Option<Seq<char>>,
    pub paras: Seq<Seq<char>>,
}

impl View for RawNote {
    type V = RawNoteView;

    open spec fn view(&self) -> RawNoteView {
        RawNoteView { label: self.label.deep_view(), paras: self.paras.deep_view() }
    }
}

impl DeepView for RawNote {
    type V = RawNoteView;

    open spec fn deep_view(&self) -> RawNoteView {
        self.view()
    }
}

/// What the DOM gave for one document item: the text of the first title
/// element, the fallback span text, the description, the first anchor's
/// href, and the decorator text, each where present.
pub struct RawItem {
    pub primary: Option<String>,
    pub span: Option<String>,
    pub description: Option<String>,
    pub href: Option<String>,
    pub decorator: Option<String>,
}

/// The mathematical value of a raw item.
pub struct RawItemView {
    pub primary: Option<Seq<char>>,
    pub span: Option<Seq<char>>,
    pub description: Option<Seq<char>>,
    pub href: Option<Seq<char>>,
    pub decorator: Option<Seq<char>>,
}

impl View for RawItem {
    type V = RawItemView;

    open spec fn view(&self) -> RawItemView {
        RawItemView {
            primary: self.primary.deep_view(),
            span: self.span.deep_view(),
            description: self.description.deep_view(),
            href: self.href.deep_view(),
            decorator: self.decorator.deep_view(),
        }
    }
}

impl DeepView for RawItem {
    type V = RawItemView;

    open spec fn deep_view(&self) -> RawItemView {
        self.view()
    }
}

/// What the DOM gave for one content-table section.
pub struct RawSection {
    pub title: Option<String>,
    pub items: Vec<RawItem>,
}

/// The mathematical value of a raw section.
pub struct RawSectionView {
    pub title: Option<Seq<char>>,
    pub items: Seq<RawItemView>,
}

impl View for RawSection {
    type V = RawSectionView;

    open spec fn view(&self) -> RawSectionView {
        RawSectionView { title: self.title.deep_view(), items: self.items.deep_view() }
    }
}

impl DeepView for RawSection {
    type V = RawSectionView;

    open spec fn deep_view(&self) -> RawSectionView {
        self.view()
    }
}

/// The text of one note: its label, a colon, and its paragraphs joined by
/// newlines; a missing label yields an empty label part.
pub open spec fn spec_note_of(n: RawNoteView) -> Seq<char> {
    (match n.label {
        Some(l) => l,
        None => Seq::<char>::empty(),
    }) + ": "@ + spec_join(n.paras, "\n"@)
}

/// The texts of all notes, in order.
pub open spec fn spec_notes(ns: Seq<RawNoteView>) -> Seq<Seq<char>>
    decreases ns.len(),
{
    if ns.len() == 0 {
        Seq::<Seq<char>>::empty()
    } else {
        spec_notes(ns.drop_last()).push(spec_note_of(ns.last()))
    }
}

/// Formats one note as "label: content".
fn note_text(n: &RawNote) -> (r: String)
    ensures
        r@ == spec_note_of(n@),
{
    let mut out = match &n.label {
        Some(l) => l.clone(),
        None => String::new(),
    };
    out.append(": ");
    let content = join_with(&n.paras, "\n");
    out.append(content.as_str());
    proof {
        assert(out@ =~= spec_note_of(n@));
    }
    out
}

/// Builds the formatted notes of a document record.
pub fn build_notes(raws: &Vec<RawNote>) -> (r: Vec<String>)
    ensures
        r.deep_view() == spec_notes(raws.deep_view()),
{
    let mut out: Vec<String> = Vec::new();
    let mut i: usize = 0;
    proof {
        assert(out.deep_view() =~= spec_notes(raws.deep_view().take(0)));
    }
    while i < raws.len()
        invariant
            0 <= i <= raws.len(),
            out.deep_view() == spec_notes(raws.deep_view().take(i as int)),
        decreases raws.len() - i,
    {
        let text = note_text(&raws[i]);
        out.push(text);
        proof {
            let rv = raws.deep_view();
            assert(rv.take(i + 1).drop_last() =~= rv.take(i as int));
            assert(rv.take(i + 1).last() == rv[i as int]);
            assert(out.deep_view() =~= spec_notes(rv.take(i + 1)));
        }
        i += 1;
    }
    proof {
        assert(raws.deep_view().take(raws.len() as int) =~= raws.deep_view());
    }
    out
}

/// The fixed host that document-item hrefs are resolved against.
pub open spec fn spec_host() -> Seq<char> {
    "https://developer.apple.com"@
}

/// The title of one document item: the first title element's text with
/// zero-width spaces stripped; else the fallback span text; else empty.
pub open spec fn spec_item_title(primary: Option<Seq<char>>, span: Option<Seq<char>>) -> Seq<
    char,
> {
    match primary {
        Some(p) => spec_strip_zwsp(p),
        None => match span {
            Some(s) => s,
            None => Seq::<char>::empty(),
        },
    }
}

/// The document item built from one link block.
pub open spec fn spec_item_of(raw: RawItemView) -> DocumentItemView {
    DocumentItemView {
        title: spec_item_title(raw.primary, raw.span),
        description: match raw.description {
            Some(d) => d,
            None => Seq::<char>::empty(),
        },
        url: match raw.href {
            Some(h) => spec_host() + h,
            None => Seq::<char>::empty(),
        },
        item_type: match raw.decorator {
            Some(d) => d,
            None => "article"@,
        },
    }
}

/// The items of one section, in order.
pub open spec fn spec_items(raws: Seq<RawItemView>) -> Seq<DocumentItemView>
    decreases raws.len(),
{
    if raws.len() == 0 {
        Seq::<DocumentItemView>::empty()
    } else {
        spec_items(raws.drop_last()).push(spec_item_of(raws.last()))
    }
}

/// The section built from one content-table section: a missing title
/// yields an empty one.
pub open spec fn spec_section_of(raw: RawSectionView) -> SectionView {
    SectionView {
        title: match raw.title {
            Some(t) => t,
            None => Seq::<char>::empty(),
        },
        items: spec_items(raw.items),
    }
}

/// The sections of a document, in order.
pub open spec fn spec_sections(raws: Seq<RawSectionView>) -> Seq<SectionView>
    decreases raws.len(),
{
    if raws.len() == 0 {
        Seq::<SectionView>::empty()
    } else {
        spec_sections(raws.drop_last()).push(spec_section_of(raws.last()))
    }
}

/// Builds one document item from its raw parts.
pub fn build_item(raw: &RawItem) -> (r: DocumentItem)
    ensures
        r@ == spec_item_of(raw@),
{
    let title = match &raw.primary {
        Some(p) => strip_zwsp(p.as_str()),
        None => match &raw.span {
            Some(s) => s.clone(),
            None => String::new(),
        },
    };
    let description = match &raw.description {
        Some(d) => d.clone(),
        None => String::new(),
    };
    let url = match &raw.href {
        Some(h) => {
            let mut u = String::from_str("https://developer.apple.com");
            u.append(h.as_str());
            u
        },
        None => String::new(),
    };
    let item_type = match &raw.decorator {
        Some(d) => d.clone(),
        None => String::from_str("article"),
    };
    DocumentItem { title, description, url, item_type }
}

/// Builds one section from its raw parts.
pub fn build_section(raw: &RawSection) -> (r: Section)
    ensures
        r@ == spec_section_of(raw@),
{
    let title = match &raw.title {
        Some(t) => t.clone(),
        None => String::new(),
    };
    let mut items: Vec<DocumentItem> = Vec::new();
    let mut i: usize = 0;
    proof {
        assert(items.deep_view() =~= spec_items(raw.items.deep_view().take(0)));
    }
    while i < raw.items.len()
        invariant
            0 <= i <= raw.items.len(),
            items.deep_view() == spec_items(raw.items.deep_view().take(i as int)),
        decreases raw.items.len() - i,
    {
        let item = build_item(&raw.items[i]);
        items.push(item);
        proof {
            let rv = raw.items.deep_view();
            assert(rv.take(i + 1).drop_last() =~= rv.take(i as int));
            assert(rv.take(i + 1).last() == rv[i as int]);
            assert(items.deep_view() =~= spec_items(rv.take(i + 1)));
        }
        i += 1;
    }
    proof {
        assert(raw.items.deep_view().take(raw.items.len() as int) =~= raw.items.deep_view());
    }
    Section { title, items }
}

/// Builds the sections of a document record.
pub fn build_sections(raws: &Vec<RawSection>) -> (r: Vec<Section>)
    ensures
        r.deep_view() == spec_sections(raws.deep_view()),
{
    let mut out: Vec<Section> = Vec::new();
    let mut i: usize = 0;
    proof {
        assert(out.deep_view() =~= spec_sections(raws.deep_view().take(0)));
    }
    while i < raws.len()
        invariant
            0 <= i <= raws.len(),
            out.deep_view() == spec_sections(raws.deep_view().take(i as int)),
        decreases raws.len() - i,
    {
        let section = build_section(&raws[i]);
        out.push(section);
        proof {
            let rv = raws.deep_view();
            assert(rv.take(i + 1).drop_last() =~= rv.take(i as int));
            assert(rv.take(i + 1).last() == rv[i as int]);
            assert(out.deep_view() =~= spec_sections(rv.take(i + 1)));
        }
        i += 1;
    }
    proof {
        assert(raws.deep_view().take(raws.len() as int) =~= raws.deep_view());
    }
    out
}

/// Assembles a document record from the plain values a page gave, or fails
/// with MissingRequiredField exactly when the title is absent.
pub fn document_from_parts(
    title: Option<String>,
    description: Option<String>,
    overview_paras: Vec<String>,
    notes: Vec<RawNote>,
    sections: Vec<RawSection>,
) -> (r: Result<WWDCDocument, ExtractError>)
    ensures
        r matches Ok(d) ==> {
            &&& title matches Some(t) && d@.title == t@
            &&& d@.description == (match description {
                Some(x) => x@,
                None => Seq::<char>::empty(),
            })
            &&& d@.overview == spec_join(views_of(overview_paras@), "\n"@)
            &&& d@.notes == spec_notes(notes.deep_view())
            &&& d@.sections == spec_sections(sections.deep_view())
        },
        r matches Err(e) ==> e == ExtractError::MissingRequiredField && title is None,
        r is Ok <==> title is Some,
{
    let t = match title {
        Some(t) => t,
        None => {
            return Err(ExtractError::MissingRequiredField);
        },
    };
    let desc = match description {
        Some(d) => d,
        None => String::new(),
    };
    let overview = join_with(&overview_paras, "\n");
    let built_notes = build_notes(&notes);
    let built_sections = build_sections(&sections);
    proof {
        assert(overview_paras.deep_view() =~= views_of(overview_paras@));
    }
    Ok(
        WWDCDocument {
            title: t,
            description: desc,
            overview,
            notes: built_notes,
            sections: built_sections,
        },
    )
}

} // verus!
