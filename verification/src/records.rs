use vstd::prelude::*;

verus! {

/// Why an extraction run failed.
#[derive(Clone, Copy, Debug, PartialEq, Eq, Structural)]
pub enum ExtractError {
    /// A required element (a title, or the video overview) was absent.
    MissingRequiredField,
    /// The page could not be fetched over HTTP.
    TransportError,
    /// The headless browser could not be launched or driven.
    BrowserError,
    /// The output file could not be written.
    FilesystemError,
}

/// The description of an error, for reporting on the standard error stream.
pub open spec fn spec_error_message(e: ExtractError) -> Seq<char> {
    match e {
        ExtractError::MissingRequiredField => "missing required field"@,
        ExtractError::TransportError => "failed to fetch the page"@,
        ExtractError::BrowserError => "failed to drive the headless browser"@,
        ExtractError::FilesystemError => "failed to write the output file"@,
    }
}

impl ExtractError {
    /// A short description of the failure.
    pub fn message(&self) -> (r: &'static str)
        ensures
            r@ == spec_error_message(*self),
    {
        match self {
            ExtractError::MissingRequiredField => "missing required field",
            ExtractError::TransportError => "failed to fetch the page",
            ExtractError::BrowserError => "failed to drive the headless browser",
            ExtractError::FilesystemError => "failed to write the output file",
        }
    }
}

/// Which of the two page families an invocation targets.
#[derive(Clone, Copy, Debug, PartialEq, Eq, Structural)]
pub enum ContentType {
    Video,
    Document,
}

/// The tag that names a content type inside an output filename.
pub open spec fn spec_content_tag(t: ContentType) -> Seq<char> {
    match t {
        ContentType::Video => "video"@,
        ContentType::Document => "doc"@,
    }
}

impl ContentType {
    /// The filename tag for this content type.
    pub fn tag(&self) -> (r: &'static str)
        ensures
            r@ == spec_content_tag(*self),
    {
        match self {
            ContentType::Video => "video",
            ContentType::Document => "doc",
        }
    }
}

/// The kind of a linked resource, chosen by substring match on a CSS class list.
#[derive(Clone, Copy, Debug, PartialEq, Eq, Structural)]
pub enum ResourceType {
    Document,
    Download,
    Video,
}

/// The human-readable label of a resource type, as it appears in the Markdown.
pub open spec fn spec_resource_label(t: ResourceType) -> Seq<char> {
    match t {
        ResourceType::Document => "Documentation"@,
        ResourceType::Download => "Download"@,
        ResourceType::Video => "Video"@,
    }
}

impl ResourceType {
    /// The label used when this resource is rendered.
    pub fn label(&self) -> (r: &'static str)
        ensures
            r@ == spec_resource_label(*self),
    {
        match self {
            ResourceType::Document => "Documentation",
            ResourceType::Download => "Download",
            ResourceType::Video => "Video",
        }
    }
}

/// One code sample extracted from a video page.
pub struct CodeSample {
    /// The sample's heading, with any timestamp prefix stripped.
    pub title: String,
    /// The stripped timestamp prefix, or empty.
    pub timestamp: String,
    /// The raw text of the code block.
    pub code: String,
    /// The language tag of the fenced block.
    pub language: String,
}

/// The mathematical value of a code sample.
pub struct CodeSampleView {
    pub title: Seq<char>,
    pub timestamp: Seq<char>,
    pub code: Seq<char>,
    pub language: Seq<char>,
}

impl View for CodeSample {
    type V = CodeSampleView;

    open spec fn view(&self) -> CodeSampleView {
        CodeSampleView {
            title: self.title@,
            timestamp: self.timestamp@,
            code: self.code@,
            language: self.language@,
        }
    }
}

impl DeepView for CodeSample {
    type V = CodeSampleView;

    open spec fn deep_view(&self) -> CodeSampleView {
        self.view()
    }
}

/// One resource link extracted from a video page.
pub struct Resource {
    pub title: String,
    pub url: String,
    pub resource_type: ResourceType,
}

/// The mathematical value of a resource link.
pub struct ResourceView {
    pub title: Seq<char>,
    pub url: Seq<char>,
    pub resource_type: ResourceType,
}

impl View for Resource {
    type V = ResourceView;

    open spec fn view(&self) -> ResourceView {
        ResourceView { title: self.title@, url: self.url@, resource_type: self.resource_type }
    }
}

impl DeepView for Resource {
    type V = ResourceView;

    open spec fn deep_view(&self) -> ResourceView {
        self.view()
    }
}

/// Everything extracted from one video page.
pub struct WWDCVideo {
    pub title: String,
    pub url: String,
    pub overview: String,
    /// All transcript sentences, joined by single spaces.
    pub transcript: String,
    pub code_samples: Vec<CodeSample>,
    pub resources: Vec<Resource>,
}

/// The mathematical value of a video record.
pub struct WWDCVideoView {
    pub title: Seq<char>,
    pub url: Seq<char>,
    pub overview: Seq<char>,
    pub transcript: Seq<char>,
    pub code_samples: Seq<CodeSampleView>,
    pub resources: Seq<ResourceView>,
}

impl View for WWDCVideo {
    type V = WWDCVideoView;

    open spec fn view(&self) -> WWDCVideoView {
        WWDCVideoView {
            title: self.title@,
            url: self.url@,
            overview: self.overview@,
            transcript: self.transcript@,
            code_samples: self.code_samples.deep_view(),
            resources: self.resources.deep_view(),
        }
    }
}

/// One item of a reference-document section.
pub struct DocumentItem {
    pub title: String,
    pub description: String,
    pub url: String,
    pub item_type: String,
}

/// The mathematical value of a document item.
pub struct DocumentItemView {
    pub title: Seq<char>,
    pub description: Seq<char>,
    pub url: Seq<char>,
    pub item_type: Seq<char>,
}

impl View for DocumentItem {
    type V = DocumentItemView;

    open spec fn view(&self) -> DocumentItemView {
        DocumentItemView {
            title: self.title@,
            description: self.description@,
            url: self.url@,
            item_type: self.item_type@,
        }
    }
}

impl DeepView for DocumentItem {
    type V = DocumentItemView;

    open spec fn deep_view(&self) -> DocumentItemView {
        self.view()
    }
}

/// One section of a reference document.
pub struct Section {
    pub title: String,
    pub items: Vec<DocumentItem>,
}

/// The mathematical value of a section.
pub struct SectionView {
    pub title: Seq<char>,
    pub items: Seq<DocumentItemView>,
}

impl View for Section {
    type V = SectionView;

    open spec fn view(&self) -> SectionView {
        SectionView { title: self.title@, items: self.items.deep_view() }
    }
}

impl DeepView for Section {
    type V = SectionView;

    open spec fn deep_view(&self) -> SectionView {
        self.view()
    }
}

/// Everything extracted from one reference-document page.
pub struct WWDCDocument {
    pub title: String,
    pub description: String,
    /// All overview paragraphs, joined by newlines.
    pub overview: String,
    /// Each note formatted as "label: content".
    pub notes: Vec<String>,
    pub sections: Vec<Section>,
}

/// The mathematical value of a document record.
pub struct WWDCDocumentView {
    pub title: Seq<char>,
    pub description: Seq<char>,
    pub overview: Seq<char>,
    pub notes: Seq<Seq<char>>,
    pub sections: Seq<SectionView>,
}

impl View for WWDCDocument {
    type V = WWDCDocumentView;

    open spec fn view(&self) -> WWDCDocumentView {
        WWDCDocumentView {
            title: self.title@,
            description: self.description@,
            overview: self.overview@,
            notes: self.notes.deep_view(),
            sections: self.sections.deep_view(),
        }
    }
}

/// A rendered page: the Markdown text and the title it was derived from.
pub struct MarkdownOutput {
    pub content: String,
    pub title: String,
}

} // verus!
