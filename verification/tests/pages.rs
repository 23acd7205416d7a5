use wwdc2md::parse::{parse_wwdc_document_html, parse_wwdc_video_html};
use wwdc2md::records::{ExtractError, ResourceType};

const VIDEO_PAGE: &str = "<html><body>\
<h1>Title Here</h1>\
<div class=\"supplement details\"><p>Overview text.</p></div>\
<div class=\"supplement transcript\"><p>\
<span class=\"sentence\">First sentence.</span>\
<span class=\"sentence\">Second sentence.</span>\
</p></div>\
<div class=\"sample-code-main-container\">\
<p>10:40 - Setting scene association behavior</p>\
<code>let x = 1</code>\
</div>\
<ul class=\"links small\">\
<li class=\"download\"><a href=\"https://example.org/sample.zip\">Sample Code</a></li>\
<li><a href=\"/videos/play/1\">Related Video</a></li>\
<li>No anchor here</li>\
</ul>\
</body></html>";

#[test]
fn video_page_extracts_all_fields() {
    let v = parse_wwdc_video_html(VIDEO_PAGE, "https://example.org/videos/1").unwrap();
    assert_eq!(v.title, "Title Here");
    assert_eq!(v.url, "https://example.org/videos/1");
    assert_eq!(v.overview, "Overview text.");
    assert_eq!(v.transcript, "First sentence. Second sentence.");
    assert_eq!(v.code_samples.len(), 1);
    assert_eq!(v.code_samples[0].timestamp, "10:40");
    assert_eq!(v.code_samples[0].title, "Setting scene association behavior");
    assert_eq!(v.code_samples[0].code, "let x = 1");
    assert_eq!(v.code_samples[0].language, "swift");
    assert_eq!(v.resources.len(), 2);
    assert_eq!(v.resources[0].title, "Sample Code");
    assert_eq!(v.resources[0].url, "https://example.org/sample.zip");
    assert_eq!(v.resources[0].resource_type, ResourceType::Download);
    assert_eq!(v.resources[1].url, "/videos/play/1");
    assert_eq!(v.resources[1].resource_type, ResourceType::Document);
}

#[test]
fn video_page_renders_expected_markdown() {
    let v = parse_wwdc_video_html(VIDEO_PAGE, "https://example.org/videos/1").unwrap();
    let md = v.to_markdown();
    assert_eq!(md.title, "Title Here");
    let expected = "# Title Here\n> https://example.org/videos/1\n\n\
## Overview\nOverview text.\n\n\
## Resources\n\
- [Sample Code (Download)](https://example.org/sample.zip)\n\
- [Related Video (Documentation)](/videos/play/1)\n\n\
## Code Samples\n\
### Setting scene association behavior (10:40)\n\
```swift\nlet x = 1\n```\n\n\
## Transcript\nFirst sentence. Second sentence.\n";
    assert_eq!(md.content, expected);
}

#[test]
fn video_page_missing_title_fails() {
    let html = "<html><body><div class=\"supplement details\"><p>Overview.</p></div></body></html>";
    let r = parse_wwdc_video_html(html, "https://example.org");
    assert!(matches!(r, Err(ExtractError::MissingRequiredField)));
}

#[test]
fn video_page_missing_overview_fails() {
    let html = "<html><body><h1>Only a title</h1></body></html>";
    let r = parse_wwdc_video_html(html, "https://example.org");
    assert!(matches!(r, Err(ExtractError::MissingRequiredField)));
}

#[test]
fn video_page_without_samples_omits_heading() {
    let html = "<html><body><h1>T</h1>\
<div class=\"supplement details\"><p>O</p></div></body></html>";
    let v = parse_wwdc_video_html(html, "https://example.org").unwrap();
    assert!(v.code_samples.is_empty());
    let md = v.to_markdown();
    assert!(!md.content.contains("## Code Samples"));
    assert!(!md.content.contains("## Resources"));
    assert!(!md.content.contains("## Transcript"));
    assert_eq!(md.content, "# T\n> https://example.org\n\n## Overview\nO\n\n");
}

#[test]
fn rendering_twice_is_identical() {
    let v = parse_wwdc_video_html(VIDEO_PAGE, "https://example.org/videos/1").unwrap();
    let first = v.to_markdown();
    let second = v.to_markdown();
    assert_eq!(first.content.as_bytes(), second.content.as_bytes());
    assert_eq!(first.title, second.title);
}

const DOCUMENT_PAGE: &str = "<html><head>\
<meta name=\"description\" content=\"Meta description.\">\
</head><body>\
<h1>Doc Title</h1>\
<div class=\"content\"><p>Para one.</p><p>Para two.</p></div>\
<div class=\"note\"><p class=\"label\">Note</p><p>Note body.</p></div>\
<div class=\"contenttable-section\">\
<h2 class=\"contenttable-title\">Section A</h2>\
<div class=\"link-block\">\
<a href=\"/documentation/swiftui\"><code>Swift\u{200B}UI</code></a>\
<div class=\"content\">Declarative views.</div>\
<span class=\"decorator\">Framework</span>\
</div>\
<div class=\"link-block\">\
<a href=\"/tutorials\"><span class=\"link\"><span>Foo</span></span></a>\
</div>\
</div>\
</body></html>";

#[test]
fn document_page_extracts_all_fields() {
    let d = parse_wwdc_document_html(DOCUMENT_PAGE).unwrap();
    assert_eq!(d.title, "Doc Title");
    assert_eq!(d.description, "Meta description.");
    assert_eq!(d.overview, "Para one.\nPara two.");
    assert_eq!(d.notes.len(), 1);
    assert_eq!(d.notes[0], "Note: Note body.");
    assert_eq!(d.sections.len(), 1);
    let s = &d.sections[0];
    assert_eq!(s.title, "Section A");
    assert_eq!(s.items.len(), 2);
    assert_eq!(s.items[0].title, "SwiftUI");
    assert_eq!(s.items[0].description, "Declarative views.");
    assert_eq!(s.items[0].url, "https://developer.apple.com/documentation/swiftui");
    assert_eq!(s.items[0].item_type, "Framework");
    assert_eq!(s.items[1].title, "Foo");
    assert_eq!(s.items[1].url, "https://developer.apple.com/tutorials");
    assert_eq!(s.items[1].item_type, "article");
}

#[test]
fn document_page_renders_expected_markdown() {
    let d = parse_wwdc_document_html(DOCUMENT_PAGE).unwrap();
    let md = d.to_markdown();
    assert_eq!(md.title, "Doc Title");
    assert!(md.content.starts_with("# Doc Title\n\nMeta description.\n\n## Overview\nPara one.\nPara two.\n\n"));
    assert!(md.content.contains("## Notes\nNote: Note body.\n\n"));
    assert!(md.content.contains("## Section A\n\n"));
    assert!(md.content.contains(
        "### Framework `SwiftUI`\nDeclarative views.\n\n\
[Documentation](https://developer.apple.com/documentation/swiftui)\n\n",
    ));
    assert!(md.content.contains(
        "### article `Foo`\n\n\n[Documentation](https://developer.apple.com/tutorials)\n\n",
    ));
}

#[test]
fn document_page_without_meta_has_empty_description() {
    let html = "<html><body><h1>Bare Title</h1></body></html>";
    let d = parse_wwdc_document_html(html).unwrap();
    assert_eq!(d.title, "Bare Title");
    assert_eq!(d.description, "");
    assert_eq!(d.overview, "");
    assert!(d.notes.is_empty());
    assert!(d.sections.is_empty());
}

#[test]
fn document_page_missing_title_fails() {
    let html = "<html><body><p>No heading at all.</p></body></html>";
    let r = parse_wwdc_document_html(html);
    assert!(matches!(r, Err(ExtractError::MissingRequiredField)));
}

#[test]
fn document_rendering_twice_is_identical() {
    let d = parse_wwdc_document_html(DOCUMENT_PAGE).unwrap();
    let first = d.to_markdown();
    let second = d.to_markdown();
    assert_eq!(first.content.as_bytes(), second.content.as_bytes());
}
