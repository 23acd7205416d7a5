use wwdc2md::extract::{
    RawItem, RawNote, RawResource, RawSample, RawSection, build_item, classify_resource,
    document_from_parts, video_from_parts,
};
use wwdc2md::records::{ContentType, ExtractError, ResourceType};
use wwdc2md::text::{sanitize_filename, split_timestamp, strip_zwsp};
use wwdc2md::render::output_filename;

#[test]
fn timestamp_split_with_separator() {
    let (ts, title) = split_timestamp("10:40 - Setting scene association behavior");
    assert_eq!(ts, "10:40");
    assert_eq!(title, "Setting scene association behavior");
}

#[test]
fn timestamp_split_without_separator() {
    let (ts, title) = split_timestamp("Configuring targets");
    assert_eq!(ts, "");
    assert_eq!(title, "Configuring targets");
}

#[test]
fn timestamp_split_takes_first_separator() {
    let (ts, title) = split_timestamp("1:00 - a - b");
    assert_eq!(ts, "1:00");
    assert_eq!(title, "a - b");
}

#[test]
fn timestamp_split_at_start() {
    let (ts, title) = split_timestamp(" - Title");
    assert_eq!(ts, "");
    assert_eq!(title, "Title");
}

#[test]
fn classify_download() {
    assert_eq!(classify_resource("links small download"), ResourceType::Download);
}

#[test]
fn classify_defaults_to_document() {
    assert_eq!(classify_resource("links small"), ResourceType::Document);
}

#[test]
fn classify_document_wins_over_download() {
    assert_eq!(classify_resource("download document"), ResourceType::Document);
}

#[test]
fn classify_video() {
    assert_eq!(classify_resource("links video"), ResourceType::Video);
}

#[test]
fn sanitize_replaces_and_lowercases() {
    assert_eq!(sanitize_filename("What's New in SwiftUI?"), "what's_new_in_swiftui_");
}

#[test]
fn sanitize_trims_whitespace() {
    assert_eq!(sanitize_filename("\tHello/World\t"), "hello_world");
}

#[test]
fn sanitize_empty_and_all_whitespace() {
    assert_eq!(sanitize_filename(""), "");
    assert_eq!(sanitize_filename("\t\n"), "");
    assert_eq!(sanitize_filename("   "), "___");
}

#[test]
fn video_filename_from_title() {
    let name = output_filename(ContentType::Video, "What's New in SwiftUI?");
    assert_eq!(name, "wwdc_video_what's_new_in_swiftui_.md");
}

#[test]
fn document_filename_uses_doc_tag() {
    let name = output_filename(ContentType::Document, "Sample Title");
    assert_eq!(name, "wwdc_doc_sample_title.md");
}

#[test]
fn strip_zwsp_removes_all() {
    assert_eq!(strip_zwsp("Foo\u{200B}Bar\u{200B}"), "FooBar");
}

#[test]
fn item_title_falls_back_to_span() {
    let item = build_item(&RawItem {
        primary: None,
        span: Some(String::from("Foo")),
        description: None,
        href: None,
        decorator: None,
    });
    assert_eq!(item.title, "Foo");
}

#[test]
fn item_title_empty_when_nothing_matches() {
    let item = build_item(&RawItem {
        primary: None,
        span: None,
        description: None,
        href: None,
        decorator: None,
    });
    assert_eq!(item.title, "");
    assert_eq!(item.description, "");
    assert_eq!(item.url, "");
    assert_eq!(item.item_type, "article");
}

#[test]
fn item_primary_title_strips_zwsp() {
    let item = build_item(&RawItem {
        primary: Some(String::from("Swift\u{200B}UI")),
        span: Some(String::from("ignored")),
        description: None,
        href: None,
        decorator: None,
    });
    assert_eq!(item.title, "SwiftUI");
}

#[test]
fn relative_href_gets_host_prefix() {
    let item = build_item(&RawItem {
        primary: Some(String::from("SwiftUI")),
        span: None,
        description: Some(String::from("A framework.")),
        href: Some(String::from("/documentation/swiftui")),
        decorator: Some(String::from("Framework")),
    });
    assert_eq!(item.url, "https://developer.apple.com/documentation/swiftui");
    assert_eq!(item.item_type, "Framework");
    assert_eq!(item.description, "A framework.");
}

#[test]
fn video_parts_missing_title_fails() {
    let r = video_from_parts(
        None,
        Some(String::from("overview")),
        Vec::new(),
        Vec::new(),
        Vec::new(),
        "https://example.org",
    );
    assert!(matches!(r, Err(ExtractError::MissingRequiredField)));
}

#[test]
fn video_parts_missing_overview_fails() {
    let r = video_from_parts(
        Some(String::from("title")),
        None,
        Vec::new(),
        Vec::new(),
        Vec::new(),
        "https://example.org",
    );
    assert!(matches!(r, Err(ExtractError::MissingRequiredField)));
}

#[test]
fn video_parts_join_and_filter() {
    let sentences = vec![String::from("First."), String::from("Second.")];
    let samples = vec![
        RawSample {
            title_text: Some(String::from("2:00 - Demo")),
            code: Some(String::from("let x = 1")),
        },
        RawSample { title_text: Some(String::from("skipped")), code: None },
        RawSample { title_text: None, code: Some(String::from("skipped too")) },
    ];
    let resources = vec![
        RawResource {
            href: Some(String::from("https://example.org/sample")),
            title: String::from("Sample Code"),
            classes: String::from("links small download"),
        },
        RawResource {
            href: None,
            title: String::from("No anchor"),
            classes: String::from("links small"),
        },
    ];
    let v = video_from_parts(
        Some(String::from("A Title")),
        Some(String::from("An overview.")),
        sentences,
        samples,
        resources,
        "https://example.org/videos/1",
    )
    .unwrap();
    assert_eq!(v.title, "A Title");
    assert_eq!(v.url, "https://example.org/videos/1");
    assert_eq!(v.overview, "An overview.");
    assert_eq!(v.transcript, "First. Second.");
    assert_eq!(v.code_samples.len(), 1);
    assert_eq!(v.code_samples[0].title, "Demo");
    assert_eq!(v.code_samples[0].timestamp, "2:00");
    assert_eq!(v.code_samples[0].code, "let x = 1");
    assert_eq!(v.code_samples[0].language, "swift");
    assert_eq!(v.resources.len(), 1);
    assert_eq!(v.resources[0].title, "Sample Code");
    assert_eq!(v.resources[0].url, "https://example.org/sample");
    assert_eq!(v.resources[0].resource_type, ResourceType::Download);
}

#[test]
fn document_parts_missing_title_fails() {
    let r = document_from_parts(None, None, Vec::new(), Vec::new(), Vec::new());
    assert!(matches!(r, Err(ExtractError::MissingRequiredField)));
}

#[test]
fn document_parts_defaults_and_joins() {
    let paras = vec![String::from("Para one."), String::from("Para two.")];
    let notes = vec![RawNote {
        label: Some(String::from("Note")),
        paras: vec![String::from("Body one."), String::from("Body two.")],
    }, RawNote { label: None, paras: Vec::new() }];
    let sections = vec![RawSection {
        title: None,
        items: vec![RawItem {
            primary: None,
            span: None,
            description: None,
            href: None,
            decorator: None,
        }],
    }];
    let d = document_from_parts(Some(String::from("Doc Title")), None, paras, notes, sections)
        .unwrap();
    assert_eq!(d.title, "Doc Title");
    assert_eq!(d.description, "");
    assert_eq!(d.overview, "Para one.\nPara two.");
    assert_eq!(d.notes.len(), 2);
    assert_eq!(d.notes[0], "Note: Body one.\nBody two.");
    assert_eq!(d.notes[1], ": ");
    assert_eq!(d.sections.len(), 1);
    assert_eq!(d.sections[0].title, "");
    assert_eq!(d.sections[0].items.len(), 1);
}

#[test]
fn document_parts_empty_collections() {
    let d = document_from_parts(
        Some(String::from("T")),
        None,
        Vec::new(),
        Vec::new(),
        Vec::new(),
    )
    .unwrap();
    assert_eq!(d.overview, "");
    assert!(d.notes.is_empty());
    assert!(d.sections.is_empty());
    let md = d.to_markdown();
    assert_eq!(md.content, "# T\n\n\n\n## Overview\n\n\n");
    assert!(!md.content.contains("## Notes"));
}

#[test]
fn error_messages() {
    assert_eq!(ExtractError::MissingRequiredField.message(), "missing required field");
    assert_eq!(ExtractError::TransportError.message(), "failed to fetch the page");
    assert_eq!(ExtractError::BrowserError.message(), "failed to drive the headless browser");
    assert_eq!(ExtractError::FilesystemError.message(), "failed to write the output file");
}

#[test]
fn resource_labels() {
    assert_eq!(ResourceType::Document.label(), "Documentation");
    assert_eq!(ResourceType::Download.label(), "Download");
    assert_eq!(ResourceType::Video.label(), "Video");
}
