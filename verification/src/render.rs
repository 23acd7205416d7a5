use vstd::prelude::*;
use vstd::string::StringExecFns;
use crate::records::{
    CodeSampleView, ContentType, DocumentItemView, MarkdownOutput, ResourceView, SectionView,
    WWDCDocument, WWDCDocumentView, WWDCVideo, WWDCVideoView, spec_content_tag,
    spec_resource_label,
};
use crate::text::{sanitize_filename, spec_sanitize};

verus! {

/// One bullet of the resources section.
pub open spec fn spec_resource_line(r: ResourceView) -> Seq<char> {
    "- ["@ + r.title + " ("@ + spec_resource_label(r.resource_type) + ")]("@ + r.url + ")\n"@
}

/// The bullets of the resources section, in order.
pub open spec fn spec_resource_lines(rs: Seq<ResourceView>) -> Seq<char>
    decreases rs.len(),
{
    if rs.len() == 0 {
        Seq::<char>::empty()
    } else {
        spec_resource_lines(rs.drop_last()) + spec_resource_line(rs.last())
    }
}

/// One code sample: a heading with the timestamp, then a fenced block.
pub open spec fn spec_sample_block(s: CodeSampleView) -> Seq<char> {
    "### "@ + s.title + " ("@ + s.timestamp + ")\n"@ + "```"@ + s.language + "\n"@ + s.code
        + "\n```\n\n"@
}

/// All code-sample blocks, in order.
pub open spec fn spec_sample_blocks(ss: Seq<CodeSampleView>) -> Seq<char>
    decreases ss.len(),
{
    if ss.len() == 0 {
        Seq::<char>::empty()
    } else {
        spec_sample_blocks(ss.drop_last()) + spec_sample_block(ss.last())
    }
}

/// The fixed head of a rendered video page: title, source URL, overview.
pub open spec fn spec_video_header(v: WWDCVideoView) -> Seq<char> {
    "# "@ + v.title + "\n"@ + "> "@ + v.url + "\n\n"@ + "## Overview\n"@ + v.overview + "\n\n"@
}

/// The resources section, present only when there are resources.
pub open spec fn spec_resources_section(v: WWDCVideoView) -> Seq<char> {
    if v.resources.len() == 0 {
        Seq::<char>::empty()
    } else {
        "## Resources\n"@ + spec_resource_lines(v.resources) + "\n"@
    }
}

/// The code-samples section, present only when there are samples.
pub open spec fn spec_samples_section(v: WWDCVideoView) -> Seq<char> {
    if v.code_samples.len() == 0 {
        Seq::<char>::empty()
    } else {
        "## Code Samples\n"@ + spec_sample_blocks(v.code_samples)
    }
}

/// The transcript section, present only when the transcript is non-empty.
pub open spec fn spec_transcript_section(v: WWDCVideoView) -> Seq<char> {
    if v.transcript.len() == 0 {
        Seq::<char>::empty()
    } else {
        "## Transcript\n"@ + v.transcript + "\n"@
    }
}

/// The full Markdown text rendered for a video record.
pub open spec fn spec_video_markdown(v: WWDCVideoView) -> Seq<char> {
    spec_video_header(v) + spec_resources_section(v) + spec_samples_section(v)
        + spec_transcript_section(v)
}

impl WWDCVideo {
    /// Renders this record as Markdown, paired with the title the output
    /// filename is derived from.
    pub fn to_markdown(&self) -> (r: MarkdownOutput)
        ensures
            r.content@ == spec_video_markdown(self@),
            r.title@ == self.title@,
    {
        let mut md = String::new();
        md.append("# ");
        md.append(self.title.as_str());
        md.append("\n");
        md.append("> ");
        md.append(self.url.as_str());
        md.append("\n\n");
        md.append("## Overview\n");
        md.append(self.overview.as_str());
        md.append("\n\n");
        proof {
            assert(md@ =~= spec_video_header(self@));
        }

        if self.resources.len() > 0 {
            md.append("## Resources\n");
            let mut i: usize = 0;
            while i < self.resources.len()
                invariant
                    0 <= i <= self.resources.len(),
                    md@ == spec_video_header(self@) + "## Resources\n"@ + spec_resource_lines(
                        self@.resources.take(i as int),
                    ),
                decreases self.resources.len() - i,
            {
                let r = &self.resources[i];
                md.append("- [");
                md.append(r.title.as_str());
                md.append(" (");
                md.append(r.resource_type.label());
                md.append(")](");
                md.append(r.url.as_str());
                md.append(")\n");
                proof {
                    let rs = self@.resources;
                    assert(rs.take(i + 1).drop_last() =~= rs.take(i as int));
                    assert(rs.take(i + 1).last() == rs[i as int]);
                    assert(md@ =~= spec_video_header(self@) + "## Resources\n"@
                        + spec_resource_lines(rs.take(i + 1)));
                }
                i += 1;
            }
            md.append("\n");
            proof {
                assert(self@.resources.take(self.resources.len() as int) =~= self@.resources);
                assert(md@ =~= spec_video_header(self@) + spec_resources_section(self@));
            }
        }
        proof {
            assert(md@ =~= spec_video_header(self@) + spec_resources_section(self@));
        }

        if self.code_samples.len() > 0 {
            md.append("## Code Samples\n");
            let ghost base = spec_video_header(self@) + spec_resources_section(self@)
                + "## Code Samples\n"@;
            let mut i: usize = 0;
            while i < self.code_samples.len()
                invariant
                    0 <= i <= self.code_samples.len(),
                    md@ == base + spec_sample_blocks(self@.code_samples.take(i as int)),
                decreases self.code_samples.len() - i,
            {
                let s = &self.code_samples[i];
                md.append("### ");
                md.append(s.title.as_str());
                md.append(" (");
                md.append(s.timestamp.as_str());
                md.append(")\n");
                md.append("```");
                md.append(s.language.as_str());
                md.append("\n");
                md.append(s.code.as_str());
                md.append("\n```\n\n");
                proof {
                    let ss = self@.code_samples;
                    assert(ss.take(i + 1).drop_last() =~= ss.take(i as int));
                    assert(ss.take(i + 1).last() == ss[i as int]);
                    assert(md@ =~= base + spec_sample_blocks(ss.take(i + 1)));
                }
                i += 1;
            }
            proof {
                assert(self@.code_samples.take(self.code_samples.len() as int)
                    =~= self@.code_samples);
            }
        }
        proof {
            assert(md@ =~= spec_video_header(self@) + spec_resources_section(self@)
                + spec_samples_section(self@));
        }

        if !self.transcript.as_str().is_empty() {
            md.append("## Transcript\n");
            md.append(self.transcript.as_str());
            md.append("\n");
        }
        proof {
            assert(md@ =~= spec_video_markdown(self@));
        }

        MarkdownOutput { content: md, title: self.title.clone() }
    }
}

/// One rendered document item: heading, description, documentation link.
pub open spec fn spec_item_block(i: DocumentItemView) -> Seq<char> {
    "### "@ + i.item_type + " `"@ + i.title + "`\n"@ + i.description + "\n\n"@
        + "[Documentation]("@ + i.url + ")\n\n"@
}

/// All item blocks of one section, in order.
pub open spec fn spec_item_blocks(items: Seq<DocumentItemView>) -> Seq<char>
    decreases items.len(),
{
    if items.len() == 0 {
        Seq::<char>::empty()
    } else {
        spec_item_blocks(items.drop_last()) + spec_item_block(items.last())
    }
}

/// One rendered section: its heading and its items.
pub open spec fn spec_section_block(s: SectionView) -> Seq<char> {
    "## "@ + s.title + "\n\n"@ + spec_item_blocks(s.items)
}

/// All rendered sections, in order.
pub open spec fn spec_section_blocks(ss: Seq<SectionView>) -> Seq<char>
    decreases ss.len(),
{
    if ss.len() == 0 {
        Seq::<char>::empty()
    } else {
        spec_section_blocks(ss.drop_last()) + spec_section_block(ss.last())
    }
}

/// Each note followed by a blank line.
pub open spec fn spec_note_lines(notes: Seq<Seq<char>>) -> Seq<char>
    decreases notes.len(),
{
    if notes.len() == 0 {
        Seq::<char>::empty()
    } else {
        spec_note_lines(notes.drop_last()) + notes.last() + "\n\n"@
    }
}

/// The fixed head of a rendered document page.
pub open spec fn spec_document_header(d: WWDCDocumentView) -> Seq<char> {
    "# "@ + d.title + "\n\n"@ + d.description + "\n\n"@ + "## Overview\n"@ + d.overview + "\n\n"@
}

/// The notes section, present only when there are notes.
pub open spec fn spec_notes_section(d: WWDCDocumentView) -> Seq<char> {
    if d.notes.len() == 0 {
        Seq::<char>::empty()
    } else {
        "## Notes\n"@ + spec_note_lines(d.notes)
    }
}

/// The full Markdown text rendered for a document record.
pub open spec fn spec_document_markdown(d: WWDCDocumentView) -> Seq<char> {
    spec_document_header(d) + spec_notes_section(d) + spec_section_blocks(d.sections)
}

impl WWDCDocument {
    /// Renders this record as Markdown, paired with the title the output
    /// filename is derived from.
    pub fn to_markdown(&self) -> (r: MarkdownOutput)
        ensures
            r.content@ == spec_document_markdown(self@),
            r.title@ == self.title@,
    {
        let mut md = String::new();
        md.append("# ");
        md.append(self.title.as_str());
        md.append("\n\n");
        md.append(self.description.as_str());
        md.append("\n\n");
        md.append("## Overview\n");
        md.append(self.overview.as_str());
        md.append("\n\n");
        proof {
            assert(md@ =~= spec_document_header(self@));
        }

        if self.notes.len() > 0 {
            md.append("## Notes\n");
            let mut i: usize = 0;
            while i < self.notes.len()
                invariant
                    0 <= i <= self.notes.len(),
                    md@ == spec_document_header(self@) + "## Notes\n"@ + spec_note_lines(
                        self@.notes.take(i as int),
                    ),
                decreases self.notes.len() - i,
            {
                md.append(self.notes[i].as_str());
                md.append("\n\n");
                proof {
                    let ns = self@.notes;
                    assert(ns.take(i + 1).drop_last() =~= ns.take(i as int));
                    assert(ns.take(i + 1).last() == ns[i as int]);
                    assert(md@ =~= spec_document_header(self@) + "## Notes\n"@ + spec_note_lines(
                        ns.take(i + 1),
                    ));
                }
                i += 1;
            }
            proof {
                assert(self@.notes.take(self.notes.len() as int) =~= self@.notes);
            }
        }
        proof {
            assert(md@ =~= spec_document_header(self@) + spec_notes_section(self@));
        }

        let ghost base = spec_document_header(self@) + spec_notes_section(self@);
        let mut i: usize = 0;
        while i < self.sections.len()
            invariant
                0 <= i <= self.sections.len(),
                md@ == base + spec_section_blocks(self@.sections.take(i as int)),
            decreases self.sections.len() - i,
        {
            let sec = &self.sections[i];
            md.append("## ");
            md.append(sec.title.as_str());
            md.append("\n\n");
            let ghost inner_base = base + spec_section_blocks(self@.sections.take(i as int))
                + "## "@ + sec@.title + "\n\n"@;
            let mut j: usize = 0;
            while j < sec.items.len()
                invariant
                    0 <= j <= sec.items.len(),
                    md@ == inner_base + spec_item_blocks(sec@.items.take(j as int)),
                decreases sec.items.len() - j,
            {
                let item = &sec.items[j];
                md.append("### ");
                md.append(item.item_type.as_str());
                md.append(" `");
                md.append(item.title.as_str());
                md.append("`\n");
                md.append(item.description.as_str());
                md.append("\n\n");
                md.append("[Documentation](");
                md.append(item.url.as_str());
                md.append(")\n\n");
                proof {
                    let its = sec@.items;
                    assert(its.take(j + 1).drop_last() =~= its.take(j as int));
                    assert(its.take(j + 1).last() == its[j as int]);
                    assert(md@ =~= inner_base + spec_item_blocks(its.take(j + 1)));
                }
                j += 1;
            }
            proof {
                let ss = self@.sections;
                assert(sec@.items.take(sec.items.len() as int) =~= sec@.items);
                assert(ss.take(i + 1).drop_last() =~= ss.take(i as int));
                assert(ss.take(i + 1).last() == ss[i as int]);
                assert(md@ =~= base + spec_section_blocks(ss.take(i + 1)));
            }
            i += 1;
        }
        proof {
            assert(self@.sections.take(self.sections.len() as int) =~= self@.sections);
            assert(md@ =~= spec_document_markdown(self@));
        }

        MarkdownOutput { content: md, title: self.title.clone() }
    }
}

/// The name of the output file written for a rendered page.
pub open spec fn spec_output_filename(t: ContentType, title: Seq<char>) -> Seq<char> {
    "wwdc_"@ + spec_content_tag(t) + "_"@ + spec_sanitize(title) + ".md"@
}

/// Builds the output filename for a content type and a page title.
pub fn output_filename(t: ContentType, title: &str) -> (r: String)
    ensures
        r@ == spec_output_filename(t, title@),
{
    let mut out = String::from_str("wwdc_");
    out.append(t.tag());
    out.append("_");
    let sanitized = sanitize_filename(title);
    out.append(sanitized.as_str());
    out.append(".md");
    proof {
        assert(out@ =~= spec_output_filename(t, title@));
    }
    out
}

/// Rendering is a pure function of the record: two video records with equal
/// values render to byte-identical Markdown.
pub proof fn lemma_video_render_deterministic(a: WWDCVideoView, b: WWDCVideoView)
    requires
        a == b,
    ensures
        spec_video_markdown(a) == spec_video_markdown(b),
{
}

/// Rendering is a pure function of the record: two document records with
/// equal values render to byte-identical Markdown.
pub proof fn lemma_document_render_deterministic(a: WWDCDocumentView, b: WWDCDocumentView)
    requires
        a == b,
    ensures
        spec_document_markdown(a) == spec_document_markdown(b),
{
}

/// A video record with no code samples renders to exactly the other three
/// parts: the code-samples section contributes nothing at all.
pub proof fn lemma_no_samples_no_section(v: WWDCVideoView)
    requires
        v.code_samples.len() == 0,
    ensures
        spec_video_markdown(v) == spec_video_header(v) + spec_resources_section(v)
            + spec_transcript_section(v),
{
    assert(spec_video_markdown(v) =~= spec_video_header(v) + spec_resources_section(v)
        + spec_transcript_section(v));
}

} // verus!
