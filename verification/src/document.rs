//! Assembly of the output document: a title and metadata section, an
//! optional timeline diagram of slide transitions, and one detail section
//! per slide with its timestamp, image reference, and recognized text.
//!
//! The document text is assembled and verified here; writing it to disk
//! happens outside this library.

use vstd::prelude::*;
use crate::decimal::{dec_digits, u64_to_dec};
use crate::error::{DomainResult, ExtractionError};
use crate::ids::{Id, YouTubeVideo};
use crate::text::{rfind_char, spec_rfind_char, spec_trim, trim};

verus! {

/// One slide as the document shows it.
#[derive(Debug)]
pub struct SlideData {
    /// One-based position in emission order.
    pub slide_index: u32,
    /// Seconds from video start of the representative frame.
    pub timestamp: u64,
    /// Path of the preserved image.
    pub image_path: String,
    /// The recognized text.
    pub text: String,
}

impl Clone for SlideData {
    fn clone(&self) -> (r: Self)
        ensures
            r == *self,
    {
        SlideData {
            slide_index: self.slide_index,
            timestamp: self.timestamp,
            image_path: self.image_path.clone(),
            text: self.text.clone(),
        }
    }
}

/// Request to assemble the output document.
#[derive(Debug, Clone)]
pub struct GenerateDocumentCommand {
    /// The video the document describes.
    pub video_id: Id<YouTubeVideo>,
    /// The video's title.
    pub title: String,
    /// The video's locator.
    pub url: String,
    /// The video's duration in seconds.
    pub duration: u64,
    /// The slides, in emission order.
    pub slides: Vec<SlideData>,
    /// Where the document will be written.
    pub output_path: String,
    /// Whether the timeline diagram is included.
    pub include_timeline_diagram: bool,
}

/// Event: the output document was assembled.
#[derive(Debug, Clone)]
pub struct DocumentGenerated {
    pub video_id: Id<YouTubeVideo>,
    /// Where the document was written.
    pub file_path: String,
    /// How many slides it describes.
    pub slide_count: u32,
}

/// The file name an image is referred to by: the text after the last path
/// separator, or a placeholder name when there is none.
pub open spec fn spec_basename(p: Seq<char>) -> Seq<char> {
    let i = spec_rfind_char(p, '/');
    let name = if i == -1 {
        p
    } else {
        p.subrange(i + 1, p.len() as int)
    };
    if name.len() == 0 {
        "image.jpg"@
    } else {
        name
    }
}

/// One node of the timeline diagram, with its edge from the slide before.
pub open spec fn spec_timeline_node(idx: u32, ts: u64) -> Seq<char> {
    "    S"@ + dec_digits(idx as nat) + "[\"Slide "@ + dec_digits(idx as nat) + " ("@
        + dec_digits(ts as nat) + "s)\"]\n"@ + (if idx > 1 {
        "    S"@ + dec_digits((idx - 1) as nat) + " --> S"@ + dec_digits(idx as nat) + "\n"@
    } else {
        Seq::empty()
    })
}

/// The timeline nodes from position `k` on.
pub open spec fn spec_timeline_nodes(slides: Seq<SlideData>, k: int) -> Seq<char>
    decreases slides.len() - k,
    when 0 <= k
{
    if k >= slides.len() {
        Seq::empty()
    } else {
        spec_timeline_node(slides[k].slide_index, slides[k].timestamp) + spec_timeline_nodes(
            slides,
            k + 1,
        )
    }
}

/// The timeline section.
pub open spec fn spec_timeline(slides: Seq<SlideData>) -> Seq<char> {
    "## Timeline\n\n```mermaid\ngraph LR\n"@ + spec_timeline_nodes(slides, 0) + "```\n\n"@
}

/// One slide's detail section.
pub open spec fn spec_detail(slide: SlideData) -> Seq<char> {
    "### Slide "@ + dec_digits(slide.slide_index as nat) + "\n\n- **Timestamp:** "@ + dec_digits(
        slide.timestamp as nat,
    ) + "s\n\n![Slide "@ + dec_digits(slide.slide_index as nat) + "]("@ + spec_basename(
        slide.image_path@,
    ) + ")\n\n#### Extracted Text\n\n"@ + (if spec_trim(slide.text@).len() == 0 {
        "*No text detected.*\n\n"@
    } else {
        spec_trim(slide.text@) + "\n\n"@
    }) + "---\n\n"@
}

/// The detail sections from position `k` on.
pub open spec fn spec_details(slides: Seq<SlideData>, k: int) -> Seq<char>
    decreases slides.len() - k,
    when 0 <= k
{
    if k >= slides.len() {
        Seq::empty()
    } else {
        spec_detail(slides[k]) + spec_details(slides, k + 1)
    }
}

/// The whole document.
pub open spec fn spec_document(c: GenerateDocumentCommand) -> Seq<char> {
    "# "@ + c.title@ + "\n\n## Video Information\n\n- **URL:** "@ + c.url@ + "\n- **Duration:** "@
        + dec_digits(c.duration as nat) + " seconds\n- **Extracted Slides:** "@ + dec_digits(
        c.slides@.len(),
    ) + "\n\n"@ + (if c.include_timeline_diagram {
        spec_timeline(c.slides@)
    } else {
        Seq::empty()
    }) + "## Slides Detail\n\n"@ + spec_details(c.slides@, 0)
}

/// Extracts the file name an image is referred to by.
fn basename(p: &str) -> (r: String)
    ensures
        r@ == spec_basename(p@),
{
    let n: usize = p.unicode_len();
    match rfind_char(p, '/') {
        None => {
            if n == 0 {
                String::from_str("image.jpg")
            } else {
                let whole = String::from_str(p.substring_char(0, n));
                proof {
                    assert(whole@ =~= p@);
                }
                whole
            }
        },
        Some(i) => {
            if i + 1 >= n {
                String::from_str("image.jpg")
            } else {
                String::from_str(p.substring_char(i + 1, n))
            }
        },
    }
}

/// Renders one timeline node.
fn render_timeline_node(idx: u32, ts: u64) -> (r: String)
    ensures
        r@ == spec_timeline_node(idx, ts),
{
    let mut s = String::from_str("    S");
    let d1 = u64_to_dec(idx as u64);
    s.append(d1.as_str());
    s.append("[\"Slide ");
    s.append(d1.as_str());
    s.append(" (");
    let dt = u64_to_dec(ts);
    s.append(dt.as_str());
    s.append("s)\"]\n");
    if idx > 1 {
        s.append("    S");
        let d0 = u64_to_dec((idx - 1) as u64);
        s.append(d0.as_str());
        s.append(" --> S");
        s.append(d1.as_str());
        s.append("\n");
    }
    proof {
        assert(s@ =~= spec_timeline_node(idx, ts));
    }
    s
}

/// Renders one slide's detail section.
fn render_detail(slide: &SlideData) -> (r: String)
    ensures
        r@ == spec_detail(*slide),
{
    let mut s = String::from_str("### Slide ");
    let d = u64_to_dec(slide.slide_index as u64);
    s.append(d.as_str());
    s.append("\n\n- **Timestamp:** ");
    let dt = u64_to_dec(slide.timestamp);
    s.append(dt.as_str());
    s.append("s\n\n![Slide ");
    s.append(d.as_str());
    s.append("](");
    let name = basename(slide.image_path.as_str());
    s.append(name.as_str());
    s.append(")\n\n#### Extracted Text\n\n");
    let trimmed = trim(slide.text.as_str());
    if trimmed.as_str().unicode_len() == 0 {
        s.append("*No text detected.*\n\n");
    } else {
        s.append(trimmed.as_str());
        s.append("\n\n");
    }
    s.append("---\n\n");
    proof {
        assert(s@ =~= spec_detail(*slide));
    }
    s
}

/// Assembles the output document for a run.  An empty slide list is a
/// failure: a run must describe at least one slide.  On success the
/// document text is returned along with the event naming its destination
/// and slide count.
pub fn handle_generate_document(command: GenerateDocumentCommand) -> (r: DomainResult<
    (DocumentGenerated, String),
>)
    ensures
        r is Err <==> command.slides@.len() == 0,
        r is Err ==> r->Err_0 is InternalError && r->Err_0->InternalError_0@
            == "Cannot generate document with no slides"@,
        r is Ok ==> ({
            let (event, content) = r->Ok_0;
            &&& event.video_id == command.video_id
            &&& event.file_path == command.output_path
            &&& event.slide_count == command.slides@.len() as u32
            &&& content@ == spec_document(command)
        }),
{
    if command.slides.len() == 0 {
        return Err(
            ExtractionError::InternalError(
                String::from_str("Cannot generate document with no slides"),
            ),
        );
    }
    let mut content = String::from_str("# ");
    content.append(command.title.as_str());
    content.append("\n\n## Video Information\n\n- **URL:** ");
    content.append(command.url.as_str());
    content.append("\n- **Duration:** ");
    let dd = u64_to_dec(command.duration);
    content.append(dd.as_str());
    content.append(" seconds\n- **Extracted Slides:** ");
    let dc = u64_to_dec(command.slides.len() as u64);
    content.append(dc.as_str());
    content.append("\n\n");
    let ghost header = content@;
    proof {
        assert(header =~= "# "@ + command.title@ + "\n\n## Video Information\n\n- **URL:** "@
            + command.url@ + "\n- **Duration:** "@ + dec_digits(command.duration as nat)
            + " seconds\n- **Extracted Slides:** "@ + dec_digits(command.slides@.len())
            + "\n\n"@);
    }

    if command.include_timeline_diagram {
        content.append("## Timeline\n\n```mermaid\ngraph LR\n");
        let mut k: usize = 0;
        let ghost timeline_head = content@;
        while k < command.slides.len()
            invariant
                0 <= k <= command.slides@.len(),
                content@ + spec_timeline_nodes(command.slides@, k as int) == timeline_head
                    + spec_timeline_nodes(command.slides@, 0),
            decreases command.slides@.len() - k,
        {
            let node = render_timeline_node(
                command.slides[k].slide_index,
                command.slides[k].timestamp,
            );
            content.append(node.as_str());
            proof {
                assert(content@ + spec_timeline_nodes(command.slides@, k + 1) =~= timeline_head
                    + spec_timeline_nodes(command.slides@, 0));
            }
            k = k + 1;
        }
        proof {
            assert(spec_timeline_nodes(command.slides@, command.slides@.len() as int)
                =~= Seq::<char>::empty());
        }
        content.append("```\n\n");
        proof {
            assert(content@ =~= header + spec_timeline(command.slides@));
        }
    }
    let ghost before_details = content@;
    proof {
        if command.include_timeline_diagram {
            assert(before_details == header + spec_timeline(command.slides@));
        } else {
            assert(before_details == header);
        }
    }

    content.append("## Slides Detail\n\n");
    let ghost details_head = content@;
    let mut k: usize = 0;
    while k < command.slides.len()
        invariant
            0 <= k <= command.slides@.len(),
            content@ + spec_details(command.slides@, k as int) == details_head + spec_details(
                command.slides@,
                0,
            ),
        decreases command.slides@.len() - k,
    {
        let section = render_detail(&command.slides[k]);
        content.append(section.as_str());
        proof {
            assert(content@ + spec_details(command.slides@, k + 1) =~= details_head
                + spec_details(command.slides@, 0));
        }
        k = k + 1;
    }
    proof {
        assert(spec_details(command.slides@, command.slides@.len() as int)
            =~= Seq::<char>::empty());
        assert(content@ =~= details_head + spec_details(command.slides@, 0));
        assert(content@ =~= spec_document(command));
    }

    let slide_count: u32 = #[verifier::truncate] (command.slides.len() as u32);
    let event = DocumentGenerated {
        video_id: command.video_id,
        file_path: command.output_path,
        slide_count,
    };
    Ok((event, content))
}

} // verus!
