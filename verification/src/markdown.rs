//! What stands at the head of a markdown document: a leading heading, a
//! code block that holds the fields of the post, and where the body begins.
//!
//! The head is found by the extractor of frontmatter, which draws events
//! from the markdown reader: those of the head and then, unless the
//! document ends with its head, the first event of the body. The body
//! begins right after the head, so that nothing of it is lost, whatever
//! it opens with.

use vstd::prelude::*;
use crate::error::CommandError;
use crate::text::{is_boundary, opt_view, same_text, tail_from, tail_of, trim, trimmed};

verus! {

/// A code block at the head of a document.
#[derive(Clone, Debug, PartialEq, Eq)]
pub struct CodeBlock {
    /// What follows the fence that opens the block: the empty text for a
    /// fence with nothing behind it, none for a block that is set off by
    /// indentation. Both stand for YAML.
    pub language: Option<String>,
    /// The text inside the block.
    pub source: String,
}

/// What was found at the head of a document.
#[derive(Clone, Debug, PartialEq, Eq)]
pub struct Frontmatter {
    /// The text of the leading heading of the first level.
    pub title: Option<String>,
    /// The code block that follows it.
    pub code_block: Option<CodeBlock>,
}

/// An event that the extractor drew from the markdown reader.
#[derive(Clone, Copy, Debug, PartialEq, Eq, Structural)]
pub struct Drawn {
    /// Whether the event closes an element.
    pub closes: bool,
    /// The byte position at which the element of the event begins.
    pub start: usize,
    /// The byte position at which the element of the event ends.
    pub end: usize,
}

/// The head of a document, and the events that were drawn to find it.
#[derive(Clone, Debug, PartialEq, Eq)]
pub struct Scan {
    /// What was found at the head, if anything.
    pub frontmatter: Option<Frontmatter>,
    /// The events that the extractor drew, in their order.
    pub drawn: Vec<Drawn>,
}

/// A [`CodeBlock`] with its texts as sequences of characters.
pub struct CodeBlockView {
    pub language: Option<Seq<char>>,
    pub source: Seq<char>,
}

/// A [`Frontmatter`] with its texts as sequences of characters.
pub struct FrontmatterView {
    pub title: Option<Seq<char>>,
    pub code_block: Option<CodeBlockView>,
}

/// A [`Scan`] with its texts as sequences of characters.
pub struct ScanView {
    pub frontmatter: Option<FrontmatterView>,
    pub drawn: Seq<Drawn>,
}

impl View for CodeBlock {
    type V = CodeBlockView;

    open spec fn view(&self) -> CodeBlockView {
        CodeBlockView { language: opt_view(self.language), source: self.source@ }
    }
}

impl View for Frontmatter {
    type V = FrontmatterView;

    open spec fn view(&self) -> FrontmatterView {
        FrontmatterView {
            title: opt_view(self.title),
            code_block: match self.code_block {
                Some(block) => Some(block@),
                None => None,
            },
        }
    }
}

impl View for Scan {
    type V = ScanView;

    open spec fn view(&self) -> ScanView {
        ScanView {
            frontmatter: match self.frontmatter {
                Some(found) => Some(found@),
                None => None,
            },
            drawn: self.drawn@,
        }
    }
}

/// What the markdown reader finds at the head of `content`.
pub uninterp spec fn scan_of(content: Seq<char>) -> ScanView;

/// Reads the head of a markdown document.
///
/// Trusted: parses `content` with `pulldown_cmark::Parser::new_ext`, all
/// options on, and lets
/// `pulldown_cmark_frontmatter::FrontmatterExtractor::extract` draw the
/// events of `into_offset_iter`. Hands back the extractor's title and code
/// block, and of each event that it drew whether it closes an element and
/// the span that the reader gives for it. The result depends on the text
/// alone.
#[verifier::external_body]
fn scan_markdown(content: &str) -> (r: Scan)
    ensures
        r@ == scan_of(content@),
{
    let mut drawn = Vec::new();
    let reader = pulldown_cmark::Parser::new_ext(content, pulldown_cmark::Options::all());
    let events = reader.into_offset_iter().map(|(event, span)| {
        let closes = matches!(event, pulldown_cmark::Event::End(_));
        drawn.push(Drawn { closes, start: span.start, end: span.end });
        event
    });
    let found = pulldown_cmark_frontmatter::FrontmatterExtractor::new(events).extract();
    let block = |c: pulldown_cmark_frontmatter::CodeBlock<'_>| CodeBlock {
        language: c.language.map(|l| l.to_string()),
        source: c.source.to_string(),
    };
    let frontmatter =
        found.map(|f| Frontmatter { title: f.title, code_block: f.code_block.map(block) });
    Scan { frontmatter, drawn }
}

/// The language in which the fields of a post are written.
#[derive(Clone, Copy, Debug, PartialEq, Eq, Structural)]
pub enum Language {
    Yaml,
    Json,
}

/// The language that the mark of a code block stands for: YAML for a block
/// without a mark, be it indented or fenced, and for `yaml` and `yml`,
/// JSON for `json`, none for any other mark.
pub open spec fn language_spec(tag: Option<Seq<char>>) -> Option<Language> {
    match tag {
        None => Some(Language::Yaml),
        Some(t) => if t.len() == 0 || t == "yaml"@ || t == "yml"@ {
            Some(Language::Yaml)
        } else if t == "json"@ {
            Some(Language::Json)
        } else {
            None
        },
    }
}

/// The byte position right after the head of a document, given whether
/// a head was found and the events that were drawn to find it: the end of
/// the last element of the head. That element closes with the last event
/// drawn where the document ends with its head, else with the event
/// before it, the last being the first of the body. Without a head the
/// position is 0.
pub open spec fn head_end(found: bool, drawn: Seq<Drawn>) -> usize {
    let n = drawn.len() as int;
    if !found || n == 0 {
        0
    } else if drawn[n - 1].closes {
        drawn[n - 1].end
    } else if n >= 2 && drawn[n - 2].closes {
        drawn[n - 2].end
    } else {
        drawn[n - 1].start
    }
}

/// The body of a document whose head ends at the byte position `start`:
/// what stands from there on, without the white space around it, and none
/// where that is empty.
pub open spec fn body_spec(content: Seq<char>, start: int) -> Option<Seq<char>> {
    let text = trimmed(tail_of(content, start));
    if text.len() == 0 {
        None
    } else {
        Some(text)
    }
}

impl Language {
    /// The language that the mark of a code block stands for. A block
    /// without a mark is YAML. Any mark but `yaml`, `yml` and `json` is
    /// refused, and the error names it.
    pub fn of_tag(tag: &Option<String>) -> (r: Result<Language, CommandError>)
        ensures
            match language_spec(opt_view(*tag)) {
                Some(language) => r == Ok::<Language, CommandError>(language),
                None => r matches Err(e) && e@ == crate::error::CommandErrorView::UnsupportedFrontmatterLanguage(
                    tag->Some_0@,
                ),
            },
    {
        match tag {
            None => Ok(Language::Yaml),
            Some(t) => {
                if t.as_str().is_empty() || same_text(t.as_str(), "yaml") || same_text(
                    t.as_str(),
                    "yml",
                ) {
                    Ok(Language::Yaml)
                } else if same_text(t.as_str(), "json") {
                    Ok(Language::Json)
                } else {
                    Err(CommandError::UnsupportedFrontmatterLanguage(t.clone()))
                }
            },
        }
    }
}

impl Scan {
    /// What stands at the head of `content`.
    pub fn of(content: &str) -> (r: Scan)
        ensures
            r@ == scan_of(content@),
    {
        scan_markdown(content)
    }

    /// The byte position at which the body begins: right after the head,
    /// or at 0 where there is no head.
    pub fn body_start(&self) -> (r: usize)
        ensures
            r == head_end(self@.frontmatter is Some, self@.drawn),
    {
        let n = self.drawn.len();
        if self.frontmatter.is_none() || n == 0 {
            0
        } else if self.drawn[n - 1].closes {
            self.drawn[n - 1].end
        } else if n >= 2 && self.drawn[n - 2].closes {
            self.drawn[n - 2].end
        } else {
            self.drawn[n - 1].start
        }
    }
}

/// The body of `content` where its head ends at the byte position `start`.
/// A position that does not lie between two characters is refused.
pub fn body_of(content: &str, start: usize) -> (r: Result<Option<String>, CommandError>)
    ensures
        !is_boundary(content@, start as int) ==> (r matches Err(e) && e@
            == crate::error::CommandErrorView::BodyOffset(start)),
        is_boundary(content@, start as int) ==> (r matches Ok(body) && opt_view(body) == body_spec(
            content@,
            start as int,
        )),
{
    match tail_from(content, start) {
        Some(tail) => {
            let text = trim(tail);
            if text.is_empty() {
                Ok(None)
            } else {
                Ok(Some(text.to_owned()))
            }
        },
        None => Err(CommandError::BodyOffset(start)),
    }
}

} // verus!
