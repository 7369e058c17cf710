//! The post as it is held locally: every field may be absent.

use vstd::prelude::*;
use crate::date::Moment;
use crate::dateformat::PublishDate;
use crate::error::{CommandError, CommandErrorView};
use crate::fields::{block_spec, decode_fields, decode_spec, read_block};
use crate::markdown::{
    body_of, body_spec, head_end, scan_of, Frontmatter, FrontmatterView, Scan,
};
use crate::text::{clone_opt, is_boundary, opt_view};

verus! {

/// A post as assembled from the command line and from a file. Each field
/// is given or not, whatever the others are.
#[derive(Clone, Debug, PartialEq, Eq)]
pub struct PostInput {
    pub title: Option<String>,
    pub slug: Option<String>,
    pub published_at: Option<PublishDate>,
    pub body: Option<String>,
}

/// A [`PostInput`] with its texts as sequences of characters.
pub struct PostInputView {
    pub title: Option<Seq<char>>,
    pub slug: Option<Seq<char>>,
    pub published_at: Option<PublishDate>,
    pub body: Option<Seq<char>>,
}

impl View for PostInput {
    type V = PostInputView;

    open spec fn view(&self) -> PostInputView {
        PostInputView {
            title: opt_view(self.title),
            slug: opt_view(self.slug),
            published_at: self.published_at,
            body: opt_view(self.body),
        }
    }
}

/// `first` where it is given, else `second`.
pub open spec fn or_else<T>(first: Option<T>, second: Option<T>) -> Option<T> {
    match first {
        Some(_) => first,
        None => second,
    }
}

impl PostInputView {
    /// The post without any field.
    pub open spec fn empty() -> PostInputView {
        PostInputView { title: None, slug: None, published_at: None, body: None }
    }

    /// This post, with each field that it lacks taken from `other`.
    pub open spec fn merged(self, other: PostInputView) -> PostInputView {
        PostInputView {
            title: or_else(self.title, other.title),
            slug: or_else(self.slug, other.slug),
            published_at: or_else(self.published_at, other.published_at),
            body: or_else(self.body, other.body),
        }
    }

    /// A publish date, if given, holds a day that exists.
    pub open spec fn wf(self) -> bool {
        self.published_at matches Some(date) ==> date.wf()
    }
}

/// The post that the fields of a block, the leading heading and the body
/// make: the title of the block where it has one, else the heading.
pub open spec fn with_heading(
    meta: PostInputView,
    heading: Option<Seq<char>>,
    body: Option<Seq<char>>,
) -> PostInputView {
    PostInputView { title: or_else(meta.title, heading), body, ..meta }
}

/// The post that the head of a document and its body make. Without a head
/// it is the body alone; without a code block, the heading and the body.
pub open spec fn from_frontmatter_spec(
    found: Option<FrontmatterView>,
    body: Option<Seq<char>>,
    now: Moment,
) -> Result<PostInputView, CommandErrorView> {
    match found {
        None => Ok(PostInputView { body, ..PostInputView::empty() }),
        Some(head) => match head.code_block {
            None => Ok(PostInputView { title: head.title, body, ..PostInputView::empty() }),
            Some(block) => match block_spec(block.language, block.source) {
                Err(error) => Err(error),
                Ok(entries) => match decode_spec(entries, now) {
                    Err(fault) => Err(CommandErrorView::FrontmatterDecode(fault)),
                    Ok(meta) => Ok(with_heading(meta, head.title, body)),
                },
            },
        },
    }
}

/// The post that a markdown document stands for, with the clock at `now`.
pub open spec fn from_markdown_spec(content: Seq<char>, now: Moment) -> Result<
    PostInputView,
    CommandErrorView,
> {
    let scan = scan_of(content);
    let start = head_end(scan.frontmatter is Some, scan.drawn);
    if is_boundary(content, start as int) {
        from_frontmatter_spec(scan.frontmatter, body_spec(content, start as int), now)
    } else {
        Err(CommandErrorView::BodyOffset(start))
    }
}

/// A result of reading a post, with its texts as sequences of characters.
pub open spec fn post_result_view(r: Result<PostInput, CommandError>) -> Result<
    PostInputView,
    CommandErrorView,
> {
    match r {
        Ok(post) => Ok(post@),
        Err(error) => Err(error@),
    }
}

impl Default for PostInput {
    fn default() -> (r: PostInput)
        ensures
            r@ == PostInputView::empty(),
    {
        PostInput { title: None, slug: None, published_at: None, body: None }
    }
}

impl PostInput {
    /// The post with the given title, slug and publish date and no body.
    pub fn new(title: Option<String>, slug: Option<String>, published_at: Option<PublishDate>) -> (r:
        PostInput)
        ensures
            r@ == (PostInputView {
                title: opt_view(title),
                slug: opt_view(slug),
                published_at,
                body: None,
            }),
    {
        PostInput { title, slug, published_at, body: None }
    }

    /// Fills each field that this post lacks from `other`. A field that
    /// this post holds stays as it is, whatever `other` holds.
    pub fn merge(&mut self, other: PostInput)
        ensures
            final(self)@ == old(self)@.merged(other@),
    {
        if self.title.is_none() {
            self.title = other.title;
        }
        if self.slug.is_none() {
            self.slug = other.slug;
        }
        if self.published_at.is_none() {
            self.published_at = other.published_at;
        }
        if self.body.is_none() {
            self.body = other.body;
        }
    }

    /// The post that the fields of a block, the leading heading and the
    /// body make. A title among the fields wins over the heading.
    pub fn from_parts(meta: PostInput, heading: Option<String>, body: Option<String>) -> (r:
        PostInput)
        ensures
            r@ == with_heading(meta@, opt_view(heading), opt_view(body)),
    {
        let title = match meta.title {
            Some(title) => Some(title),
            None => heading,
        };
        PostInput { title, slug: meta.slug, published_at: meta.published_at, body }
    }

    /// The post that the head of a document and its body make, with the
    /// clock at `now`.
    pub fn from_frontmatter(found: Option<Frontmatter>, body: Option<String>, now: &Moment) -> (r:
        Result<PostInput, CommandError>)
        requires
            now.wf(),
        ensures
            post_result_view(r) == from_frontmatter_spec(
                match found {
                    Some(head) => Some(head@),
                    None => None,
                },
                opt_view(body),
                *now,
            ),
            r matches Ok(post) ==> post@.wf(),
    {
        let head = match found {
            Some(head) => head,
            None => {
                return Ok(PostInput { title: None, slug: None, published_at: None, body });
            },
        };
        let block = match head.code_block {
            Some(block) => block,
            None => {
                return Ok(PostInput { title: head.title, slug: None, published_at: None, body });
            },
        };
        let entries = match read_block(&block) {
            Ok(entries) => entries,
            Err(error) => {
                return Err(error);
            },
        };
        match decode_fields(&entries, now) {
            Ok(meta) => Ok(PostInput::from_parts(meta, head.title, body)),
            Err(fault) => Err(CommandError::FrontmatterDecode(fault)),
        }
    }

    /// Reads a post from a markdown document, with the clock at `now`: the
    /// title from a leading heading, the fields from the code block that
    /// follows, the body from all that stands after the two.
    pub fn from_markdown(content: &str, now: &Moment) -> (r: Result<PostInput, CommandError>)
        requires
            now.wf(),
        ensures
            post_result_view(r) == from_markdown_spec(content@, *now),
            r matches Ok(post) ==> post@.wf(),
    {
        let scan = Scan::of(content);
        let body = match body_of(content, scan.body_start()) {
            Ok(body) => body,
            Err(error) => {
                return Err(error);
            },
        };
        PostInput::from_frontmatter(scan.frontmatter, body, now)
    }

    /// Fills each field that this post lacks from the markdown document
    /// `content`. Where the document cannot be read, the post stays as it
    /// is.
    pub fn update(&mut self, content: &str, now: &Moment) -> (r: Result<(), CommandError>)
        requires
            now.wf(),
        ensures
            match from_markdown_spec(content@, *now) {
                Ok(file) => r is Ok && final(self)@ == old(self)@.merged(file),
                Err(error) => r matches Err(e) && e@ == error && final(self)@ == old(self)@,
            },
    {
        match PostInput::from_markdown(content, now) {
            Ok(file) => {
                self.merge(file);
                Ok(())
            },
            Err(error) => Err(error),
        }
    }

    /// The post that the command line and a file make, with the clock at
    /// `now`: what the command line gives, and from the file, if there is
    /// one, what the command line leaves open.
    pub fn from(
        title: Option<String>,
        slug: Option<String>,
        published_at: Option<PublishDate>,
        body: Option<&str>,
        now: &Moment,
    ) -> (r: Result<PostInput, CommandError>)
        requires
            now.wf(),
        ensures
            post_result_view(r) == {
                let given = PostInputView {
                    title: opt_view(title),
                    slug: opt_view(slug),
                    published_at,
                    body: None,
                };
                match body {
                    None => Ok(given),
                    Some(content) => match from_markdown_spec(content@, *now) {
                        Ok(file) => Ok(given.merged(file)),
                        Err(error) => Err(error),
                    },
                }
            },
    {
        let mut post = PostInput::new(title, slug, published_at);
        match body {
            None => Ok(post),
            Some(content) => match post.update(content, now) {
                Ok(()) => Ok(post),
                Err(error) => Err(error),
            },
        }
    }

    /// A copy of this post.
    pub fn copy(&self) -> (r: PostInput)
        ensures
            r@ == self@,
    {
        PostInput {
            title: clone_opt(&self.title),
            slug: clone_opt(&self.slug),
            published_at: self.published_at,
            body: clone_opt(&self.body),
        }
    }
}

/// Merging treats each field on its own: a field that the first post
/// holds is kept, whatever the second holds; a field that it lacks comes
/// from the second; a field that both lack stays absent.
pub proof fn lemma_merge_per_field(first: PostInputView, second: PostInputView)
    ensures
        first.title is Some ==> first.merged(second).title == first.title,
        first.title is None ==> first.merged(second).title == second.title,
        first.slug is Some ==> first.merged(second).slug == first.slug,
        first.slug is None ==> first.merged(second).slug == second.slug,
        first.published_at is Some ==> first.merged(second).published_at == first.published_at,
        first.published_at is None ==> first.merged(second).published_at == second.published_at,
        first.body is Some ==> first.merged(second).body == first.body,
        first.body is None ==> first.merged(second).body == second.body,
{
}

/// What a merge gives for one field does not depend on the other fields:
/// two pairs of posts with the same titles merge to the same title.
pub proof fn lemma_merge_fields_are_independent(
    first: PostInputView,
    second: PostInputView,
    other_first: PostInputView,
    other_second: PostInputView,
)
    requires
        first.title == other_first.title,
        second.title == other_second.title,
    ensures
        first.merged(second).title == other_first.merged(other_second).title,
{
}

/// The post without any field changes nothing in a merge, on either side;
/// merging a post with itself gives the post; and of three posts merged
/// in a row it does not matter which two are merged first.
pub proof fn lemma_merge_laws(a: PostInputView, b: PostInputView, c: PostInputView)
    ensures
        PostInputView::empty().merged(a) == a,
        a.merged(PostInputView::empty()) == a,
        a.merged(a) == a,
        a.merged(b).merged(c) == a.merged(b.merged(c)),
{
}

/// A document reads alike whether the fence of its block is marked
/// `yaml` or `yml` or not at all: the same post, or the same error.
pub proof fn lemma_fence_marks_read_alike(
    title: Option<Seq<char>>,
    source: Seq<char>,
    body: Option<Seq<char>>,
    now: Moment,
)
    ensures
        ({
            let head = |mark: Seq<char>|
                Some(
                    FrontmatterView {
                        title,
                        code_block: Some(
                            crate::markdown::CodeBlockView { language: Some(mark), source },
                        ),
                    },
                );
            &&& from_frontmatter_spec(head("yml"@), body, now) == from_frontmatter_spec(
                head("yaml"@),
                body,
                now,
            )
            &&& from_frontmatter_spec(head(Seq::<char>::empty()), body, now)
                == from_frontmatter_spec(head("yaml"@), body, now)
        }),
{
    crate::fields::lemma_yaml_marks_read_alike(source);
}

/// A title among the fields of the block wins over the leading heading;
/// the heading is the title only where the block gives none.
pub proof fn lemma_block_title_wins(
    meta: PostInputView,
    heading: Option<Seq<char>>,
    body: Option<Seq<char>>,
)
    ensures
        meta.title is Some ==> with_heading(meta, heading, body).title == meta.title,
        meta.title is None ==> with_heading(meta, heading, body).title == heading,
        with_heading(meta, heading, body).slug == meta.slug,
        with_heading(meta, heading, body).published_at == meta.published_at,
        with_heading(meta, heading, body).body == body,
{
}

} // verus!
