//! What each command makes of its arguments: the request to send, and
//! what to show of the answer.

use vstd::prelude::*;
use vstd::string::StrSliceExecFns;
use crate::api;
use crate::args;
use crate::date::Moment;
use crate::error::{CommandError, CommandErrorView};
use crate::input::{from_markdown_spec, PostInput, PostInputView};
use crate::markdown::Scan;
use crate::post::{list_lines, list_spec, Post};
use crate::text::{clone_opt, opt_view, shell_words, trim, trimmed, words_of};

verus! {

/// Something worth telling the user that stops nothing.
#[derive(Clone, Copy, Debug, PartialEq, Eq, Structural)]
pub enum Notice {
    /// The document has neither a leading heading nor a code block.
    NoFrontmatter,
    /// The document has a leading heading and no code block.
    NoCodeBlock,
    /// A slug was given for a post that is to be created; the service
    /// chooses the slug.
    SlugIgnored,
}

impl Notice {
    /// The words of the notice.
    pub open spec fn words(self) -> Seq<char> {
        match self {
            Notice::NoFrontmatter => "No frontmatter detected"@,
            Notice::NoCodeBlock => "No code block detected"@,
            Notice::SlugIgnored =>
                "The slug is ignored when creating a new post. If the created slug differed from the one provided, future updates of the post will change that slug."@,
        }
    }

    /// The words of the notice.
    pub fn message(&self) -> (r: &'static str)
        ensures
            r@ == self.words(),
    {
        match self {
            Notice::NoFrontmatter => "No frontmatter detected",
            Notice::NoCodeBlock => "No code block detected",
            Notice::SlugIgnored =>
                "The slug is ignored when creating a new post. If the created slug differed from the one provided, future updates of the post will change that slug.",
        }
    }
}

/// What is worth telling of the head of a document: that it has none, or
/// that it has no code block.
pub fn head_notice(scan: &Scan) -> (r: Option<Notice>)
    ensures
        r == match scan@.frontmatter {
            None => Some(Notice::NoFrontmatter),
            Some(head) => if head.code_block is None {
                Some(Notice::NoCodeBlock)
            } else {
                None
            },
        },
{
    match &scan.frontmatter {
        None => Some(Notice::NoFrontmatter),
        Some(head) => if head.code_block.is_none() {
            Some(Notice::NoCodeBlock)
        } else {
            None
        },
    }
}

/// The request that creates `post`, and a notice where a slug was given.
/// A post without a title cannot be created.
pub fn create_request(post: PostInput) -> (r: Result<(api::Create, Option<Notice>), CommandError>)
    ensures
        match post@.title {
            None => r matches Err(e) && e@ == CommandErrorView::MissingTitle,
            Some(title) => r matches Ok((request, notice)) && request.title@ == title && opt_view(
                request.body,
            ) == post@.body && request.published_at == post@.published_at && notice == (if post@.slug is Some {
                Some(Notice::SlugIgnored)
            } else {
                None
            }),
        },
{
    let notice = if post.slug.is_some() {
        Some(Notice::SlugIgnored)
    } else {
        None
    };
    match post.title {
        None => Err(CommandError::MissingTitle),
        Some(title) => Ok((api::Create::new(title, post.body, post.published_at), notice)),
    }
}

/// The post that the `create` command sends: what the command line
/// gives, and from the file what the command line leaves open.
pub fn create(cmd: &args::Create, content: &str, now: &Moment) -> (r: Result<
    (api::Create, Option<Notice>),
    CommandError,
>)
    requires
        now.wf(),
    ensures
        match from_markdown_spec(content@, *now) {
            Err(error) => r matches Err(e) && e@ == error,
            Ok(file) => {
                let post = (PostInputView {
                    title: opt_view(cmd.title),
                    slug: None,
                    published_at: cmd.published_at,
                    body: None,
                }).merged(file);
                match post.title {
                    None => r matches Err(e) && e@ == CommandErrorView::MissingTitle,
                    Some(title) => r matches Ok((request, notice)) && request.title@ == title
                        && opt_view(request.body) == post.body && request.published_at
                        == post.published_at && notice == (if post.slug is Some {
                        Some(Notice::SlugIgnored)
                    } else {
                        None
                    }),
                }
            },
        },
{
    match PostInput::from(clone_opt(&cmd.title), None, cmd.published_at, Some(content), now) {
        Ok(post) => create_request(post),
        Err(error) => Err(error),
    }
}

/// The request that updates a post. The post is found under `slug`, the
/// slug of the command line, and is then renamed to the slug of `post`,
/// if it has one. Without a slug on the command line the post is found
/// under the slug of `post` and keeps it. Without either there is nothing
/// to update.
pub fn update_request(slug: Option<String>, post: PostInput) -> (r: Result<api::Update, CommandError>)
    ensures
        match (opt_view(slug), post@.slug) {
            (None, None) => r matches Err(e) && e@ == CommandErrorView::MissingSlug,
            (Some(target), renamed) => r matches Ok(request) && request.slug@ == target && opt_view(
                request.updated_slug,
            ) == renamed && opt_view(request.title) == post@.title && opt_view(request.body)
                == post@.body && request.published_at == post@.published_at,
            (None, Some(target)) => r matches Ok(request) && request.slug@ == target
                && request.updated_slug is None && opt_view(request.title) == post@.title
                && opt_view(request.body) == post@.body && request.published_at
                == post@.published_at,
        },
{
    match slug {
        Some(target) => Ok(
            api::Update::new(target, post.title, post.slug, post.body, post.published_at),
        ),
        None => match post.slug {
            Some(target) => Ok(
                api::Update::new(target, post.title, None, post.body, post.published_at),
            ),
            None => Err(CommandError::MissingSlug),
        },
    }
}

/// The post that the `update` command works on: what the command line
/// gives, the new slug as its slug, and from the file, if there is one,
/// what the command line leaves open.
pub open spec fn update_input(cmd: args::Update, content: Option<Seq<char>>, now: Moment) -> Result<
    PostInputView,
    CommandErrorView,
> {
    let given = PostInputView {
        title: opt_view(cmd.title),
        slug: opt_view(cmd.new_slug),
        published_at: cmd.published_at,
        body: None,
    };
    match content {
        None => Ok(given),
        Some(text) => match from_markdown_spec(text, now) {
            Ok(file) => Ok(given.merged(file)),
            Err(error) => Err(error),
        },
    }
}

/// The request that the `update` command sends.
pub fn update(cmd: &args::Update, content: Option<&str>, now: &Moment) -> (r: Result<
    api::Update,
    CommandError,
>)
    requires
        now.wf(),
    ensures
        match update_input(
            *cmd,
            match content {
                Some(text) => Some(text@),
                None => None,
            },
            *now,
        ) {
            Err(error) => r matches Err(e) && e@ == error,
            Ok(post) => match (opt_view(cmd.slug), post.slug) {
                (None, None) => r matches Err(e) && e@ == CommandErrorView::MissingSlug,
                (Some(target), renamed) => r matches Ok(request) && request.slug@ == target
                    && opt_view(request.updated_slug) == renamed && opt_view(request.title)
                    == post.title && opt_view(request.body) == post.body && request.published_at
                    == post.published_at,
                (None, Some(target)) => r matches Ok(request) && request.slug@ == target
                    && request.updated_slug is None && opt_view(request.title) == post.title
                    && opt_view(request.body) == post.body && request.published_at
                    == post.published_at,
            },
        },
{
    match PostInput::from(
        clone_opt(&cmd.title),
        clone_opt(&cmd.new_slug),
        cmd.published_at,
        content,
        now,
    ) {
        Ok(post) => update_request(clone_opt(&cmd.slug), post),
        Err(error) => Err(error),
    }
}

/// The request that the `get` command sends.
pub fn get(cmd: &args::Get) -> (r: api::Get)
    ensures
        r.slug@ == cmd.slug@,
{
    api::Get::new(cmd.slug.clone())
}

/// The request that the `delete` command sends.
pub fn delete(cmd: &args::Delete) -> (r: api::Delete)
    ensures
        r.slug@ == cmd.slug@,
{
    api::Delete::new(cmd.slug.clone())
}

/// What the `list` command shows of the posts that came back.
pub fn list(posts: &Vec<Post>, cmd: &args::List) -> (r: String)
    ensures
        r@ == list_spec(posts@, posts@.len() as int, cmd.slugs),
{
    list_lines(posts, cmd.slugs)
}

/// What the `create` and `update` commands show of the post that came
/// back: its headline.
pub fn print_post(post: &Post, meta: bool, body: bool) -> (r: String)
    ensures
        r@ == post@.summary(meta, body),
{
    post.summary(meta, body)
}

/// What the `get` command writes, and where. Where a place is named, the
/// post goes there as a markdown document. Else the standard output gets
/// the headline, unless only the body is wanted, and the body, unless it
/// is not wanted.
pub fn get_output(post: &Post, print: &args::GetPrint) -> (r: (args::Output, String))
    ensures
        match print.output {
            Some(place) => r.0@ == place@ && r.1@ == post@.rendered(),
            None => r.0@ == args::OutputView::Stdout && r.1@ == post@.summary(
                !print.body,
                !print.no_body,
            ),
        },
{
    match &print.output {
        Some(place) => (place.copy(), post.render()),
        None => (args::Output::Stdout, post.summary(!print.body, !print.no_body)),
    }
}

/// The position of the first line feed of `text` from `at` on, or the
/// length of `text` where there is none.
pub open spec fn line_end(text: Seq<char>, at: int) -> int
    decreases text.len() - at,
{
    if at < 0 || at >= text.len() || text[at] == '\n' {
        at
    } else {
        line_end(text, at + 1)
    }
}

/// The lines of a text: its parts between line feeds, each without a
/// carriage return before its line feed. A line feed at the very end
/// begins no further line.
pub open spec fn lines_spec(text: Seq<char>) -> Seq<Seq<char>>
    decreases text.len(),
{
    if text.len() == 0 {
        Seq::empty()
    } else {
        let end = line_end(text, 0);
        if 0 <= end < text.len() {
            let line = text.subrange(0, end);
            let line = if line.len() > 0 && line.last() == '\r' {
                line.drop_last()
            } else {
                line
            };
            seq![line] + lines_spec(text.subrange(end + 1, text.len() as int))
        } else {
            seq![text]
        }
    }
}

/// The lines of a text.
///
/// Trusted: collects what `str::lines` hands out. That iterator splits
/// at line feeds, drops a carriage return that stands before a line feed,
/// and hands out nothing for what follows a last line feed.
#[verifier::external_body]
fn lines_of(text: &str) -> (r: Vec<String>)
    ensures
        r@.len() == lines_spec(text@).len(),
        forall|i: int| 0 <= i < r@.len() ==> (#[trigger] r@[i])@ == lines_spec(text@)[i],
{
    text.lines().map(|line| line.to_owned()).collect()
}

/// Whether a line, white space around it aside, holds a command: it is
/// not empty and begins with none of `#`, `;` and `//`.
pub open spec fn is_command(line: Seq<char>) -> bool {
    let text = trimmed(line);
    &&& text.len() > 0
    &&& text[0] != '#'
    &&& text[0] != ';'
    &&& !(text.len() >= 2 && text[0] == '/' && text[1] == '/')
}

/// The arguments of the command that a line holds: the name `batch`,
/// then the words of the line without the white space around it.
pub open spec fn command_of(line: Seq<char>) -> Seq<Seq<char>> {
    seq!["batch"@] + words_of(trimmed(line))
}

/// The commands that the first `count` lines hold, in their order.
pub open spec fn commands_spec(lines: Seq<Seq<char>>, count: int) -> Seq<Seq<Seq<char>>>
    decreases count,
{
    if count <= 0 {
        Seq::empty()
    } else if is_command(lines[count - 1]) {
        commands_spec(lines, count - 1).push(command_of(lines[count - 1]))
    } else {
        commands_spec(lines, count - 1)
    }
}

/// The views of a list of lists of texts.
pub open spec fn commands_view(commands: Seq<Vec<String>>) -> Seq<Seq<Seq<char>>> {
    Seq::new(commands.len(), |i: int| Seq::new(commands[i]@.len(), |j: int| commands[i]@[j]@))
}

fn holds_command(text: &str) -> (r: bool)
    ensures
        r == (text@.len() > 0 && text@[0] != '#' && text@[0] != ';' && !(text@.len() >= 2
            && text@[0] == '/' && text@[1] == '/')),
{
    let n = text.unicode_len();
    if n == 0 {
        return false;
    }
    let first = text.get_char(0);
    if first == '#' || first == ';' {
        return false;
    }
    if n >= 2 && first == '/' && text.get_char(1) == '/' {
        return false;
    }
    true
}

/// The commands of a batch file: for each line that holds a command, the
/// arguments that stand for it, in the order of the lines.
pub fn batch(text: &str) -> (r: Vec<Vec<String>>)
    ensures
        commands_view(r@) == commands_spec(lines_spec(text@), lines_spec(text@).len() as int),
{
    let lines = lines_of(text);
    let ghost all = lines_spec(text@);
    let mut commands: Vec<Vec<String>> = Vec::new();
    let mut at: usize = 0;
    assert(commands_view(commands@) =~= commands_spec(all, 0));
    while at < lines.len()
        invariant
            at <= lines.len(),
            all == lines_spec(text@),
            lines@.len() == all.len(),
            forall|i: int| 0 <= i < lines@.len() ==> (#[trigger] lines@[i])@ == all[i],
            commands_view(commands@) == commands_spec(all, at as int),
        decreases lines.len() - at,
    {
        let line = trim(lines[at].as_str());
        assert(lines@[at as int]@ == all[at as int]);
        if holds_command(line) {
            let words = shell_words(line);
            let mut arguments: Vec<String> = Vec::new();
            arguments.push(String::from_str("batch"));
            let mut k: usize = 0;
            while k < words.len()
                invariant
                    k <= words.len(),
                    arguments@.len() == k + 1,
                    arguments@[0]@ == "batch"@,
                    forall|j: int| 0 <= j < k ==> (#[trigger] arguments@[j + 1])@ == words@[j]@,
                decreases words.len() - k,
            {
                arguments.push(words[k].clone());
                k += 1;
            }
            let ghost before = commands@;
            commands.push(arguments);
            proof {
                let view = Seq::new(arguments@.len(), |j: int| arguments@[j]@);
                assert(view =~= command_of(all[at as int])) by {
                    assert(view.len() == 1 + words_of(line@).len());
                    assert forall|j: int| 0 <= j < view.len() implies view[j] == command_of(
                        all[at as int],
                    )[j] by {
                        if j > 0 {
                            assert(arguments@[(j - 1) + 1]@ == words@[j - 1]@);
                        }
                    }
                }
                assert(commands_view(commands@) =~= commands_view(before).push(view));
            }
        }
        at += 1;
    }
    commands
}

/// Whether a batch goes on after a command: always after one that
/// succeeded, and after one that failed only where failures are ignored.
pub fn batch_goes_on(ignore_errors: bool, failed: bool) -> (r: bool)
    ensures
        r == (!failed || ignore_errors),
{
    !failed || ignore_errors
}

} // verus!
