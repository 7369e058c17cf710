//! A post as the service returns it, and the texts that show it.

use vstd::prelude::*;
use vstd::string::StringExecFns;
use crate::text::opt_view;

verus! {

/// A post as the service returns it. The slug is always there; the
/// publish date comes as its wire text.
#[derive(Clone, Debug, PartialEq, Eq)]
pub struct Post {
    pub slug: String,
    pub title: Option<String>,
    pub body: Option<String>,
    pub published_at: Option<String>,
    pub url: Option<String>,
}

/// A [`Post`] with its texts as sequences of characters.
pub struct PostView {
    pub slug: Seq<char>,
    pub title: Option<Seq<char>>,
    pub body: Option<Seq<char>>,
    pub published_at: Option<Seq<char>>,
    pub url: Option<Seq<char>>,
}

impl View for Post {
    type V = PostView;

    open spec fn view(&self) -> PostView {
        PostView {
            slug: self.slug@,
            title: opt_view(self.title),
            body: opt_view(self.body),
            published_at: opt_view(self.published_at),
            url: opt_view(self.url),
        }
    }
}

/// `before`, the text and `after`, where the text is given; else nothing.
pub open spec fn framed(before: Seq<char>, text: Option<Seq<char>>, after: Seq<char>) -> Seq<char> {
    match text {
        Some(t) => before + t + after,
        None => Seq::<char>::empty(),
    }
}

/// The text, where it is given; else the empty text.
pub open spec fn or_empty(text: Option<Seq<char>>) -> Seq<char> {
    match text {
        Some(t) => t,
        None => Seq::<char>::empty(),
    }
}

impl PostView {
    /// The post as a markdown document: the title as a leading heading,
    /// the slug and the publish date in a block marked `yml`, then the body.
    pub open spec fn rendered(self) -> Seq<char> {
        framed("# "@, self.title, "\n\n"@) + "```yml\nslug: "@ + self.slug + "\npublished_at: \""@
            + or_empty(self.published_at) + "\"\n```\n\n"@ + framed(
            Seq::<char>::empty(),
            self.body,
            "\n"@,
        )
    }

    /// The lines that name the post: the slug with the title, the address
    /// and the publish date.
    pub open spec fn headline(self) -> Seq<char> {
        self.slug + framed(": "@, self.title, Seq::<char>::empty()) + "\n"@ + framed(
            "URL: "@,
            self.url,
            "\n"@,
        ) + framed("Published at: "@, self.published_at, "\n"@)
    }

    /// What is shown of the post: its headline if `meta`, then its body if
    /// `body`.
    pub open spec fn summary(self, meta: bool, body: bool) -> Seq<char> {
        (if meta {
            self.headline()
        } else {
            Seq::<char>::empty()
        }) + (if body {
            framed(Seq::<char>::empty(), self.body, "\n"@)
        } else {
            Seq::<char>::empty()
        })
    }

    /// The line of the post in a list: the slug alone if `slugs`, else
    /// the slug with the title, the address and the publish date.
    pub open spec fn list_line(self, slugs: bool) -> Seq<char> {
        self.slug + (if slugs {
            Seq::<char>::empty()
        } else {
            framed(": "@, self.title, Seq::<char>::empty()) + framed(" ("@, self.url, ")"@) + framed(
                " ["@,
                self.published_at,
                "]"@,
            )
        }) + "\n"@
    }
}

/// The lines of the first `count` posts of a list.
pub open spec fn list_spec(posts: Seq<Post>, count: int, slugs: bool) -> Seq<char>
    decreases count,
{
    if count <= 0 {
        Seq::<char>::empty()
    } else {
        list_spec(posts, count - 1, slugs) + posts[count - 1]@.list_line(slugs)
    }
}

fn push_framed(out: &mut String, before: &str, text: &Option<String>, after: &str)
    ensures
        final(out)@ == old(out)@ + framed(before@, opt_view(*text), after@),
{
    match text {
        Some(t) => {
            out.append(before);
            out.append(t.as_str());
            out.append(after);
            assert(out@ =~= old(out)@ + (before@ + t@ + after@));
        },
        None => {
            assert(out@ =~= old(out)@ + Seq::<char>::empty());
        },
    }
}

impl Post {
    /// The post as a markdown document, such as a file holds it.
    pub fn render(&self) -> (r: String)
        ensures
            r@ == self@.rendered(),
    {
        let mut out = String::new();
        push_framed(&mut out, "# ", &self.title, "\n\n");
        out.append("```yml\nslug: ");
        out.append(self.slug.as_str());
        out.append("\npublished_at: \"");
        match &self.published_at {
            Some(date) => {
                out.append(date.as_str());
            },
            None => {
                assert(out@ =~= out@ + Seq::<char>::empty());
            },
        }
        out.append("\"\n```\n\n");
        push_framed(&mut out, "", &self.body, "\n");
        proof {
            reveal_strlit("");
            assert(""@ =~= Seq::<char>::empty());
            assert(out@ =~= self@.rendered());
        }
        out
    }

    /// What is shown of the post: its headline if `meta`, then its body
    /// if `body`.
    pub fn summary(&self, meta: bool, body: bool) -> (r: String)
        ensures
            r@ == self@.summary(meta, body),
    {
        let mut out = String::new();
        proof {
            reveal_strlit("");
            assert(""@ =~= Seq::<char>::empty());
        }
        if meta {
            out.append(self.slug.as_str());
            push_framed(&mut out, ": ", &self.title, "");
            out.append("\n");
            push_framed(&mut out, "URL: ", &self.url, "\n");
            push_framed(&mut out, "Published at: ", &self.published_at, "\n");
            assert(out@ =~= self@.headline());
        }
        if body {
            push_framed(&mut out, "", &self.body, "\n");
        }
        assert(out@ =~= self@.summary(meta, body));
        out
    }

    /// The line of the post in a list.
    pub fn list_line(&self, slugs: bool) -> (r: String)
        ensures
            r@ == self@.list_line(slugs),
    {
        let mut out = String::new();
        proof {
            reveal_strlit("");
            assert(""@ =~= Seq::<char>::empty());
        }
        out.append(self.slug.as_str());
        if !slugs {
            push_framed(&mut out, ": ", &self.title, "");
            push_framed(&mut out, " (", &self.url, ")");
            push_framed(&mut out, " [", &self.published_at, "]");
        }
        out.append("\n");
        assert(out@ =~= self@.list_line(slugs));
        out
    }
}

/// The lines of a list of posts, one line for each post, in their order.
pub fn list_lines(posts: &Vec<Post>, slugs: bool) -> (r: String)
    ensures
        r@ == list_spec(posts@, posts@.len() as int, slugs),
{
    let mut out = String::new();
    let mut at: usize = 0;
    assert(out@ =~= list_spec(posts@, 0, slugs));
    while at < posts.len()
        invariant
            at <= posts.len(),
            out@ == list_spec(posts@, at as int, slugs),
        decreases posts.len() - at,
    {
        let line = posts[at].list_line(slugs);
        out.append(line.as_str());
        at += 1;
    }
    out
}

} // verus!
