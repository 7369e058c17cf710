//! The requests that the service understands, one type for each.
//!
//! A request is a method, an address and, for some, a JSON object as its
//! body. Only the fields that are given stand in a body.

use vstd::prelude::*;
use vstd::string::StringExecFns;
use crate::dateformat::{wire_text, PublishDate};
use crate::json::{body_text, fields_view, write_body};
use crate::post::Post;
use crate::text::{clone_opt, opt_view};

verus! {

/// The method of a request.
#[derive(Clone, Copy, Debug, PartialEq, Eq, Structural)]
pub enum Method {
    Get,
    Post,
    Patch,
    Delete,
}

/// The name of a method as a request line holds it.
pub open spec fn method_name(method: Method) -> Seq<char> {
    match method {
        Method::Get => "GET"@,
        Method::Post => "POST"@,
        Method::Patch => "PATCH"@,
        Method::Delete => "DELETE"@,
    }
}

impl Method {
    /// The name of the method as a request line holds it.
    pub fn name(&self) -> (r: &'static str)
        ensures
            r@ == method_name(*self),
    {
        match self {
            Method::Get => "GET",
            Method::Post => "POST",
            Method::Patch => "PATCH",
            Method::Delete => "DELETE",
        }
    }
}

/// The address of the posts of the service.
pub open spec fn posts_url() -> Seq<char> {
    "https://mataroa.blog/api/posts/"@
}

/// The address of the post with the given slug.
pub open spec fn post_url(slug: Seq<char>) -> Seq<char> {
    posts_url() + slug + "/"@
}

/// The body of a request: the given fields as a JSON object.
pub open spec fn object_body(fields: Seq<(Seq<char>, Option<Seq<char>>)>) -> Option<Seq<char>> {
    Some(body_text(fields))
}

/// The wire text of an optional publish date.
pub open spec fn opt_wire(date: Option<PublishDate>) -> Option<Seq<char>> {
    match date {
        Some(d) => Some(wire_text(d)),
        None => None,
    }
}

/// What a request is made of.
pub trait Action {
    /// The method of the request.
    spec fn method_spec(&self) -> Method;

    /// The address of the request.
    spec fn url_spec(&self) -> Seq<char>;

    /// The body of the request, if it has one.
    spec fn body_spec(&self) -> Option<Seq<char>>;

    /// The method of the request.
    fn method(&self) -> (r: Method)
        ensures
            r == self.method_spec(),
    ;

    /// The address of the request.
    fn url(&self) -> (r: String)
        ensures
            r@ == self.url_spec(),
    ;

    /// The body of the request, if it has one.
    fn body(&self) -> (r: Option<String>)
        ensures
            opt_view(r) == self.body_spec(),
    ;
}

/// Creates a post.
#[derive(Clone, Debug, PartialEq, Eq)]
pub struct Create {
    pub title: String,
    pub body: Option<String>,
    pub published_at: Option<PublishDate>,
}

/// Gets the post with a slug.
#[derive(Clone, Debug, PartialEq, Eq)]
pub struct Get {
    pub slug: String,
}

/// Updates the post with a slug. Only the fields that are given change.
#[derive(Clone, Debug, PartialEq, Eq)]
pub struct Update {
    /// The slug under which the post is found.
    pub slug: String,
    pub title: Option<String>,
    /// The slug that the post is to have from now on.
    pub updated_slug: Option<String>,
    pub body: Option<String>,
    pub published_at: Option<PublishDate>,
}

/// Deletes the post with a slug.
#[derive(Clone, Debug, PartialEq, Eq)]
pub struct Delete {
    pub slug: String,
}

/// Lists all posts.
#[derive(Clone, Copy, Debug, PartialEq, Eq, Structural)]
pub struct List {}

/// What the service answers to [`List`]: the posts in an envelope.
#[derive(Clone, Debug, PartialEq, Eq)]
pub struct Posts {
    pub post_list: Vec<Post>,
}

fn post_address(slug: &String) -> (r: String)
    ensures
        r@ == post_url(slug@),
{
    let mut out = String::new();
    out.append("https://mataroa.blog/api/posts/");
    out.append(slug.as_str());
    out.append("/");
    assert(out@ =~= post_url(slug@));
    out
}

fn posts_address() -> (r: String)
    ensures
        r@ == posts_url(),
{
    String::from_str("https://mataroa.blog/api/posts/")
}

fn wire_of(date: &Option<PublishDate>) -> (r: Option<String>)
    ensures
        opt_view(r) == opt_wire(*date),
{
    match date {
        Some(d) => Some(d.format()),
        None => None,
    }
}

impl Create {
    /// The request that creates a post with this title, and with this body
    /// and publish date where they are given.
    pub fn new(title: String, body: Option<String>, published_at: Option<PublishDate>) -> (r:
        Create)
        ensures
            r.title@ == title@,
            opt_view(r.body) == opt_view(body),
            r.published_at == published_at,
    {
        Create { title, body, published_at }
    }

    /// The fields of the body, in their order.
    pub open spec fn fields(&self) -> Seq<(Seq<char>, Option<Seq<char>>)> {
        seq![
            ("title"@, Some(self.title@)),
            ("body"@, opt_view(self.body)),
            ("published_at"@, opt_wire(self.published_at)),
        ]
    }

    /// The post that the service created: as it answered, with the title
    /// that was sent where the answer holds none.
    pub fn read(self, response: Post) -> (r: Post)
        ensures
            r@ == (crate::post::PostView {
                title: match response@.title {
                    Some(title) => Some(title),
                    None => Some(self.title@),
                },
                ..response@
            }),
    {
        let title = match response.title {
            Some(title) => Some(title),
            None => Some(self.title),
        };
        Post {
            slug: response.slug,
            title,
            body: response.body,
            published_at: response.published_at,
            url: response.url,
        }
    }
}

impl Action for Create {
    open spec fn method_spec(&self) -> Method {
        Method::Post
    }

    open spec fn url_spec(&self) -> Seq<char> {
        posts_url()
    }

    open spec fn body_spec(&self) -> Option<Seq<char>> {
        object_body(self.fields())
    }

    fn method(&self) -> (r: Method) {
        Method::Post
    }

    fn url(&self) -> (r: String) {
        posts_address()
    }

    fn body(&self) -> (r: Option<String>) {
        let mut fields: Vec<(&'static str, Option<String>)> = Vec::new();
        fields.push(("title", Some(self.title.clone())));
        fields.push(("body", clone_opt(&self.body)));
        fields.push(("published_at", wire_of(&self.published_at)));
        assert(fields_view(fields@) =~= self.fields());
        Some(write_body(&fields))
    }
}

impl Get {
    /// The request that gets the post with this slug.
    pub fn new(slug: String) -> (r: Get)
        ensures
            r.slug@ == slug@,
    {
        Get { slug }
    }

    /// The post that the service returned, as it is.
    pub fn read(self, response: Post) -> (r: Post)
        ensures
            r@ == response@,
    {
        response
    }
}

impl Action for Get {
    open spec fn method_spec(&self) -> Method {
        Method::Get
    }

    open spec fn url_spec(&self) -> Seq<char> {
        post_url(self.slug@)
    }

    open spec fn body_spec(&self) -> Option<Seq<char>> {
        None
    }

    fn method(&self) -> (r: Method) {
        Method::Get
    }

    fn url(&self) -> (r: String) {
        post_address(&self.slug)
    }

    fn body(&self) -> (r: Option<String>) {
        None
    }
}

impl Update {
    /// The request that updates the post found under `slug`.
    pub fn new(
        slug: String,
        title: Option<String>,
        updated_slug: Option<String>,
        body: Option<String>,
        published_at: Option<PublishDate>,
    ) -> (r: Update)
        ensures
            r.slug@ == slug@,
            opt_view(r.title) == opt_view(title),
            opt_view(r.updated_slug) == opt_view(updated_slug),
            opt_view(r.body) == opt_view(body),
            r.published_at == published_at,
    {
        Update { slug, title, updated_slug, body, published_at }
    }

    /// The fields of the body, in their order. The slug in the body is
    /// the new one.
    pub open spec fn fields(&self) -> Seq<(Seq<char>, Option<Seq<char>>)> {
        seq![
            ("title"@, opt_view(self.title)),
            ("slug"@, opt_view(self.updated_slug)),
            ("body"@, opt_view(self.body)),
            ("published_at"@, opt_wire(self.published_at)),
        ]
    }

    /// The post that the service updated: as it answered, with the title
    /// that was sent, if one was, where the answer holds none.
    pub fn read(self, response: Post) -> (r: Post)
        ensures
            r@ == (crate::post::PostView {
                title: match response@.title {
                    Some(title) => Some(title),
                    None => opt_view(self.title),
                },
                ..response@
            }),
    {
        let title = match response.title {
            Some(title) => Some(title),
            None => self.title,
        };
        Post {
            slug: response.slug,
            title,
            body: response.body,
            published_at: response.published_at,
            url: response.url,
        }
    }
}

impl Action for Update {
    open spec fn method_spec(&self) -> Method {
        Method::Patch
    }

    open spec fn url_spec(&self) -> Seq<char> {
        post_url(self.slug@)
    }

    open spec fn body_spec(&self) -> Option<Seq<char>> {
        object_body(self.fields())
    }

    fn method(&self) -> (r: Method) {
        Method::Patch
    }

    fn url(&self) -> (r: String) {
        post_address(&self.slug)
    }

    fn body(&self) -> (r: Option<String>) {
        let mut fields: Vec<(&'static str, Option<String>)> = Vec::new();
        fields.push(("title", clone_opt(&self.title)));
        fields.push(("slug", clone_opt(&self.updated_slug)));
        fields.push(("body", clone_opt(&self.body)));
        fields.push(("published_at", wire_of(&self.published_at)));
        assert(fields_view(fields@) =~= self.fields());
        Some(write_body(&fields))
    }
}

impl Delete {
    /// The request that deletes the post with this slug.
    pub fn new(slug: String) -> (r: Delete)
        ensures
            r.slug@ == slug@,
    {
        Delete { slug }
    }

    /// Nothing: whatever the service answered is dropped.
    pub fn read(self, response: String) {
    }
}

impl Action for Delete {
    open spec fn method_spec(&self) -> Method {
        Method::Delete
    }

    open spec fn url_spec(&self) -> Seq<char> {
        post_url(self.slug@)
    }

    open spec fn body_spec(&self) -> Option<Seq<char>> {
        None
    }

    fn method(&self) -> (r: Method) {
        Method::Delete
    }

    fn url(&self) -> (r: String) {
        post_address(&self.slug)
    }

    fn body(&self) -> (r: Option<String>) {
        None
    }
}

impl List {
    /// The request that lists all posts.
    pub fn new() -> (r: List)
        ensures
            r == (List {  }),
    {
        List {  }
    }

    /// The posts that the service returned, without their envelope.
    pub fn read(self, response: Posts) -> (r: Vec<Post>)
        ensures
            r == response.post_list,
    {
        response.post_list
    }
}

impl Action for List {
    open spec fn method_spec(&self) -> Method {
        Method::Get
    }

    open spec fn url_spec(&self) -> Seq<char> {
        posts_url()
    }

    open spec fn body_spec(&self) -> Option<Seq<char>> {
        None
    }

    fn method(&self) -> (r: Method) {
        Method::Get
    }

    fn url(&self) -> (r: String) {
        posts_address()
    }

    fn body(&self) -> (r: Option<String>) {
        None
    }
}

/// The command line that sends the same request: one line for the method,
/// one for the key, which is not shown, one for the body where there is
/// one, and the address.
pub open spec fn curl_spec(method: Method, url: Seq<char>, body: Option<Seq<char>>) -> Seq<char> {
    "curl -X "@ + method_name(method) + " \\\n"@
        + "  -H 'Authorization: Bearer <your mataroa API key goes here>' \\\n"@ + crate::post::framed(
        "  -d '"@,
        body,
        "' \\\n"@,
    ) + "  "@ + url
}

/// The command line that sends a request with this method, address and body.
pub fn curl_text(method: Method, url: &str, body: &Option<String>) -> (r: String)
    ensures
        r@ == curl_spec(method, url@, opt_view(*body)),
{
    let mut out = String::new();
    out.append("curl -X ");
    out.append(method.name());
    out.append(" \\\n");
    out.append("  -H 'Authorization: Bearer <your mataroa API key goes here>' \\\n");
    match body {
        Some(text) => {
            out.append("  -d '");
            out.append(text.as_str());
            out.append("' \\\n");
        },
        None => {},
    }
    out.append("  ");
    out.append(url);
    assert(out@ =~= curl_spec(method, url@, opt_view(*body)));
    out
}

/// What a dry run shows for a request: the command line that would send
/// it. Nothing is sent.
pub open spec fn dry_run_spec<A: Action>(action: &A) -> Seq<char> {
    curl_spec(action.method_spec(), action.url_spec(), action.body_spec())
}

/// The text that a dry run shows for `action`. The same request gives the
/// same text.
pub fn dry_run<A: Action>(action: &A) -> (r: String)
    ensures
        r@ == dry_run_spec(action),
{
    let body = action.body();
    let url = action.url();
    curl_text(action.method(), url.as_str(), &body)
}

/// How a request is to be handled.
#[derive(Clone, Copy, Debug, PartialEq, Eq, Structural)]
pub struct Opts {
    /// Send nothing; show the command line that would send the request.
    pub dry_run: bool,
    /// Show the answer of the service as it came.
    pub print_json: bool,
}

/// What is to be done with a request.
#[derive(Clone, Debug, PartialEq, Eq)]
pub enum Plan {
    /// Nothing is sent; this text is shown.
    Show(String),
    /// The request is sent; `raw` tells whether the answer is shown as it
    /// came or read as a post.
    Send { raw: bool },
}

/// What is to be done with `action`. In a dry run the request is never
/// sent: the plan is to show the command line that would send it.
pub fn plan<A: Action>(action: &A, opts: Opts) -> (r: Plan)
    ensures
        opts.dry_run ==> (r matches Plan::Show(shown) && shown@ == dry_run_spec(action)),
        !opts.dry_run ==> r == (Plan::Send { raw: opts.print_json }),
{
    if opts.dry_run {
        Plan::Show(dry_run(action))
    } else {
        Plan::Send { raw: opts.print_json }
    }
}

} // verus!
