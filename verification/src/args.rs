//! What a command line asks for, and what the program says of itself.

use vstd::prelude::*;
use vstd::string::StringExecFns;
use crate::dateformat::PublishDate;

verus! {

/// Where a post is written to.
#[derive(Clone, Debug, PartialEq, Eq)]
pub enum Output {
    /// The file with this path.
    File(String),
    /// The standard output.
    Stdout,
}

/// An [`Output`] with its path as a sequence of characters.
pub enum OutputView {
    File(Seq<char>),
    Stdout,
}

impl View for Output {
    type V = OutputView;

    open spec fn view(&self) -> OutputView {
        match *self {
            Output::File(path) => OutputView::File(path@),
            Output::Stdout => OutputView::Stdout,
        }
    }
}

impl Output {
    /// A copy of this place.
    pub fn copy(&self) -> (r: Output)
        ensures
            r@ == self@,
    {
        match self {
            Output::File(path) => Output::File(path.clone()),
            Output::Stdout => Output::Stdout,
        }
    }
}

/// List all posts.
#[derive(Copy, Clone, Debug, PartialEq, Eq, Structural)]
pub struct List {
    /// Only print the slugs of the posts.
    pub slugs: bool,
}

/// How a post that was fetched is shown.
#[derive(Clone, Debug, PartialEq, Eq)]
pub struct GetPrint {
    /// Only print the body of the post.
    pub body: bool,
    /// Do not print the body of the post.
    pub no_body: bool,
    /// Write the post as a markdown document to this place.
    pub output: Option<Output>,
}

/// Get a post.
#[derive(Clone, Debug, PartialEq, Eq)]
pub struct Get {
    /// The slug of the post to get.
    pub slug: String,
    pub print: GetPrint,
}

/// Update a post.
#[derive(Clone, Debug, PartialEq, Eq)]
pub struct Update {
    /// The slug of the post to update.
    pub slug: Option<String>,
    /// The path of the file that holds the post.
    pub body: Option<String>,
    /// The new slug for the post.
    pub new_slug: Option<String>,
    /// The new title of the post.
    pub title: Option<String>,
    /// The new publish date of the post.
    pub published_at: Option<PublishDate>,
}

/// Delete a post.
#[derive(Clone, Debug, PartialEq, Eq)]
pub struct Delete {
    /// The slug of the post to delete.
    pub slug: String,
}

/// Create a post.
#[derive(Clone, Debug, PartialEq, Eq)]
pub struct Create {
    /// The path of the file that holds the post.
    pub body: String,
    /// The title of the post.
    pub title: Option<String>,
    /// The publish date of the post.
    pub published_at: Option<PublishDate>,
}

/// Run the commands of a file, one for each line.
#[derive(Clone, Debug, PartialEq, Eq)]
pub struct Batch {
    /// The path of the file that holds the commands.
    pub batch: String,
    /// Do not stop at the first command that fails.
    pub ignore_errors: bool,
}

/// What is to be done.
#[derive(Clone, Debug, PartialEq, Eq)]
pub enum Command {
    List(List),
    Create(Create),
    Get(Get),
    Update(Update),
    Delete(Delete),
    Batch(Batch),
}

/// What a command line asks for.
#[derive(Clone, Debug, PartialEq, Eq)]
pub struct Args {
    /// Send nothing; show the command line that would send the request.
    pub dry_run: bool,
    /// Show the answer of the service as it came.
    pub json: bool,
    /// Whether the output is coloured.
    pub use_color: bool,
    pub cmd: Command,
}

/// The version of the program.
pub fn short_version() -> (r: &'static str)
    ensures
        r@ == "0.1.0"@,
{
    "0.1.0"
}

/// What is known of the build of the program.
#[derive(Clone, Copy, Debug, PartialEq, Eq)]
pub struct Info {
    pub build_version: &'static str,
    pub build_timestamp: &'static str,
    pub commit_sha: &'static str,
    pub commit_date: &'static str,
    pub rustc_version: &'static str,
    pub rustc_channel: &'static str,
    pub host_triple: &'static str,
    pub target_triple: &'static str,
    pub cargo_profile: &'static str,
}

impl Info {
    /// The build of this version of the program, with what the build
    /// itself tells of its time, its sources and its tools.
    pub fn new(
        build_timestamp: &'static str,
        commit_sha: &'static str,
        commit_date: &'static str,
        rustc_version: &'static str,
        rustc_channel: &'static str,
        host_triple: &'static str,
        target_triple: &'static str,
        cargo_profile: &'static str,
    ) -> (r: Info)
        ensures
            r == (Info {
                build_version: r.build_version,
                build_timestamp,
                commit_sha,
                commit_date,
                rustc_version,
                rustc_channel,
                host_triple,
                target_triple,
                cargo_profile,
            }),
            r.build_version@ == "0.1.0"@,
    {
        Info {
            build_version: short_version(),
            build_timestamp,
            commit_sha,
            commit_date,
            rustc_version,
            rustc_channel,
            host_triple,
            target_triple,
            cargo_profile,
        }
    }

    /// The build as a table: one line for each entry, its name in a
    /// column of twenty characters, then its value.
    pub open spec fn table(&self) -> Seq<char> {
        "Build Version:       "@ + self.build_version@ + "\n"@
            + "Build Timestamp:     "@ + self.build_timestamp@ + "\n"@
            + "Commit SHA:          "@ + self.commit_sha@ + "\n"@
            + "Commit Date:         "@ + self.commit_date@ + "\n"@
            + "rustc Version:       "@ + self.rustc_version@ + "\n"@
            + "rustc Channel:       "@ + self.rustc_channel@ + "\n"@
            + "Host Triple:         "@ + self.host_triple@ + "\n"@
            + "Target Triple:       "@ + self.target_triple@ + "\n"@
            + "cargo Profile:       "@ + self.cargo_profile@ + "\n"@
    }

    /// The build as a table.
    pub fn render(&self) -> (r: String)
        ensures
            r@ == self.table(),
    {
        let mut out = String::new();
        out.append("Build Version:       ");
        out.append(self.build_version);
        out.append("\n");
        out.append("Build Timestamp:     ");
        out.append(self.build_timestamp);
        out.append("\n");
        out.append("Commit SHA:          ");
        out.append(self.commit_sha);
        out.append("\n");
        out.append("Commit Date:         ");
        out.append(self.commit_date);
        out.append("\n");
        out.append("rustc Version:       ");
        out.append(self.rustc_version);
        out.append("\n");
        out.append("rustc Channel:       ");
        out.append(self.rustc_channel);
        out.append("\n");
        out.append("Host Triple:         ");
        out.append(self.host_triple);
        out.append("\n");
        out.append("Target Triple:       ");
        out.append(self.target_triple);
        out.append("\n");
        out.append("cargo Profile:       ");
        out.append(self.cargo_profile);
        out.append("\n");
        assert(out@ =~= self.table());
        out
    }
}

/// The long form of the version: an empty line, then the build as a table.
pub fn long_version(info: &Info) -> (r: String)
    ensures
        r@ == "\n"@ + info.table(),
{
    let mut out = String::new();
    out.append("\n");
    let table = info.render();
    out.append(table.as_str());
    assert(out@ =~= "\n"@ + info.table());
    out
}

} // verus!
