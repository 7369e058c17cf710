//! The document model of a command-line client for mataroa.blog.
//!
//! A post is written as a markdown document: an optional leading heading
//! for the title, a code block in YAML or JSON with the fields `title`,
//! `slug` and `published_at`, and the body. This crate reads such a
//! document, merges it with what the command line gives, plans the
//! request that the service is to get, and writes a post back as a
//! document.
//!
//! Every function here is verified against its contract. Nothing reads a
//! file, the clock or the network: the caller hands in texts and the
//! reading of the clock, and gets values and texts back.
//!
//! Markdown, YAML, JSON, date phrases and shell words are read by the
//! crates that are made for them. Each such call stands in one small
//! function whose contract is believed, not proved; its doc comment begins
//! with `Trusted:` and says what is claimed of the call.
//!
//! - [`date`]: days of the calendar and their text `YYYY-MM-DD`.
//! - [`phrase`]: which texts may be handed to the grammar of date phrases.
//! - [`dateformat`]: the publish date, read from a text and written to
//!   the wire.
//! - [`markdown`]: the head of a document and where its body begins.
//! - [`fields`]: the fields of a post that a code block gives.
//! - [`input`]: the post as it is held locally, and how two are merged.
//! - [`post`]: the post as the service returns it, and the texts that
//!   show it.
//! - [`json`]: the body of a request.
//! - [`api`]: the requests, and what a dry run shows of them.
//! - [`commands`]: what each command makes of its arguments.
//! - [`credentials`]: where the key comes from and how it is sent.
//! - [`args`]: what a command line asks for.
//! - [`error`]: the ways in which all this can fail.
//! - [`text`]: small operations on text.

pub mod api;
pub mod args;
pub mod commands;
pub mod credentials;
pub mod date;
pub mod dateformat;
pub mod error;
pub mod fields;
pub mod input;
pub mod json;
pub mod markdown;
pub mod phrase;
pub mod post;
pub mod text;
