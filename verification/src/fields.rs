//! The fields of a post as a frontmatter block gives them.
//!
//! A block is a YAML or JSON mapping with the keys `title`, `slug` and
//! `published_at`, each with a text or null as its value. Any other key is
//! refused. In YAML every plain value is a text, a number as much as a
//! word, so that a slug such as `2024` can be written without quotes.

use vstd::prelude::*;
use crate::date::Moment;
use crate::dateformat::{parse, parse_spec, PublishDate};
use crate::error::{CommandError, CommandErrorView, DecodeFault, DecodeFaultView};
use crate::input::{PostInput, PostInputView};
use crate::markdown::{language_spec, CodeBlock, Language};
use crate::text::same_text;

verus! {

/// A key or a value of a mapping, as far as the fields of a post go.
#[derive(Clone, Debug, PartialEq, Eq)]
pub enum Field {
    /// Null.
    Null,
    /// A text.
    Text(String),
    /// Anything else: in JSON a number, a truth value, an array, an
    /// object.
    Other,
}

/// A [`Field`] with its text as a sequence of characters.
pub enum FieldView {
    Null,
    Text(Seq<char>),
    Other,
}

impl View for Field {
    type V = FieldView;

    open spec fn view(&self) -> FieldView {
        match *self {
            Field::Null => FieldView::Null,
            Field::Text(text) => FieldView::Text(text@),
            Field::Other => FieldView::Other,
        }
    }
}

/// The entries of a mapping, each as a pair of views.
pub open spec fn entries_view(entries: Seq<(Field, Field)>) -> Seq<(FieldView, FieldView)> {
    Seq::new(entries.len(), |i: int| (entries[i].0@, entries[i].1@))
}

/// Whether `source` holds a YAML mapping in which no key stands twice.
pub uninterp spec fn yaml_is_mapping(source: Seq<char>) -> bool;

/// The entries of the YAML mapping that `source` holds, in the order of
/// their keys, each key as its text and each value as its text or as
/// null; none where a key or a value is a sequence or a mapping, or where
/// `source` is no YAML mapping.
pub uninterp spec fn yaml_texts_of(source: Seq<char>) -> Option<Seq<(FieldView, FieldView)>>;

/// The entries of the YAML mapping that `source` holds; none where
/// `source` holds no mapping, a key twice, or anything but texts and null.
pub open spec fn yaml_mapping_of(source: Seq<char>) -> Option<Seq<(FieldView, FieldView)>> {
    if yaml_is_mapping(source) {
        yaml_texts_of(source)
    } else {
        None
    }
}

/// The entries of the JSON object that `source` holds, in the order in
/// which the decoder keeps them, which is that of the keys; none where
/// `source` is no JSON object. Of a key that stands twice the decoder
/// keeps the last value, so that no key stands twice among the entries.
pub uninterp spec fn json_object_of(source: Seq<char>) -> Option<Seq<(FieldView, FieldView)>>;

/// Why `serde_yaml` could not read a text.
#[verifier::external_type_specification]
#[verifier::external_body]
pub struct ExYamlError(serde_yaml::Error);

/// Why `serde_json` could not read a text.
#[verifier::external_type_specification]
#[verifier::external_body]
pub struct ExJsonError(serde_json::Error);

/// Tells whether `source` holds a YAML mapping in which no key stands
/// twice.
///
/// Trusted: calls `serde_yaml::from_str` for a `serde_yaml::Mapping`,
/// which fails on a document that is no mapping and on a key that stands
/// twice, and hands back whether it failed, with its error. The result
/// depends on the text alone.
#[verifier::external_body]
fn yaml_check(source: &str) -> (r: Result<(), serde_yaml::Error>)
    ensures
        r is Ok <==> yaml_is_mapping(source@),
{
    match serde_yaml::from_str::<serde_yaml::Mapping>(source) {
        Ok(_) => Ok(()),
        Err(error) => Err(error),
    }
}

/// Reads `source` as a YAML mapping of texts.
///
/// Trusted: calls `serde_yaml::from_str` for a map from `String` to
/// `Option<String>`, for which the decoder hands on the text of every
/// scalar as it is written and takes null and the empty plain scalar as
/// no value. Hands out the entries in the order of the map, which is that
/// of the keys; or the decoder's error. The result depends on the text
/// alone.
#[verifier::external_body]
fn yaml_entries(source: &str) -> (r: Result<Vec<(Field, Field)>, serde_yaml::Error>)
    ensures
        r is Ok <==> yaml_texts_of(source@) is Some,
        r matches Ok(entries) ==> Some(entries_view(entries@)) == yaml_texts_of(source@),
{
    let texts =
        serde_yaml::from_str::<std::collections::BTreeMap<String, Option<String>>>(source)?;
    Ok(texts.into_iter().map(|(key, value)| (
        Field::Text(key),
        match value {
            Some(text) => Field::Text(text),
            None => Field::Null,
        },
    )).collect())
}

/// Reads `source` as a JSON object.
///
/// Trusted: calls `serde_json::from_str` for a `serde_json::Map` and hands
/// out the entries of the map in its order, each key as its text and each
/// value as null, as its text, or as anything else; or the decoder's error.
/// The map keeps the last value of a key that stands twice. The result
/// depends on the text alone.
#[verifier::external_body]
fn json_entries(source: &str) -> (r: Result<Vec<(Field, Field)>, serde_json::Error>)
    ensures
        r is Ok <==> json_object_of(source@) is Some,
        r matches Ok(entries) ==> Some(entries_view(entries@)) == json_object_of(source@),
{
    let map = serde_json::from_str::<serde_json::Map<String, serde_json::Value>>(source)?;
    Ok(map.into_iter().map(|(key, value)| (
        Field::Text(key),
        match value {
            serde_json::Value::Null => Field::Null,
            serde_json::Value::String(text) => Field::Text(text),
            _ => Field::Other,
        },
    )).collect())
}

/// The words of a YAML decoder's error.
///
/// Trusted: calls `to_string` on a `serde_yaml::Error`. Nothing is claimed
/// of the words.
#[verifier::external_body]
fn yaml_error_words(error: &serde_yaml::Error) -> (r: String) {
    error.to_string()
}

/// The words of a JSON decoder's error.
///
/// Trusted: calls `to_string` on a `serde_json::Error`. Nothing is claimed
/// of the words.
#[verifier::external_body]
fn json_error_words(error: &serde_json::Error) -> (r: String) {
    error.to_string()
}

/// The fields read so far, and which keys have been met.
pub struct Seen {
    pub post: PostInputView,
    pub title: bool,
    pub slug: bool,
    pub published_at: bool,
}

impl Seen {
    /// No key met, no field read.
    pub open spec fn nothing() -> Seen {
        Seen { post: PostInputView::empty(), title: false, slug: false, published_at: false }
    }
}

/// The text that a field holds: none for null, and a fault for anything
/// that is neither a text nor null.
pub open spec fn text_of(key: Seq<char>, value: FieldView) -> Result<
    Option<Seq<char>>,
    DecodeFaultView,
> {
    match value {
        FieldView::Null => Ok(None),
        FieldView::Text(text) => Ok(Some(text)),
        FieldView::Other => Err(DecodeFaultView::WrongType(key)),
    }
}

/// What one entry adds to the fields read so far: the value of a key that
/// is known and new, and a fault for any other key, for a value of the
/// wrong kind and for a text that is no publish date.
pub open spec fn entry_spec(seen: Seen, key: FieldView, value: FieldView, now: Moment) -> Result<
    Seen,
    DecodeFaultView,
> {
    match key {
        FieldView::Text(k) => if k == "title"@ {
            if seen.title {
                Err(DecodeFaultView::DuplicateField(k))
            } else {
                match text_of(k, value) {
                    Ok(text) => Ok(
                        Seen { post: PostInputView { title: text, ..seen.post }, title: true, ..seen },
                    ),
                    Err(fault) => Err(fault),
                }
            }
        } else if k == "slug"@ {
            if seen.slug {
                Err(DecodeFaultView::DuplicateField(k))
            } else {
                match text_of(k, value) {
                    Ok(text) => Ok(
                        Seen { post: PostInputView { slug: text, ..seen.post }, slug: true, ..seen },
                    ),
                    Err(fault) => Err(fault),
                }
            }
        } else if k == "published_at"@ {
            if seen.published_at {
                Err(DecodeFaultView::DuplicateField(k))
            } else {
                match text_of(k, value) {
                    Ok(None) => Ok(Seen { published_at: true, ..seen }),
                    Ok(Some(text)) => match parse_spec(text, now) {
                        Ok(date) => Ok(
                            Seen {
                                post: PostInputView { published_at: Some(date), ..seen.post },
                                published_at: true,
                                ..seen
                            },
                        ),
                        Err(fault) => Err(DecodeFaultView::Date(fault)),
                    },
                    Err(fault) => Err(fault),
                }
            }
        } else {
            Err(DecodeFaultView::UnknownField(k))
        },
        _ => Err(DecodeFaultView::KeyNotText),
    }
}

/// What the entries from `at` on add to the fields read so far. The first
/// fault ends the reading.
pub open spec fn entries_spec(
    entries: Seq<(FieldView, FieldView)>,
    at: int,
    seen: Seen,
    now: Moment,
) -> Result<PostInputView, DecodeFaultView>
    decreases entries.len() - at,
{
    if at < 0 || at >= entries.len() {
        Ok(seen.post)
    } else {
        match entry_spec(seen, entries[at].0, entries[at].1, now) {
            Ok(next) => entries_spec(entries, at + 1, next, now),
            Err(fault) => Err(fault),
        }
    }
}

/// The fields of a post that the entries of a mapping give.
pub open spec fn decode_spec(entries: Seq<(FieldView, FieldView)>, now: Moment) -> Result<
    PostInputView,
    DecodeFaultView,
> {
    entries_spec(entries, 0, Seen::nothing(), now)
}

/// A result of reading fields, with its texts as sequences of characters.
pub open spec fn decoded_view(r: Result<PostInput, DecodeFault>) -> Result<
    PostInputView,
    DecodeFaultView,
> {
    match r {
        Ok(post) => Ok(post@),
        Err(fault) => Err(fault@),
    }
}

fn field_text(key: &String, value: &Field) -> (r: Result<Option<String>, DecodeFault>)
    ensures
        match text_of(key@, value@) {
            Ok(text) => r matches Ok(t) && crate::text::opt_view(t) == text,
            Err(fault) => r matches Err(f) && f@ == fault,
        },
{
    match value {
        Field::Null => Ok(None),
        Field::Text(text) => Ok(Some(text.clone())),
        Field::Other => Err(DecodeFault::WrongType(key.clone())),
    }
}

/// Reads the fields of a post from the entries of a mapping, with the
/// clock at `now`. The keys `title`, `slug` and `published_at` may each
/// stand once, with a text or null; `published_at` is read as a publish
/// date. The first entry that breaks these rules ends the reading with its
/// fault.
pub fn decode_fields(entries: &Vec<(Field, Field)>, now: &Moment) -> (r: Result<
    PostInput,
    DecodeFault,
>)
    requires
        now.wf(),
    ensures
        decoded_view(r) == decode_spec(entries_view(entries@), *now),
        r matches Ok(post) ==> post@.wf() && post@.body is None,
{
    let mut post = PostInput::default();
    let mut seen_title = false;
    let mut seen_slug = false;
    let mut seen_date = false;
    let ghost all = entries_view(entries@);
    let mut at: usize = 0;
    while at < entries.len()
        invariant
            now.wf(),
            at <= entries.len(),
            all == entries_view(entries@),
            post@.wf(),
            post@.body is None,
            decode_spec(all, *now) == entries_spec(
                all,
                at as int,
                Seen { post: post@, title: seen_title, slug: seen_slug, published_at: seen_date },
                *now,
            ),
        decreases entries.len() - at,
    {
        let entry = &entries[at];
        let ghost seen = Seen {
            post: post@,
            title: seen_title,
            slug: seen_slug,
            published_at: seen_date,
        };
        assert(all[at as int] == (entry.0@, entry.1@));
        match &entry.0 {
            Field::Text(key) => {
                if same_text(key.as_str(), "title") {
                    if seen_title {
                        return Err(DecodeFault::DuplicateField(key.clone()));
                    }
                    match field_text(key, &entry.1) {
                        Ok(text) => {
                            post.title = text;
                            seen_title = true;
                        },
                        Err(fault) => {
                            return Err(fault);
                        },
                    }
                } else if same_text(key.as_str(), "slug") {
                    if seen_slug {
                        return Err(DecodeFault::DuplicateField(key.clone()));
                    }
                    match field_text(key, &entry.1) {
                        Ok(text) => {
                            post.slug = text;
                            seen_slug = true;
                        },
                        Err(fault) => {
                            return Err(fault);
                        },
                    }
                } else if same_text(key.as_str(), "published_at") {
                    if seen_date {
                        return Err(DecodeFault::DuplicateField(key.clone()));
                    }
                    match field_text(key, &entry.1) {
                        Ok(None) => {
                            seen_date = true;
                        },
                        Ok(Some(text)) => match parse(text.as_str(), now) {
                            Ok(date) => {
                                post.published_at = Some(date);
                                seen_date = true;
                            },
                            Err(fault) => {
                                return Err(DecodeFault::Date(fault));
                            },
                        },
                        Err(fault) => {
                            return Err(fault);
                        },
                    }
                } else {
                    return Err(DecodeFault::UnknownField(key.clone()));
                }
            },
            _ => {
                return Err(DecodeFault::KeyNotText);
            },
        }
        at += 1;
    }
    Ok(post)
}

/// The entries of the mapping that `source` holds in the given language.
pub open spec fn mapping_of(language: Language, source: Seq<char>) -> Option<
    Seq<(FieldView, FieldView)>,
> {
    match language {
        Language::Yaml => yaml_mapping_of(source),
        Language::Json => json_object_of(source),
    }
}

/// The entries that a code block holds: those of the mapping in the
/// language that the block is marked with.
pub open spec fn block_spec(language: Option<Seq<char>>, source: Seq<char>) -> Result<
    Seq<(FieldView, FieldView)>,
    CommandErrorView,
> {
    match language_spec(language) {
        None => Err(CommandErrorView::UnsupportedFrontmatterLanguage(language->Some_0)),
        Some(l) => match mapping_of(l, source) {
            None => Err(CommandErrorView::FrontmatterDecode(DecodeFaultView::Malformed)),
            Some(entries) => Ok(entries),
        },
    }
}

/// A block reads alike whether it is marked `yaml` or `yml`, fenced
/// without a mark, or set off by indentation.
pub proof fn lemma_yaml_marks_read_alike(source: Seq<char>)
    ensures
        block_spec(Some("yml"@), source) == block_spec(Some("yaml"@), source),
        block_spec(Some(Seq::<char>::empty()), source) == block_spec(Some("yaml"@), source),
        block_spec(None, source) == block_spec(Some("yaml"@), source),
{
}

/// Reads the entries of a code block. A block marked with another
/// language than YAML and JSON is refused before anything is read.
pub fn read_block(block: &CodeBlock) -> (r: Result<Vec<(Field, Field)>, CommandError>)
    ensures
        match block_spec(block@.language, block@.source) {
            Ok(entries) => r matches Ok(e) && entries_view(e@) == entries,
            Err(error) => r matches Err(e) && e@ == error,
        },
{
    match Language::of_tag(&block.language) {
        Err(error) => Err(error),
        Ok(Language::Yaml) => match yaml_check(block.source.as_str()) {
            Err(error) => Err(
                CommandError::FrontmatterDecode(DecodeFault::Malformed(yaml_error_words(&error))),
            ),
            Ok(()) => match yaml_entries(block.source.as_str()) {
                Ok(entries) => Ok(entries),
                Err(error) => Err(
                    CommandError::FrontmatterDecode(
                        DecodeFault::Malformed(yaml_error_words(&error)),
                    ),
                ),
            },
        },
        Ok(Language::Json) => match json_entries(block.source.as_str()) {
            Ok(entries) => Ok(entries),
            Err(error) => Err(
                CommandError::FrontmatterDecode(DecodeFault::Malformed(json_error_words(&error))),
            ),
        },
    }
}

} // verus!
