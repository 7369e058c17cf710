use mataroa_cli::date::{Date, Moment};
use mataroa_cli::dateformat::PublishDate;
use mataroa_cli::error::{CommandError, DateError, DecodeFault};
use mataroa_cli::fields::{decode_fields, read_block, Field};
use mataroa_cli::input::PostInput;
use mataroa_cli::markdown::{body_of, CodeBlock, Drawn, Frontmatter, Language, Scan};
use mataroa_cli::text::same_text;
use mataroa_cli::post::Post;

fn day(year: i32, month: u32, day: u32) -> Date {
    Date::new(year, month, day).unwrap()
}

fn noon() -> Moment {
    Moment::new(day(2029, 6, 15), 12, 0, 0).unwrap()
}

fn text(s: &str) -> Option<String> {
    Some(s.to_owned())
}

#[test]
fn extract_heading_block_and_body() {
    let post = PostInput::from_markdown(
        "# Hello\n\n```yml\npublished_at: \"2030-01-01\"\n```\n\nBody text.",
        &noon(),
    )
    .unwrap();
    assert_eq!(post.title, text("Hello"));
    assert_eq!(post.published_at, Some(PublishDate::Date(day(2030, 1, 1))));
    assert_eq!(post.slug, None);
    assert_eq!(post.body, text("Body text."));
}

#[test]
fn structured_title_wins_over_heading() {
    let post = PostInput::from_markdown(
        "# Original\n\n```yml\ntitle: \"Override\"\n```\n\nBody",
        &noon(),
    )
    .unwrap();
    assert_eq!(post.title, text("Override"));
    assert_eq!(post.body, text("Body"));
}

#[test]
fn toml_block_is_refused() {
    let error =
        PostInput::from_markdown("# T\n\n```toml\ntitle = \"x\"\n```\n\nBody", &noon()).unwrap_err();
    assert_eq!(error, CommandError::UnsupportedFrontmatterLanguage("toml".to_owned()));
    assert_eq!(error.message(), "'toml' is not supported, only yaml and json are.");
}

#[test]
fn unknown_key_is_refused() {
    let error =
        PostInput::from_markdown("```yml\nauthor: foo\n```\n\nBody", &noon()).unwrap_err();
    assert_eq!(
        error,
        CommandError::FrontmatterDecode(DecodeFault::UnknownField("author".to_owned()))
    );
    assert!(error.message().contains("author"));
}

#[test]
fn unknown_key_in_json_is_refused() {
    let error = PostInput::from_markdown("```json\n{\"author\": \"foo\"}\n```\n\nBody", &noon())
        .unwrap_err();
    assert_eq!(
        error,
        CommandError::FrontmatterDecode(DecodeFault::UnknownField("author".to_owned()))
    );
}

#[test]
fn body_alone() {
    let post = PostInput::from_markdown("Just some text.\n\nAnd more.\n", &noon()).unwrap();
    assert_eq!(post.title, None);
    assert_eq!(post.slug, None);
    assert_eq!(post.published_at, None);
    assert_eq!(post.body, text("Just some text.\n\nAnd more."));
}

#[test]
fn heading_without_block() {
    let post = PostInput::from_markdown("# Title\n\nBody here.\n", &noon()).unwrap();
    assert_eq!(post.title, text("Title"));
    assert_eq!(post.slug, None);
    assert_eq!(post.published_at, None);
    assert_eq!(post.body, text("Body here."));
}

#[test]
fn heading_alone_has_no_body() {
    let post = PostInput::from_markdown("# Title\n", &noon()).unwrap();
    assert_eq!(post.title, text("Title"));
    assert_eq!(post.body, None);
}

#[test]
fn empty_document() {
    let post = PostInput::from_markdown("", &noon()).unwrap();
    assert_eq!(post, PostInput::default());
    let post = PostInput::from_markdown("  \n\n \t\n", &noon()).unwrap();
    assert_eq!(post, PostInput::default());
}

#[test]
fn json_block() {
    let post = PostInput::from_markdown(
        "# H\n\n```json\n{\"slug\": \"my-post\", \"published_at\": \"2031-02-03\"}\n```\n\nB\n",
        &noon(),
    )
    .unwrap();
    assert_eq!(post.title, text("H"));
    assert_eq!(post.slug, text("my-post"));
    assert_eq!(post.published_at, Some(PublishDate::Date(day(2031, 2, 3))));
    assert_eq!(post.body, text("B"));
}

#[test]
fn yaml_block_with_all_fields() {
    let post = PostInput::from_markdown(
        "```yaml\ntitle: A title\nslug: a-slug\npublished_at: draft\n```\n\nText\n",
        &noon(),
    )
    .unwrap();
    assert_eq!(post.title, text("A title"));
    assert_eq!(post.slug, text("a-slug"));
    assert_eq!(post.published_at, Some(PublishDate::Draft));
    assert_eq!(post.body, text("Text"));
}

#[test]
fn empty_publish_date_is_draft_and_null_is_absent() {
    let post =
        PostInput::from_markdown("```yml\npublished_at: \"\"\n```\n\nText\n", &noon()).unwrap();
    assert_eq!(post.published_at, Some(PublishDate::Draft));
    let post =
        PostInput::from_markdown("```yml\npublished_at: null\nslug: s\n```\n\nText\n", &noon())
            .unwrap();
    assert_eq!(post.published_at, None);
    assert_eq!(post.slug, text("s"));
}

#[test]
fn publish_date_phrase_in_block_uses_the_clock() {
    let post =
        PostInput::from_markdown("```yml\npublished_at: tomorrow\n```\n\nText\n", &noon()).unwrap();
    assert_eq!(post.published_at, Some(PublishDate::Date(day(2029, 6, 16))));
}

#[test]
fn bad_publish_date_in_block_is_a_decode_fault() {
    let error = PostInput::from_markdown("```yml\npublished_at: whenever\n```\n\nText\n", &noon())
        .unwrap_err();
    assert_eq!(
        error,
        CommandError::FrontmatterDecode(DecodeFault::Date(DateError::InvalidDate(
            "whenever".to_owned()
        )))
    );
}

#[test]
fn wrong_type_in_block_is_a_decode_fault() {
    let error =
        PostInput::from_markdown("```json\n{\"title\": 12}\n```\n\nText\n", &noon()).unwrap_err();
    assert_eq!(
        error,
        CommandError::FrontmatterDecode(DecodeFault::WrongType("title".to_owned()))
    );
}

#[test]
fn malformed_block_is_a_decode_fault() {
    let error =
        PostInput::from_markdown("```json\n{\"title\": \n```\n\nText\n", &noon()).unwrap_err();
    assert!(matches!(error, CommandError::FrontmatterDecode(DecodeFault::Malformed(_))));
    let error =
        PostInput::from_markdown("```yml\n- a\n- b\n```\n\nText\n", &noon()).unwrap_err();
    assert!(matches!(error, CommandError::FrontmatterDecode(DecodeFault::Malformed(_))));
}

#[test]
fn fence_without_mark_is_yaml() {
    let post = PostInput::from_markdown("```\ntitle: x\n```\n\nText\n", &noon()).unwrap();
    assert_eq!(post.title, text("x"));
    assert_eq!(post.body, text("Text"));
}

#[test]
fn fence_reads_alike_with_yaml_yml_and_no_mark() {
    let block = "title: T\nslug: s\npublished_at: \"2030-01-01\"\n";
    let read = |mark: &str| {
        PostInput::from_markdown(&format!("# H\n\n```{mark}\n{block}```\n\nBody\n"), &noon())
    };
    let expected = PostInput {
        title: text("T"),
        slug: text("s"),
        published_at: Some(PublishDate::Date(day(2030, 1, 1))),
        body: text("Body"),
    };
    assert_eq!(read("yaml"), Ok(expected.clone()));
    assert_eq!(read("yml"), Ok(expected.clone()));
    assert_eq!(read(""), Ok(expected));
}

#[test]
fn fence_fails_alike_with_yaml_yml_and_no_mark() {
    let read = |mark: &str| {
        PostInput::from_markdown(&format!("```{mark}\nauthor: foo\n```\n\nBody\n"), &noon())
    };
    let expected =
        Err(CommandError::FrontmatterDecode(DecodeFault::UnknownField("author".to_owned())));
    assert_eq!(read("yaml"), expected);
    assert_eq!(read("yml"), expected);
    assert_eq!(read(""), expected);
}

#[test]
fn body_keeps_the_mark_that_it_opens_with() {
    let head = "# T\n\n```yml\nslug: s\n```\n\n";
    for body in [
        "## Section\n\nText.",
        "> A quote\n\nText.",
        "---\n\nText.",
        "```rust\nfn main() {}\n```\n\nText.",
        "- one\n- two",
        "1. one\n2. two",
        "**Bold** start.",
        "<div>html</div>\n\nText.",
    ] {
        let post = PostInput::from_markdown(&format!("{head}{body}\n"), &noon()).unwrap();
        assert_eq!(post.title, text("T"), "{body}");
        assert_eq!(post.slug, text("s"), "{body}");
        assert_eq!(post.body, text(body), "{body}");
    }
}

#[test]
fn body_after_a_heading_alone_keeps_the_mark_that_it_opens_with() {
    for body in ["## Section\n\nText.", "> A quote", "---\n\nText."] {
        let post = PostInput::from_markdown(&format!("# T\n\n{body}\n"), &noon()).unwrap();
        assert_eq!(post.title, text("T"), "{body}");
        assert_eq!(post.body, text(body), "{body}");
    }
}

#[test]
fn document_without_head_is_all_body() {
    for content in ["## Section\n\nText.", "> A quote\n\nText.", "---\n\nText.", "- one\n- two"] {
        let post = PostInput::from_markdown(content, &noon()).unwrap();
        assert_eq!(post.title, None, "{content}");
        assert_eq!(post.body, text(content), "{content}");
    }
}

#[test]
fn body_holds_what_makes_no_event() {
    let post =
        PostInput::from_markdown("# T\n\n[home]: https://example.org\n", &noon()).unwrap();
    assert_eq!(post.title, text("T"));
    assert_eq!(post.body, text("[home]: https://example.org"));
}

#[test]
fn yaml_scalars_are_texts() {
    let post = PostInput::from_markdown(
        "```yml\nslug: 2024\ntitle: 1984\n```\n\nText\n",
        &noon(),
    )
    .unwrap();
    assert_eq!(post.slug, text("2024"));
    assert_eq!(post.title, text("1984"));
    let post =
        PostInput::from_markdown("```yml\nslug: 1.50\ntitle: True\n```\n\nText\n", &noon())
            .unwrap();
    assert_eq!(post.slug, text("1.50"));
    assert_eq!(post.title, text("True"));
}

#[test]
fn rendered_post_with_a_number_as_slug_reads_back() {
    let post = Post {
        slug: "2024".to_owned(),
        title: text("1984"),
        body: text("B"),
        published_at: text("2030-01-01"),
        url: None,
    };
    let read = PostInput::from_markdown(&post.render(), &noon()).unwrap();
    assert_eq!(read.slug, text("2024"));
    assert_eq!(read.title, text("1984"));
    assert_eq!(read.published_at, Some(PublishDate::Date(day(2030, 1, 1))));
    assert_eq!(read.body, text("B"));
}

#[test]
fn yaml_value_that_is_no_scalar_is_a_decode_fault() {
    let error = PostInput::from_markdown("```yml\ntitle: [a, b]\n```\n\nText\n", &noon())
        .unwrap_err();
    assert!(matches!(error, CommandError::FrontmatterDecode(DecodeFault::Malformed(_))));
    let error = PostInput::from_markdown("```yml\nslug:\n  a: b\n```\n\nText\n", &noon())
        .unwrap_err();
    assert!(matches!(error, CommandError::FrontmatterDecode(DecodeFault::Malformed(_))));
}

#[test]
fn yaml_key_that_stands_twice_is_a_decode_fault() {
    let error = PostInput::from_markdown("```yml\ntitle: a\ntitle: b\n```\n\nText\n", &noon())
        .unwrap_err();
    assert!(matches!(error, CommandError::FrontmatterDecode(DecodeFault::Malformed(_))));
}

#[test]
fn indented_block_is_yaml() {
    let post = PostInput::from_markdown("# T\n\n    slug: s\n\nText\n", &noon()).unwrap();
    assert_eq!(post.title, text("T"));
    assert_eq!(post.slug, text("s"));
    assert_eq!(post.body, text("Text"));
}

#[test]
fn render_then_extract_round_trip() {
    let post = Post {
        slug: "s".to_owned(),
        title: text("T"),
        body: text("B"),
        published_at: text("2030-01-01"),
        url: None,
    };
    let rendered = post.render();
    assert_eq!(rendered, "# T\n\n```yml\nslug: s\npublished_at: \"2030-01-01\"\n```\n\nB\n");
    let read = PostInput::from_markdown(&rendered, &noon()).unwrap();
    assert_eq!(read.slug, text("s"));
    assert_eq!(read.published_at, Some(PublishDate::Date(day(2030, 1, 1))));
    assert_eq!(read.body, text("B"));
    assert_eq!(read.title, text("T"));
}

#[test]
fn render_draft_round_trip() {
    let post = Post {
        slug: "a-draft".to_owned(),
        title: None,
        body: text("Line one.\n\nLine two."),
        published_at: None,
        url: text("https://example.org/a-draft"),
    };
    let rendered = post.render();
    assert_eq!(
        rendered,
        "```yml\nslug: a-draft\npublished_at: \"\"\n```\n\nLine one.\n\nLine two.\n"
    );
    let read = PostInput::from_markdown(&rendered, &noon()).unwrap();
    assert_eq!(read.title, None);
    assert_eq!(read.slug, text("a-draft"));
    assert_eq!(read.published_at, Some(PublishDate::Draft));
    assert_eq!(read.body, text("Line one.\n\nLine two."));
}

#[test]
fn scan_reports_head_and_rest() {
    let content = "# Hello\n\n```yml\nslug: x\n```\n\nBody text.";
    let scan = Scan::of(content);
    let head = scan.frontmatter.clone().unwrap();
    assert_eq!(head.title, text("Hello"));
    let block = head.code_block.unwrap();
    assert_eq!(block.language, text("yml"));
    assert_eq!(block.source, "slug: x\n");
    let start = scan.body_start();
    assert!(content.find("```\n\n").unwrap() + 3 <= start);
    assert!(start <= content.find("Body").unwrap());
    assert_eq!(content[start..].trim(), "Body text.");
}

#[test]
fn scan_of_plain_text() {
    let scan = Scan::of("plain");
    assert_eq!(scan.frontmatter, None);
    assert_eq!(scan.drawn, vec![Drawn { closes: false, start: 0, end: 5 }]);
    assert_eq!(scan.body_start(), 0);
    let scan = Scan::of("");
    assert_eq!(scan.frontmatter, None);
    assert_eq!(scan.drawn, vec![]);
    assert_eq!(scan.body_start(), 0);
}

fn drawn(closes: bool, start: usize, end: usize) -> Drawn {
    Drawn { closes, start, end }
}

fn scan_with(found: bool, events: Vec<Drawn>) -> Scan {
    let frontmatter = if found { Some(Frontmatter { title: text("T"), code_block: None }) } else { None };
    Scan { frontmatter, drawn: events }
}

#[test]
fn body_start_is_the_end_of_the_head() {
    let head = vec![drawn(false, 0, 4), drawn(false, 2, 3), drawn(true, 0, 4)];
    assert_eq!(scan_with(true, head.clone()).body_start(), 4);
    let mut with_body = head.clone();
    with_body.push(drawn(false, 5, 9));
    assert_eq!(scan_with(true, with_body.clone()).body_start(), 4);
    assert_eq!(scan_with(false, with_body).body_start(), 0);
    assert_eq!(scan_with(false, head).body_start(), 0);
    assert_eq!(scan_with(true, vec![]).body_start(), 0);
    assert_eq!(scan_with(true, vec![drawn(false, 7, 9)]).body_start(), 7);
    assert_eq!(scan_with(true, vec![drawn(false, 1, 2), drawn(false, 7, 9)]).body_start(), 7);
}

#[test]
fn body_of_trims_and_drops_empty() {
    assert_eq!(body_of("head  body \n", 4), Ok(text("body")));
    assert_eq!(body_of("head \n\t ", 4), Ok(None));
    assert_eq!(body_of("head", 4), Ok(None));
    assert_eq!(body_of("head", 0), Ok(text("head")));
    assert_eq!(body_of("\u{a0}x\u{3000}", 0), Ok(text("x")));
}

#[test]
fn body_of_refuses_a_position_inside_a_character() {
    assert_eq!(body_of("\u{e4}b", 1), Err(CommandError::BodyOffset(1)));
    assert_eq!(body_of("\u{e4}b", 2), Ok(text("b")));
    assert_eq!(body_of("ab", 3), Err(CommandError::BodyOffset(3)));
}

#[test]
fn language_of_tag() {
    assert_eq!(Language::of_tag(&None), Ok(Language::Yaml));
    assert_eq!(Language::of_tag(&text("yaml")), Ok(Language::Yaml));
    assert_eq!(Language::of_tag(&text("yml")), Ok(Language::Yaml));
    assert_eq!(Language::of_tag(&text("")), Ok(Language::Yaml));
    assert_eq!(Language::of_tag(&text("json")), Ok(Language::Json));
    assert_eq!(
        Language::of_tag(&text(" ")),
        Err(CommandError::UnsupportedFrontmatterLanguage(" ".to_owned()))
    );
    assert_eq!(
        Language::of_tag(&text("YAML")),
        Err(CommandError::UnsupportedFrontmatterLanguage("YAML".to_owned()))
    );
    assert_eq!(
        Language::of_tag(&text("toml")),
        Err(CommandError::UnsupportedFrontmatterLanguage("toml".to_owned()))
    );
}

fn key(s: &str) -> Field {
    Field::Text(s.to_owned())
}

#[test]
fn decode_fields_reads_known_keys() {
    let entries = vec![
        (key("slug"), key("s")),
        (key("title"), Field::Null),
        (key("published_at"), key("2030-01-01")),
    ];
    let post = decode_fields(&entries, &noon()).unwrap();
    assert_eq!(post.slug, text("s"));
    assert_eq!(post.title, None);
    assert_eq!(post.published_at, Some(PublishDate::Date(day(2030, 1, 1))));
    assert_eq!(post.body, None);
    assert_eq!(decode_fields(&vec![], &noon()), Ok(PostInput::default()));
}

#[test]
fn decode_fields_faults() {
    assert_eq!(
        decode_fields(&vec![(key("body"), key("b"))], &noon()),
        Err(DecodeFault::UnknownField("body".to_owned()))
    );
    assert_eq!(
        decode_fields(&vec![(Field::Other, key("b"))], &noon()),
        Err(DecodeFault::KeyNotText)
    );
    assert_eq!(
        decode_fields(&vec![(Field::Null, key("b"))], &noon()),
        Err(DecodeFault::KeyNotText)
    );
    assert_eq!(
        decode_fields(&vec![(key("slug"), Field::Other)], &noon()),
        Err(DecodeFault::WrongType("slug".to_owned()))
    );
    assert_eq!(
        decode_fields(&vec![(key("title"), key("a")), (key("title"), key("b"))], &noon()),
        Err(DecodeFault::DuplicateField("title".to_owned()))
    );
    assert_eq!(
        decode_fields(&vec![(key("title"), Field::Null), (key("title"), key("b"))], &noon()),
        Err(DecodeFault::DuplicateField("title".to_owned()))
    );
    assert_eq!(
        decode_fields(&vec![(key("published_at"), key("9:15"))], &noon()),
        Err(DecodeFault::Date(DateError::NeedDateNotTime("9:15".to_owned())))
    );
}

#[test]
fn decode_fields_reports_the_first_fault() {
    let entries = vec![
        (key("slug"), key("s")),
        (key("nope"), key("x")),
        (key("slug"), key("t")),
    ];
    assert_eq!(
        decode_fields(&entries, &noon()),
        Err(DecodeFault::UnknownField("nope".to_owned()))
    );
}

#[test]
fn read_block_hands_out_entries() {
    let block = CodeBlock { language: text("yml"), source: "slug: s\ntitle: ~\nn: 3\n".to_owned() };
    assert_eq!(
        read_block(&block),
        Ok(vec![(key("n"), key("3")), (key("slug"), key("s")), (key("title"), Field::Null)])
    );
    let block = CodeBlock { language: text(""), source: "slug: s\n".to_owned() };
    assert_eq!(read_block(&block), Ok(vec![(key("slug"), key("s"))]));
    let block = CodeBlock { language: text("json"), source: "{\"n\": 3}".to_owned() };
    assert_eq!(read_block(&block), Ok(vec![(key("n"), Field::Other)]));
    let block =
        CodeBlock { language: text("json"), source: "{\"b\": null, \"a\": \"x\"}".to_owned() };
    assert_eq!(read_block(&block), Ok(vec![(key("a"), key("x")), (key("b"), Field::Null)]));
    let block = CodeBlock { language: text("ini"), source: "a=b".to_owned() };
    assert_eq!(
        read_block(&block),
        Err(CommandError::UnsupportedFrontmatterLanguage("ini".to_owned()))
    );
}

#[test]
fn from_frontmatter_without_head_is_body_alone() {
    let post = PostInput::from_frontmatter(None, text("b"), &noon()).unwrap();
    assert_eq!(post, PostInput { title: None, slug: None, published_at: None, body: text("b") });
}

#[test]
fn from_frontmatter_without_block_takes_the_heading() {
    let head = Frontmatter { title: text("H"), code_block: None };
    let post = PostInput::from_frontmatter(Some(head), None, &noon()).unwrap();
    assert_eq!(post, PostInput { title: text("H"), slug: None, published_at: None, body: None });
}

#[test]
fn from_frontmatter_with_block() {
    let block = CodeBlock { language: None, source: "slug: s\n".to_owned() };
    let head = Frontmatter { title: text("H"), code_block: Some(block) };
    let post = PostInput::from_frontmatter(Some(head), text("b"), &noon()).unwrap();
    assert_eq!(post, PostInput { title: text("H"), slug: text("s"), published_at: None, body: text("b") });
}

#[test]
fn from_parts_prefers_the_title_of_the_fields() {
    let meta = PostInput { title: text("M"), slug: text("s"), published_at: None, body: None };
    let post = PostInput::from_parts(meta, text("H"), text("b"));
    assert_eq!(post, PostInput { title: text("M"), slug: text("s"), published_at: None, body: text("b") });
    let meta = PostInput { title: None, slug: None, published_at: Some(PublishDate::Draft), body: None };
    let post = PostInput::from_parts(meta, text("H"), None);
    assert_eq!(
        post,
        PostInput { title: text("H"), slug: None, published_at: Some(PublishDate::Draft), body: None }
    );
}

#[test]
fn title_keeps_its_white_space_and_body_loses_it() {
    let post = PostInput::from_markdown(
        "```yml\ntitle: \"  spaced out  \"\n```\n\n\n   Body with room.   \n\n",
        &noon(),
    )
    .unwrap();
    assert_eq!(post.title, text("  spaced out  "));
    assert_eq!(post.body, text("Body with room."));
}

#[test]
fn empty_title_stays_and_empty_body_goes() {
    let post = PostInput::from_markdown("```yml\ntitle: \"\"\n```\n\n   \n", &noon()).unwrap();
    assert_eq!(post.title, text(""));
    assert_eq!(post.body, None);
}

#[test]
fn same_text_compares_the_characters() {
    assert!(same_text("", ""));
    assert!(same_text("yaml", "yaml"));
    assert!(same_text("gr\u{fc}n", "gr\u{fc}n"));
    assert!(!same_text("yaml", "yam"));
    assert!(!same_text("yaml", "yamL"));
    assert!(!same_text("gr\u{fc}n", "gru\u{308}n"));
    assert!(!same_text("", " "));
}
