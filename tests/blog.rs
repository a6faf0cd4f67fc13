use new_blog::article_cache::{ArticleCache, ArticleStep};
use new_blog::list_cache::{ListCache, ListError, LIST_TTL_SECONDS};
use new_blog::source::{manifest_url, ArticleKey, FetchError, SourceResponse};
use new_blog::date::{format_date, ArticleDate};
use new_blog::markdown::MarkdownOptions;
use new_blog::order::newest_first_order;
use new_blog::pages::{render_article, Article, List};
use new_blog::text::{chars_of, same_text, split_article};
use new_blog::types::{default_branch, ArticleData, BlogParams, RawArticleData, Theme};

const NANOS: i128 = 1_000_000_000;

fn date(unix_seconds: i128) -> ArticleDate {
    ArticleDate::new(unix_seconds * NANOS, 0).unwrap()
}

fn record(name: &str, unix_seconds: i128) -> RawArticleData {
    RawArticleData::new(
        name.to_string(),
        date(unix_seconds),
        format!("{name}.md"),
        None,
        None,
    )
}

fn ok(status: u16, body: &str) -> Result<SourceResponse, FetchError> {
    Ok(SourceResponse { status, body: body.to_string() })
}

fn key(filename: &str, reference: &str) -> ArticleKey {
    ArticleKey { filename: filename.to_string(), reference: reference.to_string() }
}

fn names(list: &List) -> Vec<String> {
    (0..list.len()).map(|i| list.get(i).name.clone()).collect()
}

#[test]
fn title_after_two_character_prefix() {
    let (title, body) = split_article("# Hello world\nfirst\nsecond\n");
    assert_eq!(title, "Hello world");
    assert_eq!(body, "first\nsecond");
}

#[test]
fn title_of_exactly_two_characters_is_empty() {
    let (title, body) = split_article("# \nbody text");
    assert_eq!(title, "");
    assert_eq!(body, "body text");
    let (title, body) = split_article("ab");
    assert_eq!(title, "");
    assert_eq!(body, "");
}

#[test]
fn short_first_line_gives_fallback() {
    assert_eq!(
        split_article("#\nrest"),
        ("載入失敗".to_string(), "請回上一頁".to_string())
    );
    assert_eq!(
        split_article(""),
        ("載入失敗".to_string(), "請回上一頁".to_string())
    );
}

#[test]
fn crlf_line_endings_are_joined_with_line_feeds() {
    let (title, body) = split_article("# 標題\r\n\r\n  one\r\ntwo\r\n\r\n");
    assert_eq!(title, "標題");
    assert_eq!(body, "one\ntwo");
}

#[test]
fn title_counts_characters_not_bytes() {
    let (title, _) = split_article("一二三四");
    assert_eq!(title, "三四");
}

#[test]
fn render_turns_markdown_into_html() {
    let page = render_article("# Post\n**bold** and ~~gone~~");
    assert_eq!(page.title, "Post");
    assert!(page.content.contains("<strong>bold</strong>"));
    assert!(page.content.contains("<del>gone</del>"));
    assert!(!page.content.contains("Post"));
}

#[test]
fn article_options_match_the_blog_settings() {
    let o = MarkdownOptions::for_articles();
    assert!(o.strikethrough && o.table && o.tasklist && o.superscript);
    assert!(o.smart_punctuation && o.github_pre_lang && o.raw_html);
    assert_eq!(o.highlight_theme, "base16-ocean.dark");
}

#[test]
fn dates_are_written_year_month_day() {
    assert_eq!(format_date(2024, 6, 15), "2024/06/15");
    assert_eq!(format_date(5, 1, 2), "0005/01/02");
    assert_eq!(format_date(-3, 12, 31), "-0003/12/31");
    assert_eq!(format_date(12345, 10, 10), "12345/10/10");
}

#[test]
fn dates_use_their_own_offset() {
    let utc = ArticleDate::new(0, 0).unwrap();
    assert_eq!(utc.format(), "1970/01/01");
    let behind = ArticleDate::new(0, -3600).unwrap();
    assert_eq!(behind.format(), "1969/12/31");
    assert_eq!(behind.unix_nanos(), 0);
    assert_eq!(behind.offset_seconds(), -3600);
    let ahead = ArticleDate::new(1718409600 * NANOS - 1, 8 * 3600).unwrap();
    assert_eq!(ahead.format(), "2024/06/15");
}

#[test]
fn unrepresentable_dates_are_refused() {
    assert!(ArticleDate::new(0, 200_000).is_none());
    assert!(ArticleDate::new(i128::MAX, 0).is_none());
}

#[test]
fn order_is_newest_first_and_reversed_on_ties() {
    let keys: Vec<i128> = vec![3, 1, 3, 2];
    assert_eq!(newest_first_order(&keys), vec![2, 0, 3, 1]);
    assert_eq!(newest_first_order(&Vec::new()), Vec::<usize>::new());
}

#[test]
fn descending_sort_with_formatting() {
    let list = List::from_manifest(vec![
        record("a", 1672531200),
        record("b", 1718409600),
        record("c", 1686787200),
    ]);
    assert_eq!(names(&list), vec!["b", "c", "a"]);
    let dates: Vec<String> = (0..list.len()).map(|i| list.get(i).date.clone()).collect();
    assert_eq!(dates, vec!["2024/06/15", "2023/06/15", "2023/01/01"]);
}

#[test]
fn same_instant_keeps_reversed_manifest_order() {
    let list = List::from_manifest(vec![record("x", 100), record("y", 100), record("z", 50)]);
    assert_eq!(names(&list), vec!["y", "x", "z"]);
}

#[test]
fn summary_keeps_record_fields() {
    let raw = RawArticleData::new(
        "Name".to_string(),
        date(1686787200),
        "post.md".to_string(),
        Some("intro".to_string()),
        Some("abc123".to_string()),
    );
    let data = ArticleData::from_raw(raw);
    assert_eq!(data.name, "Name");
    assert_eq!(data.date, "2023/06/15");
    assert_eq!(data.url, "post.md");
    assert_eq!(data.intro, Some("intro".to_string()));
    assert_eq!(data.commit, "abc123");
}

#[test]
fn record_without_commit_uses_main() {
    let raw = record("n", 0);
    assert_eq!(raw.commit, "main");
    assert_eq!(default_branch(), "main");
}

#[test]
fn default_reference() {
    let params = BlogParams::from_query("post.md".to_string(), None);
    assert_eq!(params.commit, "main");
    let k = ArticleKey::from_params(&params);
    assert_eq!(k.filename, "post.md");
    assert_eq!(k.reference, "main");
    let named = BlogParams::from_query("post.md".to_string(), Some("dev".to_string()));
    assert_eq!(named.commit, "dev");
}

#[test]
fn source_addresses() {
    assert_eq!(
        key("dir/post.md", "abc").source_url(),
        "https://raw.githubusercontent.com/ming900518/articles/abc/dir/post.md"
    );
    assert_eq!(
        manifest_url(),
        "https://raw.githubusercontent.com/ming900518/articles/main/article.json"
    );
}

#[test]
fn idempotent_cache_hit() {
    let mut cache = ArticleCache::new();
    let k = key("post.md", "main");
    assert!(cache.lookup(&k).is_none());
    let first = cache.complete(key("post.md", "main"), ok(200, "# Title\nHello"));
    assert_eq!(first.title(), "Title");
    let second = cache.lookup(&k).expect("stored after the first render");
    assert_eq!(second.title(), first.title());
    assert_eq!(second.content(), first.content());
    assert!(cache.lookup(&key("post.md", "other")).is_none());
}

#[test]
fn fetch_failure_does_not_pollute_cache() {
    let mut cache = ArticleCache::new();
    let k = key("post.md", "main");
    let failed = cache.complete(key("post.md", "main"), Err(FetchError::Network));
    assert_eq!(failed.title(), "錯誤");
    assert!(cache.lookup(&k).is_none());
    let served = cache.complete(key("post.md", "main"), ok(200, "# Real\nbody"));
    assert_eq!(served.title(), "Real");
    assert_eq!(cache.lookup(&k).unwrap().title(), "Real");
}

#[test]
fn bad_status_empty_body_and_decode_errors_are_failures() {
    let mut cache = ArticleCache::new();
    let k = key("post.md", "main");
    assert_eq!(cache.complete(key("post.md", "main"), ok(404, "# Not found\n")).title(), "錯誤");
    assert_eq!(cache.complete(key("post.md", "main"), ok(200, "")).title(), "錯誤");
    assert_eq!(cache.complete(key("post.md", "main"), Err(FetchError::Decode)).title(), "錯誤");
    assert!(cache.lookup(&k).is_none());
}

#[test]
fn a_later_render_replaces_the_entry() {
    let mut cache = ArticleCache::new();
    let k = key("post.md", "main");
    cache.complete(key("post.md", "main"), ok(200, "# One\n"));
    cache.complete(key("other.md", "main"), ok(200, "# Other\n"));
    cache.complete(key("post.md", "main"), ok(201, "# Two\n"));
    assert_eq!(cache.lookup(&k).unwrap().title(), "Two");
    assert_eq!(cache.lookup(&key("other.md", "main")).unwrap().title(), "Other");
}

#[test]
fn error_and_success_pages() {
    let e = Article::error();
    assert_eq!(e.title(), "錯誤");
    assert!(e.content().contains("mailto:mail@mingchang.tw"));
    let s = Article::success("t".to_string(), "<p>c</p>".to_string());
    assert_eq!(s.title(), "t");
    assert_eq!(s.content(), "<p>c</p>");
}

#[test]
fn ttl_expiry() {
    let t0: u64 = 1_000_000;
    let mut cache = ListCache::new();
    assert!(cache.lookup(t0).is_none());
    let first = cache.refresh(t0, Ok(vec![record("a", 10)])).unwrap();
    assert_eq!(names(&first), vec!["a"]);
    let hit = cache.lookup(t0 + 23 * 3600 + 59 * 60).expect("still fresh");
    assert_eq!(names(&hit), vec!["a"]);
    assert_eq!(cache.generated_at(), Some(t0));
    assert!(cache.lookup(t0 + 24 * 3600 + 60).is_none());
    assert!(cache.lookup(t0 + LIST_TTL_SECONDS).is_none());
    let later = t0 + 24 * 3600 + 60;
    let second = cache.refresh(later, Ok(vec![record("a", 10), record("b", 20)])).unwrap();
    assert_eq!(names(&second), vec!["b", "a"]);
    assert_eq!(cache.generated_at(), Some(later));
}

#[test]
fn failed_refresh_keeps_the_stored_index() {
    let mut cache = ListCache::new();
    assert_eq!(cache.refresh(5, Err(ListError::Fetch)).err(), Some(ListError::Fetch));
    assert_eq!(cache.generated_at(), None);
    cache.refresh(5, Ok(vec![record("a", 1)])).unwrap();
    assert_eq!(cache.refresh(5 + LIST_TTL_SECONDS, Err(ListError::Parse)).err(), Some(ListError::Parse));
    assert_eq!(cache.generated_at(), Some(5));
    assert!(cache.lookup(5 + LIST_TTL_SECONDS).is_none());
}

#[test]
fn themes_by_name_in_any_case() {
    assert_eq!(Theme::from("DARK"), Theme::Dark);
    assert_eq!(Theme::from("Dracula"), Theme::Dracula);
    assert_eq!(Theme::from("light"), Theme::Light);
    assert_eq!(Theme::from("nonsense"), Theme::Chisaki);
    assert_eq!(Theme::Coffee.name(), "coffee");
    assert_eq!(Theme::from_lowercase_name("retro"), Theme::Retro);
}

#[test]
fn text_helpers() {
    assert!(same_text("abc", "abc"));
    assert!(!same_text("abc", "abd"));
    assert_eq!(chars_of("a語b"), vec!['a', '語', 'b']);
}

#[test]
fn one_fetch_per_key_at_a_time() {
    let mut cache = ArticleCache::new();
    let k = key("post.md", "main");
    assert!(matches!(cache.begin(&k), ArticleStep::Fetch));
    assert!(matches!(cache.begin(&k), ArticleStep::Wait));
    assert!(matches!(cache.begin(&key("other.md", "main")), ArticleStep::Fetch));
    cache.complete(key("post.md", "main"), ok(200, "# Done\nbody"));
    match cache.begin(&k) {
        ArticleStep::Cached(page) => assert_eq!(page.title(), "Done"),
        _ => panic!("expected the stored article"),
    }
}

#[test]
fn failed_fetch_lets_the_next_request_fetch() {
    let mut cache = ArticleCache::new();
    let k = key("post.md", "main");
    assert!(matches!(cache.begin(&k), ArticleStep::Fetch));
    cache.complete(key("post.md", "main"), ok(500, "oops"));
    assert!(matches!(cache.begin(&k), ArticleStep::Fetch));
}
