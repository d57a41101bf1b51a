use trss::config::{recover_loaded, update_or_store, Config};
use trss::feed::{Article, Site};
use trss::list::SelectableList;
use trss::normalize::{article_from_atom_entry, AtomEntryFields, ParseError};
use trss::render::text_metrics;
use trss::scroll::{max_scroll, scroll_down_step, scroll_up_step, ScrollError};
use trss::session::{Action, App, Key, Screen};
use trss::sources::normalize;

const RSS_DOC: &str = r#"<?xml version="1.0" encoding="UTF-8"?>
<rss version="2.0">
<channel>
<title>Example Channel</title>
<link>https://example.com/</link>
<description>An example</description>
<managingEditor>editor@example.com</managingEditor>
<item>
<title>First</title>
<description>first summary</description>
<pubDate>Mon, 01 Jan 2024 00:00:00 GMT</pubDate>
</item>
<item>
<title>Second</title>
</item>
<item>
<description>no title here</description>
</item>
</channel>
</rss>"#;

const ATOM_DOC: &str = r#"<?xml version="1.0" encoding="utf-8"?>
<feed xmlns="http://www.w3.org/2005/Atom">
<title>Example Feed</title>
<link href="https://example.org/"/>
<link href="https://example.org/feed.xml"/>
<updated>2024-01-02T03:04:05+00:00</updated>
<author><name>Jane</name></author>
<author><name>John</name></author>
<id>urn:example:feed</id>
<entry>
<title>Dated entry</title>
<id>urn:example:1</id>
<updated>2024-01-02T03:04:05+00:00</updated>
<published>2024-01-01T00:00:00+00:00</published>
<summary>short</summary>
<content>body text</content>
</entry>
<entry>
<title>Undated entry</title>
<id>urn:example:2</id>
<updated>2024-01-02T03:04:05+00:00</updated>
</entry>
<entry>
<title>Empty entry</title>
<id>urn:example:3</id>
<updated>2024-01-02T03:04:05+00:00</updated>
<published>2024-01-01T00:00:00+00:00</published>
</entry>
</feed>"#;

fn article(title: &str, content: &str) -> Article {
    Article {
        title: title.to_string(),
        subtitle: Some(String::new()),
        updated_at: "N/A".to_string(),
        content: content.to_string(),
    }
}

fn site(name: &str, articles: Vec<Article>) -> Site {
    Site {
        name: name.to_string(),
        uri: format!("https://{}.example/", name),
        author: "N/A".to_string(),
        updated_at: "N/A".to_string(),
        articles,
    }
}

fn two_sites() -> Vec<Site> {
    vec![
        site("alpha", vec![article("a1", "<p>one</p>")]),
        site("beta", vec![article("b1", "x"), article("b2", "y")]),
    ]
}

fn empty() -> String {
    String::new()
}

fn titles(app: &App) -> Vec<String> {
    app.articles.items.iter().map(|a| a.title.clone()).collect()
}

#[test]
fn next_wraps_after_last_item() {
    let mut l = SelectableList::with_items(vec![10, 20, 30]);
    assert_eq!(l.selected(), None);
    l.next();
    assert_eq!(l.selected(), Some(0));
    l.next();
    l.next();
    assert_eq!(l.selected(), Some(2));
    l.next();
    assert_eq!(l.selected(), Some(0));
}

#[test]
fn previous_wraps_before_first_item() {
    let mut l = SelectableList::with_items(vec!['a', 'b', 'c']);
    l.previous();
    assert_eq!(l.selected(), Some(0));
    l.previous();
    assert_eq!(l.selected(), Some(2));
    l.previous();
    assert_eq!(l.selected(), Some(1));
}

#[test]
fn moving_length_times_returns_to_the_same_item() {
    let n = 5;
    let mut l = SelectableList::with_items((0..n).collect::<Vec<u32>>());
    l.next();
    l.next();
    assert_eq!(l.selected(), Some(1));
    for _ in 0..n {
        l.next();
    }
    assert_eq!(l.selected(), Some(1));
    for _ in 0..n {
        l.previous();
    }
    assert_eq!(l.selected(), Some(1));
}

#[test]
fn from_no_selection_one_more_move_than_length_ends_on_first() {
    let n = 4;
    let mut a = SelectableList::with_items(vec![0u8; n]);
    for _ in 0..n {
        a.next();
    }
    assert_eq!(a.selected(), Some(n - 1));
    a.next();
    assert_eq!(a.selected(), Some(0));
    let mut b = SelectableList::with_items(vec![0u8; n]);
    for _ in 0..n + 1 {
        b.previous();
    }
    assert_eq!(b.selected(), Some(0));
}

#[test]
fn empty_list_never_selects() {
    let mut l: SelectableList<u8> = SelectableList::new();
    l.next();
    assert_eq!(l.selected(), None);
    l.previous();
    assert_eq!(l.selected(), None);
    l.unselect();
    assert_eq!(l.selected(), None);
}

#[test]
fn unselect_clears_the_cursor() {
    let mut l = SelectableList::with_items(vec![1, 2]);
    l.next();
    l.unselect();
    assert_eq!(l.selected(), None);
    assert_eq!(l.items, vec![1, 2]);
}

#[test]
fn selecting_a_site_lists_its_articles() {
    let mut app = App::new(two_sites());
    assert!(app.articles.items.is_empty());
    app.select_next_site();
    assert_eq!(app.websites.selected(), Some(0));
    assert_eq!(titles(&app), vec!["a1"]);
    app.select_next_site();
    assert_eq!(titles(&app), vec!["b1", "b2"]);
    app.select_next_site();
    app.select_previous_site();
    app.select_previous_site();
    assert_eq!(app.websites.selected(), Some(0));
    assert_eq!(titles(&app), vec!["a1"]);
    assert_eq!(app.articles.items[0].content, "<p>one</p>");
    assert_eq!(app.articles.selected(), None);
    app.deselect_site();
    assert_eq!(app.websites.selected(), None);
    assert!(app.articles.items.is_empty());
}

#[test]
fn reopening_an_article_starts_at_top() {
    let mut app = App::new(two_sites());
    app.select_next_site();
    assert_eq!(app.handle_key(Key::Enter, 80, &empty()), Action::Continue);
    assert_eq!(app.top(), Screen::Articles);
    app.handle_key(Key::Down, 80, &empty());
    app.handle_key(Key::Enter, 80, &empty());
    assert_eq!(app.top(), Screen::Reading);
    app.scroll = 7;
    app.close_article();
    assert_eq!(app.scroll, 0);
    assert_eq!(app.top(), Screen::Articles);
    app.open_article();
    assert_eq!(app.scroll, 0);
    assert_eq!(app.top(), Screen::Reading);
}

#[test]
fn short_content_has_a_negative_bound() {
    assert_eq!(max_scroll(1000, 20, 100), Ok(-20));
    assert_eq!(scroll_down_step(0, -20), 0);
    assert_eq!(scroll_down_step(5, -20), 5);
}

#[test]
fn scroll_bound_formula_and_boundary() {
    assert_eq!(max_scroll(10_000, 30, 100), Ok(80));
    assert_eq!(max_scroll(0, 0, 1), Ok(-50));
    assert_eq!(scroll_down_step(80, 80), 81);
    assert_eq!(scroll_down_step(81, 80), 81);
    assert_eq!(scroll_down_step(u16::MAX, 1_000_000), u16::MAX);
    assert_eq!(scroll_up_step(3), 2);
    assert_eq!(scroll_up_step(0), 0);
}

#[test]
fn zero_width_is_refused() {
    assert_eq!(max_scroll(100, 3, 0), Err(ScrollError::InvalidViewport));
    let mut app = App::new(two_sites());
    app.select_next_site();
    app.articles.next();
    app.scroll = 4;
    assert_eq!(app.scroll_down(&"some text".to_string(), 0), Err(ScrollError::InvalidViewport));
    assert_eq!(app.scroll, 4);
    assert_eq!(app.scroll_down_with_metrics(100, 3, 0), Err(ScrollError::InvalidViewport));
    assert_eq!(app.scroll, 4);
}

#[test]
fn scroll_down_with_metrics_follows_the_bound() {
    let mut app = App::new(two_sites());
    app.select_next_site();
    app.articles.next();
    assert_eq!(app.scroll_down_with_metrics(10_000, 30, 100), Ok(()));
    assert_eq!(app.scroll, 1);
    app.scroll = 80;
    assert_eq!(app.scroll_down_with_metrics(10_000, 30, 100), Ok(()));
    assert_eq!(app.scroll, 81);
    assert_eq!(app.scroll_down_with_metrics(10_000, 30, 100), Ok(()));
    assert_eq!(app.scroll, 81);
    app.scroll_up();
    assert_eq!(app.scroll, 80);
    app.reset_scroll();
    assert_eq!(app.scroll, 0);
}

#[test]
fn rss_missing_fields_take_defaults() {
    let s = normalize(RSS_DOC.as_bytes()).ok().expect("an RSS document");
    assert_eq!(s.name, "Example Channel");
    assert_eq!(s.uri, "https://example.com/");
    assert_eq!(s.author, "editor@example.com");
    assert_eq!(s.updated_at, "N/A");
    assert_eq!(s.articles.len(), 3);
    assert_eq!(s.articles[0].title, "First");
    assert_eq!(s.articles[0].subtitle, Some("first summary".to_string()));
    assert_eq!(s.articles[0].updated_at, "Mon, 01 Jan 2024 00:00:00 GMT");
    assert_eq!(s.articles[0].content, "N/A");
    assert_eq!(s.articles[1].updated_at, "N/A");
    assert_eq!(s.articles[1].subtitle, Some(String::new()));
    assert_eq!(s.articles[2].title, "Untitled");
}

#[test]
fn atom_entry_without_published_is_left_out() {
    let s = normalize(ATOM_DOC.as_bytes()).ok().expect("an Atom document");
    assert_eq!(s.name, "Example Feed");
    assert_eq!(s.uri, "https://example.org/ https://example.org/feed.xml");
    assert_eq!(s.author, "Jane John");
    assert!(s.updated_at.starts_with("2024-01-02"));
    assert_eq!(s.articles.len(), 2);
    assert_eq!(s.articles[0].title, "Dated entry");
    assert_eq!(s.articles[0].subtitle, Some("short".to_string()));
    assert_eq!(s.articles[0].content, "body text");
    assert!(s.articles[0].updated_at.starts_with("2024-01-01"));
    assert_eq!(s.articles[1].title, "Empty entry");
    assert_eq!(s.articles[1].subtitle, Some(String::new()));
    assert_eq!(s.articles[1].content, "N/A");
}

#[test]
fn unknown_document_is_unrecognized() {
    assert!(matches!(normalize(b"just some text"), Err(ParseError::UnrecognizedFormat)));
}

#[test]
fn atom_entry_needs_a_publication_date() {
    let e = AtomEntryFields {
        title: "t".to_string(),
        summary: None,
        published: None,
        content: Some("c".to_string()),
    };
    assert!(matches!(article_from_atom_entry(&e), Err(ParseError::MissingRequiredField)));
}

#[test]
fn text_metrics_count_chars_and_lines() {
    assert_eq!(text_metrics(&"a\nb\n".to_string()), (4, 2));
    assert_eq!(text_metrics(&"a\r\nb".to_string()), (4, 2));
    assert_eq!(text_metrics(&String::new()), (0, 0));
    assert_eq!(text_metrics(&"\n\n".to_string()), (2, 2));
    assert_eq!(text_metrics(&"héllo".to_string()), (5, 1));
}

#[test]
fn end_to_end_scroll_stops_at_bound() {
    let sites = vec![
        site("first", vec![article("only", "<p>body</p>")]),
        site("second", vec![article("other", "short")]),
    ];
    // 60 lines of 20 characters at 10 columns: 1260 / 10 + 60 - 50 = 136.
    let rendered: String = (0..60).map(|_| format!("{}\n", "x".repeat(20))).collect();
    let mut app = App::new(sites);
    assert_eq!(app.handle_key(Key::Down, 10, &empty()), Action::Continue);
    assert_eq!(app.websites.selected(), Some(0));
    assert_eq!(app.handle_key(Key::Enter, 10, &empty()), Action::Continue);
    assert_eq!(app.handle_key(Key::Down, 10, &empty()), Action::Continue);
    assert_eq!(app.handle_key(Key::Enter, 10, &empty()), Action::Continue);
    assert_eq!(app.top(), Screen::Reading);
    assert_eq!(titles(&app), vec!["only"]);
    for k in 1..=300u16 {
        app.handle_key(Key::Down, 10, &rendered);
        assert_eq!(app.scroll, k.min(137));
    }
    assert_eq!(app.handle_key(Key::Char('q'), 10, &empty()), Action::Continue);
    assert_eq!(app.scroll, 0);
    assert_eq!(app.top(), Screen::Articles);
}

#[test]
fn help_nests_and_closes() {
    let mut app = App::new(two_sites());
    app.handle_key(Key::Char('h'), 80, &empty());
    assert_eq!(app.top(), Screen::Help);
    app.handle_key(Key::Down, 80, &empty());
    assert_eq!(app.websites.selected(), None);
    app.handle_key(Key::Esc, 80, &empty());
    assert_eq!(app.top(), Screen::Browsing);
    assert_eq!(app.handle_key(Key::Char('a'), 80, &empty()), Action::AddSubscription);
    assert_eq!(app.handle_key(Key::Other, 80, &empty()), Action::Continue);
    assert_eq!(app.handle_key(Key::Char('q'), 80, &empty()), Action::Quit);
}

#[test]
fn short_article_never_scrolls() {
    let mut app = App::new(two_sites());
    app.handle_key(Key::Down, 80, &empty());
    app.handle_key(Key::Enter, 80, &empty());
    app.handle_key(Key::Down, 80, &empty());
    app.handle_key(Key::Enter, 80, &empty());
    let rendered = "one\ntwo\n".to_string();
    for _ in 0..20 {
        app.handle_key(Key::Down, 80, &rendered);
    }
    assert_eq!(app.scroll, 0);
    app.handle_key(Key::Up, 80, &empty());
    assert_eq!(app.scroll, 0);
}

#[test]
fn subscriptions_are_appended() {
    let mut c = Config::default();
    update_or_store(&mut c, "https://a.example/feed".to_string());
    update_or_store(&mut c, "https://b.example/feed".to_string());
    assert_eq!(c.subscriptions, vec!["https://a.example/feed", "https://b.example/feed"]);
    let (d, store) = recover_loaded(None);
    assert!(d.subscriptions.is_empty());
    assert!(store);
    let (e, store) = recover_loaded(Some(c));
    assert_eq!(e.subscriptions.len(), 2);
    assert!(!store);
}

#[test]
fn atom_feed_without_authors_has_empty_author() {
    let doc = r#"<?xml version="1.0" encoding="utf-8"?>
<feed xmlns="http://www.w3.org/2005/Atom">
<title>Lonely</title>
<id>urn:example:lonely</id>
<updated>2024-01-02T03:04:05+00:00</updated>
</feed>"#;
    let s = normalize(doc.as_bytes()).ok().expect("an Atom document");
    assert_eq!(s.name, "Lonely");
    assert_eq!(s.author, "");
    assert_eq!(s.uri, "");
    assert!(s.articles.is_empty());
}

#[test]
fn atom_empty_content_reads_na_and_title_is_required() {
    let e = AtomEntryFields {
        title: "t".to_string(),
        summary: Some("s".to_string()),
        published: Some("2024".to_string()),
        content: Some(String::new()),
    };
    let a = article_from_atom_entry(&e).ok().expect("a complete entry");
    assert_eq!(a.content, "N/A");
    assert_eq!(a.subtitle, Some("s".to_string()));
    assert_eq!(a.updated_at, "2024");
    let untitled = AtomEntryFields {
        title: String::new(),
        summary: None,
        published: Some("2024".to_string()),
        content: Some("c".to_string()),
    };
    assert!(matches!(article_from_atom_entry(&untitled), Err(ParseError::MissingRequiredField)));
}

#[test]
fn load_articles_lists_the_selected_site() {
    let mut app = App::new(two_sites());
    app.websites.next();
    app.websites.next();
    app.articles.items.clear();
    app.load_articles();
    assert_eq!(titles(&app), vec!["b1", "b2"]);
    assert_eq!(app.articles.selected(), None);
    app.clear_articles();
    assert!(app.articles.items.is_empty());
}

#[test]
fn atom_entry_without_title_is_left_out() {
    let doc = r#"<?xml version="1.0" encoding="utf-8"?>
<feed xmlns="http://www.w3.org/2005/Atom">
<title>Partial</title>
<id>urn:example:partial</id>
<updated>2024-01-02T03:04:05+00:00</updated>
<entry>
<id>urn:example:a</id>
<updated>2024-01-02T03:04:05+00:00</updated>
<published>2024-01-01T00:00:00+00:00</published>
</entry>
<entry>
<title>Kept</title>
<id>urn:example:b</id>
<updated>2024-01-02T03:04:05+00:00</updated>
<published>2024-01-01T00:00:00+00:00</published>
</entry>
</feed>"#;
    let s = normalize(doc.as_bytes()).ok().expect("an Atom document");
    assert_eq!(s.articles.len(), 1);
    assert_eq!(s.articles[0].title, "Kept");
}
