use vstd::prelude::*;
use crate::feed::{Article, ArticleView, Site, SiteView, articles_view};

verus! {

/// Why a feed document did not become a site or an article.
#[derive(Debug, PartialEq, Eq, Structural, Clone, Copy)]
pub enum ParseError {
    /// The document is neither an RSS channel nor an Atom feed.
    UnrecognizedFormat,
    /// An Atom entry lacks its title or its publication date.
    MissingRequiredField,
}

/// What the normalization reads from one RSS item.
pub struct RssItemFields {
    pub title: Option<String>,
    pub description: Option<String>,
    pub pub_date: Option<String>,
    pub content: Option<String>,
}

/// What the normalization reads from an RSS channel.
pub struct RssChannelFields {
    pub title: String,
    pub link: String,
    pub managing_editor: Option<String>,
    pub last_build_date: Option<String>,
    pub items: Vec<RssItemFields>,
}

/// What the normalization reads from one Atom entry.
pub struct AtomEntryFields {
    /// The title's text; an entry without a title has an empty one.
    pub title: String,
    pub summary: Option<String>,
    /// The publication date, as text.
    pub published: Option<String>,
    /// The value of the entry's content element, where it has one.
    pub content: Option<String>,
}

/// What the normalization reads from an Atom feed.
pub struct AtomFeedFields {
    pub title: String,
    /// The `href` of each link, in order.
    pub links: Vec<String>,
    /// The name of each author, in order.
    pub authors: Vec<String>,
    /// The update timestamp, as text.
    pub updated: String,
    pub entries: Vec<AtomEntryFields>,
}

/// A parsed feed document, in one of the two supported formats.
pub enum FeedDocument {
    Rss(RssChannelFields),
    Atom(AtomFeedFields),
}

/// The text of `o`, or `d` where it is absent.
pub open spec fn text_or(o: Option<String>, d: Seq<char>) -> Seq<char> {
    match o {
        Some(s) => s@,
        None => d,
    }
}

/// The parts, with a single space between each two.
pub open spec fn joined(parts: Seq<Seq<char>>) -> Seq<char>
    decreases parts.len(),
{
    if parts.len() == 0 {
        seq![]
    } else if parts.len() == 1 {
        parts[0]
    } else {
        joined(parts.drop_last()) + seq![' '] + parts.last()
    }
}

/// The text of each string, in order.
pub open spec fn texts(v: Seq<String>) -> Seq<Seq<char>> {
    v.map_values(|s: String| s@)
}

/// An RSS item as an article: every missing field takes its default.
pub open spec fn rss_article(i: RssItemFields) -> ArticleView {
    ArticleView {
        title: text_or(i.title, "Untitled"@),
        subtitle: Some(text_or(i.description, seq![])),
        updated_at: text_or(i.pub_date, "N/A"@),
        content: text_or(i.content, "N/A"@),
    }
}

/// An RSS channel as a site.
pub open spec fn rss_site(c: RssChannelFields) -> SiteView {
    SiteView {
        name: c.title@,
        uri: c.link@,
        author: text_or(c.managing_editor, "N/A"@),
        updated_at: text_or(c.last_build_date, "N/A"@),
        articles: c.items@.map_values(|i: RssItemFields| rss_article(i)),
    }
}

/// The text of a content value; absent or empty content reads `"N/A"`.
pub open spec fn content_text(o: Option<String>) -> Seq<char> {
    match o {
        Some(s) => if s@.len() > 0 {
            s@
        } else {
            "N/A"@
        },
        None => "N/A"@,
    }
}

/// Whether an Atom entry has what the format requires: a title and a
/// publication date.
pub open spec fn atom_entry_complete(e: AtomEntryFields) -> bool {
    e.title@.len() > 0 && e.published is Some
}

/// An Atom entry as an article; an entry without a title or a publication
/// date has none.
pub open spec fn atom_article(e: AtomEntryFields) -> Option<ArticleView> {
    match e.published {
        Some(p) => if e.title@.len() > 0 {
            Some(
                ArticleView {
                    title: e.title@,
                    subtitle: Some(text_or(e.summary, seq![])),
                    updated_at: p@,
                    content: content_text(e.content),
                },
            )
        } else {
            None
        },
        None => None,
    }
}

/// The articles of the entries that have one, in order.
pub open spec fn atom_articles(es: Seq<AtomEntryFields>) -> Seq<ArticleView>
    decreases es.len(),
{
    if es.len() == 0 {
        seq![]
    } else {
        let rest = atom_articles(es.drop_last());
        match atom_article(es.last()) {
            Some(a) => rest.push(a),
            None => rest,
        }
    }
}

/// An Atom feed as a site.
pub open spec fn atom_site(f: AtomFeedFields) -> SiteView {
    SiteView {
        name: f.title@,
        uri: joined(texts(f.links@)),
        author: joined(texts(f.authors@)),
        updated_at: f.updated@,
        articles: atom_articles(f.entries@),
    }
}

/// A parsed document as a site.
pub open spec fn document_site(d: FeedDocument) -> SiteView {
    match d {
        FeedDocument::Rss(c) => rss_site(c),
        FeedDocument::Atom(f) => atom_site(f),
    }
}

/// Relies on `[String]::join`: the parts with the separator between each two.
#[verifier::external_body]
fn join_spaced(parts: &Vec<String>) -> (r: String)
    ensures
        r@ == joined(texts(parts@)),
{
    parts.join(" ")
}

fn text_or_default(o: &Option<String>, d: &str) -> (r: String)
    ensures
        r@ == text_or(*o, d@),
{
    match o {
        Some(s) => s.clone(),
        None => d.to_owned(),
    }
}

/// Normalizes one RSS item.
pub fn article_from_rss_item(item: &RssItemFields) -> (r: Article)
    ensures
        r@ == rss_article(*item),
{
    proof {
        reveal_strlit("");
    }
    let title = text_or_default(&item.title, "Untitled");
    let sub = text_or_default(&item.description, "");
    let u = text_or_default(&item.pub_date, "N/A");
    let c = text_or_default(&item.content, "N/A");
    assert(title@ == rss_article(*item).title);
    assert(sub@ == text_or(item.description, seq![]));
    assert(u@ == rss_article(*item).updated_at);
    assert(c@ == rss_article(*item).content);
    Article { title, subtitle: Some(sub), updated_at: u, content: c }
}

fn content_or_default(o: &Option<String>) -> (r: String)
    ensures
        r@ == content_text(*o),
{
    match o {
        Some(s) => if s.as_str().is_empty() {
            "N/A".to_owned()
        } else {
            s.clone()
        },
        None => "N/A".to_owned(),
    }
}

/// Normalizes one Atom entry; the title and the publication date are
/// required.
pub fn article_from_atom_entry(entry: &AtomEntryFields) -> (r: Result<Article, ParseError>)
    ensures
        !atom_entry_complete(*entry) <==> r == Err::<Article, ParseError>(
            ParseError::MissingRequiredField,
        ),
        match r {
            Ok(a) => atom_article(*entry) == Some(a@),
            Err(_) => atom_article(*entry) is None,
        },
{
    proof {
        reveal_strlit("");
    }
    if entry.title.as_str().is_empty() {
        return Err(ParseError::MissingRequiredField);
    }
    match &entry.published {
        None => Err(ParseError::MissingRequiredField),
        Some(p) => {
            let title = entry.title.clone();
            let sub = text_or_default(&entry.summary, "");
            let updated_at = p.clone();
            let content = content_or_default(&entry.content);
            assert(sub@ == text_or(entry.summary, seq![]));
            assert(content@ == content_text(entry.content));
            Ok(Article { title, subtitle: Some(sub), updated_at, content })
        },
    }
}

/// Normalizes an RSS channel, keeping every item.
pub fn site_from_rss(channel: &RssChannelFields) -> (r: Site)
    ensures
        r@ == rss_site(*channel),
{
    let mut articles: Vec<Article> = Vec::new();
    let mut i: usize = 0;
    while i < channel.items.len()
        invariant
            i <= channel.items@.len(),
            articles_view(articles@) == channel.items@.take(i as int).map_values(
                |it: RssItemFields| rss_article(it),
            ),
        decreases channel.items@.len() - i,
    {
        let a = article_from_rss_item(&channel.items[i]);
        proof {
            let items = channel.items@;
            assert(articles_view(articles@.push(a)) =~= articles_view(articles@).push(a@));
            assert(items.take(i + 1) =~= items.take(i as int).push(items[i as int]));
            assert(items.take(i + 1).map_values(|it: RssItemFields| rss_article(it))
                =~= items.take(i as int).map_values(|it: RssItemFields| rss_article(it)).push(
                rss_article(items[i as int]),
            ));
        }
        articles.push(a);
        i = i + 1;
    }
    assert(channel.items@.take(channel.items@.len() as int) =~= channel.items@);
    let r = Site {
        name: channel.title.clone(),
        uri: channel.link.clone(),
        author: text_or_default(&channel.managing_editor, "N/A"),
        updated_at: text_or_default(&channel.last_build_date, "N/A"),
        articles,
    };
    assert(r@.articles =~= rss_site(*channel).articles);
    r
}

/// Normalizes an Atom feed, leaving out the entries without a title or a
/// publication date.
pub fn site_from_atom(feed: &AtomFeedFields) -> (r: Site)
    ensures
        r@ == atom_site(*feed),
{
    let mut articles: Vec<Article> = Vec::new();
    let mut i: usize = 0;
    while i < feed.entries.len()
        invariant
            i <= feed.entries@.len(),
            articles_view(articles@) == atom_articles(feed.entries@.take(i as int)),
        decreases feed.entries@.len() - i,
    {
        let entries = Ghost(feed.entries@);
        assert(entries@.take(i + 1).drop_last() =~= entries@.take(i as int));
        match article_from_atom_entry(&feed.entries[i]) {
            Ok(a) => {
                assert(articles_view(articles@.push(a)) =~= articles_view(articles@).push(a@));
                articles.push(a);
            },
            Err(_) => {},
        }
        i = i + 1;
    }
    assert(feed.entries@.take(feed.entries@.len() as int) =~= feed.entries@);
    Site {
        name: feed.title.clone(),
        uri: join_spaced(&feed.links),
        author: join_spaced(&feed.authors),
        updated_at: feed.updated.clone(),
        articles,
    }
}

/// Normalizes a parsed document of either format.
pub fn site_from_document(doc: &FeedDocument) -> (r: Site)
    ensures
        r@ == document_site(*doc),
{
    match doc {
        FeedDocument::Rss(c) => site_from_rss(c),
        FeedDocument::Atom(f) => site_from_atom(f),
    }
}

} // verus!
