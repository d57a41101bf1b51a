use vstd::prelude::*;
use crate::feed::Site;
use crate::normalize::{
    AtomEntryFields, AtomFeedFields, FeedDocument, ParseError, RssChannelFields, RssItemFields,
    atom_site, rss_site, site_from_document,
};

verus! {

#[verifier::external_type_specification]
#[verifier::external_body]
pub struct ExRssChannel(rss::Channel);

#[verifier::external_type_specification]
#[verifier::external_body]
pub struct ExRssItem(rss::Item);

#[verifier::external_type_specification]
#[verifier::external_body]
pub struct ExAtomFeed(atom_syndication::Feed);

#[verifier::external_type_specification]
#[verifier::external_body]
pub struct ExAtomEntry(atom_syndication::Entry);

/// Whether `rss::Channel::read_from` parses a document.
pub uninterp spec fn rss_accepts(raw: Seq<u8>) -> bool;

/// Whether `atom_syndication::Feed::read_from` parses a document.
pub uninterp spec fn atom_accepts(raw: Seq<u8>) -> bool;

/// Relies on `rss::Channel::read_from`: parses an RSS document, or fails;
/// which of the two depends on the bytes alone.
#[verifier::external_body]
fn read_rss(raw: &[u8]) -> (r: Option<rss::Channel>)
    ensures
        r is Some <==> rss_accepts(raw@),
{
    rss::Channel::read_from(raw).ok()
}

/// Relies on `rss::Channel::title`.
#[verifier::external_body]
fn rss_title(c: &rss::Channel) -> (r: String) {
    c.title().to_owned()
}

/// Relies on `rss::Channel::link`.
#[verifier::external_body]
fn rss_link(c: &rss::Channel) -> (r: String) {
    c.link().to_owned()
}

/// Relies on `rss::Channel::managing_editor`.
#[verifier::external_body]
fn rss_managing_editor(c: &rss::Channel) -> (r: Option<String>) {
    c.managing_editor().map(str::to_owned)
}

/// Relies on `rss::Channel::last_build_date`.
#[verifier::external_body]
fn rss_last_build_date(c: &rss::Channel) -> (r: Option<String>) {
    c.last_build_date().map(str::to_owned)
}

/// Relies on `rss::Channel::items`.
#[verifier::external_body]
fn rss_items(c: &rss::Channel) -> (r: Vec<rss::Item>) {
    c.items().to_vec()
}

/// Relies on `rss::Item::title`.
#[verifier::external_body]
fn rss_item_title(i: &rss::Item) -> (r: Option<String>) {
    i.title().map(str::to_owned)
}

/// Relies on `rss::Item::description`.
#[verifier::external_body]
fn rss_item_description(i: &rss::Item) -> (r: Option<String>) {
    i.description().map(str::to_owned)
}

/// Relies on `rss::Item::pub_date`.
#[verifier::external_body]
fn rss_item_pub_date(i: &rss::Item) -> (r: Option<String>) {
    i.pub_date().map(str::to_owned)
}

/// Relies on `rss::Item::content`.
#[verifier::external_body]
fn rss_item_content(i: &rss::Item) -> (r: Option<String>) {
    i.content().map(str::to_owned)
}

/// Relies on `atom_syndication::Feed::read_from`: parses an Atom document,
/// or fails; which of the two depends on the bytes alone.
#[verifier::external_body]
fn read_atom(raw: &[u8]) -> (r: Option<atom_syndication::Feed>)
    ensures
        r is Some <==> atom_accepts(raw@),
{
    atom_syndication::Feed::read_from(raw).ok()
}

/// Relies on `atom_syndication::Feed::title`: the title's text.
#[verifier::external_body]
fn atom_title(f: &atom_syndication::Feed) -> (r: String) {
    f.title().value.clone()
}

/// Relies on `atom_syndication::Feed::links`: the `href` of each.
#[verifier::external_body]
fn atom_link_hrefs(f: &atom_syndication::Feed) -> (r: Vec<String>) {
    f.links().iter().map(|l| l.href.clone()).collect()
}

/// Relies on `atom_syndication::Feed::authors`: the name of each.
#[verifier::external_body]
fn atom_author_names(f: &atom_syndication::Feed) -> (r: Vec<String>) {
    f.authors().iter().map(|p| p.name.clone()).collect()
}

/// Relies on `atom_syndication::Feed::updated`, written out by its `Display`.
#[verifier::external_body]
fn atom_updated(f: &atom_syndication::Feed) -> (r: String) {
    f.updated().to_string()
}

/// Relies on `atom_syndication::Feed::entries`.
#[verifier::external_body]
fn atom_entries(f: &atom_syndication::Feed) -> (r: Vec<atom_syndication::Entry>) {
    f.entries().to_vec()
}

/// Relies on `atom_syndication::Entry::title`: the title's text, empty where
/// the entry has no title.
#[verifier::external_body]
fn atom_entry_title(e: &atom_syndication::Entry) -> (r: String) {
    e.title().value.clone()
}

/// Relies on `atom_syndication::Entry::summary`: the summary's text.
#[verifier::external_body]
fn atom_entry_summary(e: &atom_syndication::Entry) -> (r: Option<String>) {
    e.summary().map(|t| t.value.clone())
}

/// Relies on `atom_syndication::Entry::published`, written out by its `Display`.
#[verifier::external_body]
fn atom_entry_published(e: &atom_syndication::Entry) -> (r: Option<String>) {
    e.published().map(ToString::to_string)
}

/// Relies on `atom_syndication::Entry::content`: the content's value.
#[verifier::external_body]
fn atom_entry_content(e: &atom_syndication::Entry) -> (r: Option<String>) {
    e.content().and_then(|c| c.value.clone())
}

/// The fields of a parsed RSS channel.
fn rss_fields(c: &rss::Channel) -> (r: RssChannelFields) {
    let raw_items = rss_items(c);
    let mut items: Vec<RssItemFields> = Vec::new();
    let mut i: usize = 0;
    while i < raw_items.len()
        invariant
            i <= raw_items@.len(),
        decreases raw_items@.len() - i,
    {
        let it = &raw_items[i];
        items.push(
            RssItemFields {
                title: rss_item_title(it),
                description: rss_item_description(it),
                pub_date: rss_item_pub_date(it),
                content: rss_item_content(it),
            },
        );
        i = i + 1;
    }
    RssChannelFields {
        title: rss_title(c),
        link: rss_link(c),
        managing_editor: rss_managing_editor(c),
        last_build_date: rss_last_build_date(c),
        items,
    }
}

/// The fields of a parsed Atom feed.
fn atom_fields(f: &atom_syndication::Feed) -> (r: AtomFeedFields) {
    let raw_entries = atom_entries(f);
    let mut entries: Vec<AtomEntryFields> = Vec::new();
    let mut i: usize = 0;
    while i < raw_entries.len()
        invariant
            i <= raw_entries@.len(),
        decreases raw_entries@.len() - i,
    {
        let e = &raw_entries[i];
        entries.push(
            AtomEntryFields {
                title: atom_entry_title(e),
                summary: atom_entry_summary(e),
                published: atom_entry_published(e),
                content: atom_entry_content(e),
            },
        );
        i = i + 1;
    }
    AtomFeedFields {
        title: atom_title(f),
        links: atom_link_hrefs(f),
        authors: atom_author_names(f),
        updated: atom_updated(f),
        entries,
    }
}

/// Reads a raw feed document: as RSS where the RSS parser takes it, else as
/// Atom where the Atom parser takes it, else not at all.
pub fn parse_document(raw: &[u8]) -> (r: Result<FeedDocument, ParseError>)
    ensures
        r is Ok <==> (rss_accepts(raw@) || atom_accepts(raw@)),
        r is Err ==> r == Err::<FeedDocument, ParseError>(ParseError::UnrecognizedFormat),
        rss_accepts(raw@) ==> (r matches Ok(FeedDocument::Rss(_))),
        !rss_accepts(raw@) && atom_accepts(raw@) ==> (r matches Ok(FeedDocument::Atom(_))),
{
    match read_rss(raw) {
        Some(c) => Ok(FeedDocument::Rss(rss_fields(&c))),
        None => match read_atom(raw) {
            Some(f) => Ok(FeedDocument::Atom(atom_fields(&f))),
            None => Err(ParseError::UnrecognizedFormat),
        },
    }
}

/// Turns a raw feed document into a site. A document that the RSS parser
/// takes gets the RSS normalization; one that only the Atom parser takes gets
/// the Atom normalization; any other is `UnrecognizedFormat`.
pub fn normalize(raw: &[u8]) -> (r: Result<Site, ParseError>)
    ensures
        r is Ok <==> (rss_accepts(raw@) || atom_accepts(raw@)),
        r is Err ==> r == Err::<Site, ParseError>(ParseError::UnrecognizedFormat),
        rss_accepts(raw@) ==> (r matches Ok(site) && exists|c: RssChannelFields|
            site@ == rss_site(c)),
        !rss_accepts(raw@) && atom_accepts(raw@) ==> (r matches Ok(site) && exists|
            f: AtomFeedFields,
        | site@ == atom_site(f)),
{
    match parse_document(raw) {
        Ok(doc) => {
            let site = site_from_document(&doc);
            proof {
                match doc {
                    FeedDocument::Rss(c) => assert(site@ == rss_site(c)),
                    FeedDocument::Atom(f) => assert(site@ == atom_site(f)),
                }
            }
            Ok(site)
        },
        Err(e) => Err(e),
    }
}

} // verus!
