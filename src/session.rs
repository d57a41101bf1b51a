use vstd::prelude::*;
use crate::feed::{Article, ArticleView, Site, SiteView, articles_view, copy_articles};
use crate::list::{SelectableList, cursor_in_range, next_cursor, previous_cursor};
use crate::render::text_metrics;
use crate::scroll::line_total;
use crate::scroll::{
    ScrollError, lemma_scroll_down_from_top, scrolled_down_times, max_scroll, max_scroll_of, scroll_down_step, scroll_up_step, scrolled_down,
    scrolled_up,
};

verus! {

/// A screen of the reader; screens nest, and the innermost one takes the keys.
#[derive(Debug, PartialEq, Eq, Structural, Clone, Copy)]
pub enum Screen {
    /// Moving between sites.
    Browsing,
    /// Moving between the selected site's articles.
    Articles,
    /// One article open, full screen.
    Reading,
    /// The key shortcuts.
    Help,
}

/// The state of a session: sites, the selected site's articles, the scroll
/// offset of the open article and the nested screens.
pub struct SessionView {
    pub sites: Seq<SiteView>,
    pub site_cursor: Option<usize>,
    pub articles: Seq<ArticleView>,
    pub article_cursor: Option<usize>,
    pub scroll: u16,
    pub screens: Seq<Screen>,
}

/// The articles shown for a site selection: the selected site's, or none.
pub open spec fn articles_for(sites: Seq<SiteView>, c: Option<usize>) -> Seq<ArticleView> {
    match c {
        Some(i) => sites[i as int].articles,
        None => seq![],
    }
}

/// Whether `inner` may be opened on top of `outer`.
pub open spec fn nests(outer: Screen, inner: Screen) -> bool {
    match inner {
        Screen::Browsing => false,
        Screen::Articles => outer == Screen::Browsing,
        Screen::Reading => outer == Screen::Articles,
        Screen::Help => outer != Screen::Help,
    }
}

/// Browsing at the bottom, each screen opened on the one below it.
pub open spec fn screens_wf(s: Seq<Screen>) -> bool {
    &&& s.len() >= 1
    &&& s[0] == Screen::Browsing
    &&& forall|i: int| 0 < i < s.len() ==> nests(s[i - 1], #[trigger] s[i])
}

/// A well-formed stack of screens is fixed by the screen on top.
proof fn lemma_screens_shape(s: Seq<Screen>)
    requires
        screens_wf(s),
    ensures
        s.last() == Screen::Browsing ==> s =~= seq![Screen::Browsing],
        s.last() == Screen::Articles ==> s =~= seq![Screen::Browsing, Screen::Articles],
        s.last() == Screen::Reading ==> s =~= seq![
            Screen::Browsing,
            Screen::Articles,
            Screen::Reading,
        ],
        s.last() == Screen::Help ==> s.len() >= 2 && screens_wf(s.drop_last())
            && s.drop_last().last() != Screen::Help,
{
    let n = s.len() as int;
    if n >= 2 {
        assert(nests(s[n - 2], s[n - 1]));
    }
    if n >= 3 {
        assert(nests(s[n - 3], s[n - 2]));
    }
    if n >= 4 {
        assert(nests(s[n - 4], s[n - 3]));
    }
    if s.last() == Screen::Help {
        assert forall|i: int| 0 < i < s.drop_last().len() implies nests(
            s.drop_last()[i - 1],
            #[trigger] s.drop_last()[i],
        ) by {
            assert(nests(s[i - 1], s[i]));
        }
    }
}

/// Opening a screen that may nest on the top one keeps the stack well formed.
proof fn lemma_push_screen(s: Seq<Screen>, x: Screen)
    requires
        screens_wf(s),
        nests(s.last(), x),
    ensures
        screens_wf(s.push(x)),
{
    let t = s.push(x);
    assert forall|i: int| 0 < i < t.len() implies nests(t[i - 1], #[trigger] t[i]) by {
        if i < s.len() {
            assert(nests(s[i - 1], s[i]));
        }
    }
}

impl SessionView {
    /// The invariant of a session.
    pub open spec fn wf(self) -> bool {
        &&& cursor_in_range(self.site_cursor, self.sites.len())
        &&& cursor_in_range(self.article_cursor, self.articles.len())
        &&& self.articles == articles_for(self.sites, self.site_cursor)
        &&& screens_wf(self.screens)
        &&& self.screens.contains(Screen::Reading) ==> self.article_cursor is Some
    }

    /// The screen that takes the keys.
    pub open spec fn top(self) -> Screen {
        self.screens.last()
    }

    /// After moving the site cursor to `c`: the article list follows it,
    /// with nothing selected.
    pub open spec fn with_site_cursor(self, c: Option<usize>) -> SessionView {
        SessionView {
            site_cursor: c,
            articles: articles_for(self.sites, c),
            article_cursor: None,
            ..self
        }
    }

    pub open spec fn after_select_next_site(self) -> SessionView {
        self.with_site_cursor(next_cursor(self.site_cursor, self.sites.len()))
    }

    pub open spec fn after_select_previous_site(self) -> SessionView {
        self.with_site_cursor(previous_cursor(self.site_cursor, self.sites.len()))
    }

    pub open spec fn after_deselect_site(self) -> SessionView {
        self.with_site_cursor(None)
    }

    /// Opening the selected article: the reader starts at the top.
    pub open spec fn after_open_article(self) -> SessionView {
        SessionView { scroll: 0, screens: self.screens.push(Screen::Reading), ..self }
    }

    /// Closing the reader: the offset goes back to the top.
    pub open spec fn after_close_article(self) -> SessionView {
        SessionView { scroll: 0, screens: self.screens.drop_last(), ..self }
    }
}

/// A key press, as the session reads it.
#[derive(Debug, PartialEq, Eq, Structural, Clone, Copy)]
pub enum Key {
    Char(char),
    Esc,
    Left,
    Right,
    Up,
    Down,
    Enter,
    /// Any other key; it does nothing.
    Other,
}

/// What the loop around the session has to do after a key.
#[derive(Debug, PartialEq, Eq, Structural, Clone, Copy)]
pub enum Action {
    /// Redraw and wait for the next key.
    Continue,
    /// Ask the user for subscriptions to add.
    AddSubscription,
    /// End the session.
    Quit,
}

/// `q` and Escape leave the current screen.
pub open spec fn is_leave(key: Key) -> bool {
    key == Key::Char('q') || key == Key::Esc
}

/// Right and Enter go one screen deeper.
pub open spec fn is_enter(key: Key) -> bool {
    key == Key::Right || key == Key::Enter
}

impl SessionView {
    /// The screen `x` opened on top.
    pub open spec fn opened(self, x: Screen) -> SessionView {
        SessionView { screens: self.screens.push(x), ..self }
    }

    /// The top screen closed.
    pub open spec fn closed(self) -> SessionView {
        SessionView { screens: self.screens.drop_last(), ..self }
    }

    /// The article cursor set to `c`.
    pub open spec fn with_article_cursor(self, c: Option<usize>) -> SessionView {
        SessionView { article_cursor: c, ..self }
    }

    /// One step down in the reader, whose open article reads `text` once
    /// rendered `width` columns wide. With no article selected the step is
    /// always taken, up to `u16::MAX`; a zero width changes nothing.
    pub open spec fn after_scroll_down(self, text: Seq<char>, width: u16) -> SessionView {
        if self.article_cursor is None {
            SessionView { scroll: scrolled_down(self.scroll, u16::MAX as int), ..self }
        } else if width == 0 {
            self
        } else {
            SessionView {
                scroll: scrolled_down(
                    self.scroll,
                    max_scroll_of(text.len() as int, line_total(text) as int, width as int),
                ),
                ..self
            }
        }
    }

    /// The session after `key`, where the open article reads `text` once
    /// rendered `width` columns wide.
    pub open spec fn after_key(self, key: Key, text: Seq<char>, width: u16) -> SessionView {
        match self.top() {
            Screen::Browsing => if is_leave(key) || key == Key::Left {
                self.after_deselect_site()
            } else if key == Key::Down {
                self.after_select_next_site()
            } else if key == Key::Up {
                self.after_select_previous_site()
            } else if key == Key::Char('h') {
                self.opened(Screen::Help)
            } else if is_enter(key) {
                self.opened(Screen::Articles)
            } else {
                self
            },
            Screen::Articles => if is_leave(key) {
                self.with_article_cursor(None).closed()
            } else if key == Key::Left {
                self.with_article_cursor(None)
            } else if key == Key::Down {
                self.with_article_cursor(next_cursor(self.article_cursor, self.articles.len()))
            } else if key == Key::Up {
                self.with_article_cursor(previous_cursor(self.article_cursor, self.articles.len()))
            } else if key == Key::Char('h') {
                self.opened(Screen::Help)
            } else if is_enter(key) && self.article_cursor is Some {
                self.after_open_article()
            } else {
                self
            },
            Screen::Reading => if is_leave(key) {
                self.after_close_article()
            } else if key == Key::Up {
                SessionView { scroll: scrolled_up(self.scroll), ..self }
            } else if key == Key::Down {
                self.after_scroll_down(text, width)
            } else if key == Key::Char('h') {
                self.opened(Screen::Help)
            } else {
                self
            },
            Screen::Help => if is_leave(key) {
                self.closed()
            } else {
                self
            },
        }
    }

    /// What the loop has to do after `key`.
    pub open spec fn action_after(self, key: Key) -> Action {
        if self.top() == Screen::Browsing && key == Key::Char('a') {
            Action::AddSubscription
        } else if self.top() == Screen::Browsing && is_leave(key) {
            Action::Quit
        } else {
            Action::Continue
        }
    }
}

/// In every state of a session the article list is the selected site's
/// articles, in their order, or empty when no site is selected; and right
/// after the site cursor moves, in either direction, the list is the newly
/// selected site's articles, whatever happened before.
pub proof fn lemma_articles_follow_site(v: SessionView)
    requires
        v.wf(),
        !v.screens.contains(Screen::Reading),
    ensures
        v.site_cursor matches Some(i) ==> v.articles == v.sites[i as int].articles,
        v.site_cursor is None ==> v.articles.len() == 0,
        v.after_select_next_site().wf(),
        v.after_select_next_site().site_cursor matches Some(i) ==> v.after_select_next_site().articles
            == v.sites[i as int].articles,
        v.after_select_previous_site().wf(),
        v.after_select_previous_site().site_cursor matches Some(i)
            ==> v.after_select_previous_site().articles == v.sites[i as int].articles,
{
}

/// Closing the reader and opening the same article again starts it at the
/// top, whatever the offset was.
pub proof fn lemma_reopen_starts_at_top(v: SessionView)
    requires
        v.wf(),
        v.top() == Screen::Reading,
    ensures
        v.after_close_article().wf(),
        v.after_close_article().top() == Screen::Articles,
        v.after_close_article().article_cursor == v.article_cursor,
        v.after_close_article().after_open_article().scroll == 0,
        v.after_close_article().after_open_article().article_cursor == v.article_cursor,
{
    lemma_screens_shape(v.screens);
    assert(v.screens.drop_last() =~= seq![Screen::Browsing, Screen::Articles]);
}

/// Filling the article list depends on the sites and the site cursor alone:
/// two sessions that agree on them get the same list, the selected site's
/// articles in their order, with nothing selected, whatever came before.
pub proof fn lemma_articles_independent_of_history(v1: SessionView, v2: SessionView)
    requires
        v1.sites == v2.sites,
        v1.site_cursor == v2.site_cursor,
        cursor_in_range(v1.site_cursor, v1.sites.len()),
    ensures
        v1.with_site_cursor(v1.site_cursor).articles == v2.with_site_cursor(
            v2.site_cursor,
        ).articles,
        v1.site_cursor matches Some(i) ==> v1.with_site_cursor(v1.site_cursor).articles
            == v1.sites[i as int].articles,
        v1.with_site_cursor(v1.site_cursor).article_cursor is None,
{
}

impl SessionView {
    /// `k` steps down in the reader in a row.
    pub open spec fn after_scroll_downs(self, text: Seq<char>, width: u16, k: nat) -> SessionView
        decreases k,
    {
        if k == 0 {
            self
        } else {
            self.after_scroll_downs(text, width, (k - 1) as nat).after_scroll_down(text, width)
        }
    }
}

proof fn lemma_scroll_downs_track_offset(v: SessionView, text: Seq<char>, width: u16, k: nat)
    requires
        v.article_cursor is Some,
        width > 0,
    ensures
        v.after_scroll_downs(text, width, k) == (SessionView {
            scroll: scrolled_down_times(
                v.scroll,
                max_scroll_of(text.len() as int, line_total(text) as int, width as int),
                k,
            ),
            ..v
        }),
    decreases k,
{
    if k > 0 {
        lemma_scroll_downs_track_offset(v, text, width, (k - 1) as nat);
    }
}

/// Reading an article from the top and stepping down `k` times: each step
/// moves one line until one line past the bound `m` of the rendered text
/// (no step at all when `m` is negative), never past `u16::MAX`, and after
/// that the offset stays where it is. Nothing else in the session changes.
pub proof fn lemma_reading_scrolls_to_bound(v: SessionView, text: Seq<char>, width: u16, k: nat)
    requires
        v.wf(),
        v.top() == Screen::Reading,
        v.scroll == 0,
        width > 0,
    ensures
        ({
            let m = max_scroll_of(text.len() as int, line_total(text) as int, width as int);
            let w = v.after_scroll_downs(text, width, k);
            &&& w == (SessionView { scroll: w.scroll, ..v })
            &&& w.scroll as int == if k <= m + 1 && k <= u16::MAX {
                k as int
            } else if m + 1 <= u16::MAX {
                if m + 1 >= 0 {
                    m + 1
                } else {
                    0
                }
            } else {
                u16::MAX as int
            }
            &&& (k > m || k >= u16::MAX) ==> w.after_scroll_down(text, width) == w
        }),
{
    lemma_screens_shape(v.screens);
    assert(v.screens.contains(Screen::Reading)) by {
        assert(v.screens[v.screens.len() - 1] == Screen::Reading);
    }
    let m = max_scroll_of(text.len() as int, line_total(text) as int, width as int);
    lemma_scroll_downs_track_offset(v, text, width, k);
    lemma_scroll_down_from_top(m, k);
}

/// A session of the feed reader.
pub struct App {
    pub websites: SelectableList<Site>,
    pub articles: SelectableList<Article>,
    pub scroll: u16,
    pub screens: Vec<Screen>,
}

impl View for App {
    type V = SessionView;

    open spec fn view(&self) -> SessionView {
        SessionView {
            sites: self.websites.items@.map_values(|s: Site| s@),
            site_cursor: self.websites.cursor,
            articles: articles_view(self.articles.items@),
            article_cursor: self.articles.cursor,
            scroll: self.scroll,
            screens: self.screens@,
        }
    }
}

impl App {
    pub open spec fn wf(&self) -> bool {
        self@.wf()
    }

    /// A session over the given sites, in their order: nothing selected, no
    /// articles listed, browsing.
    pub fn new(websites: Vec<Site>) -> (r: App)
        ensures
            r.wf(),
            r@.sites == websites@.map_values(|s: Site| s@),
            (r@.site_cursor is None),
            r@.articles.len() == 0,
            (r@.article_cursor is None),
            r@.scroll == 0,
            r@.screens == seq![Screen::Browsing],
    {
        let mut screens: Vec<Screen> = Vec::new();
        screens.push(Screen::Browsing);
        let r = App {
            websites: SelectableList::with_items(websites),
            articles: SelectableList::new(),
            scroll: 0,
            screens,
        };
        assert(r@.articles =~= seq![]);
        assert(r@.screens =~= seq![Screen::Browsing]);
        r
    }

    /// Fills the article list from the selected site, or empties it when no
    /// site is selected; nothing is selected in it afterwards.
    pub fn load_articles(&mut self)
        requires
            old(self).websites.wf(),
        ensures
            final(self)@ == old(self)@.with_site_cursor(old(self).websites.cursor),
            final(self).websites == old(self).websites,
    {
        match self.websites.cursor {
            Some(index) => {
                let items = copy_articles(&self.websites.items[index].articles);
                self.articles = SelectableList::with_items(items);
            },
            None => {
                self.articles = SelectableList::new();
                assert(articles_view(self.articles.items@) =~= seq![]);
            },
        }
    }

    /// Empties the article list.
    pub fn clear_articles(&mut self)
        ensures
            final(self)@ == (SessionView {
                articles: seq![],
                article_cursor: None,
                ..old(self)@
            }),
    {
        self.articles = SelectableList::new();
        assert(articles_view(self.articles.items@) =~= seq![]);
    }

    /// Moves to the next site and lists its articles.
    pub fn select_next_site(&mut self)
        requires
            old(self).wf(),
            !old(self)@.screens.contains(Screen::Reading),
        ensures
            final(self).wf(),
            final(self)@ == old(self)@.after_select_next_site(),
    {
        self.websites.next();
        self.load_articles();
    }

    /// Moves to the previous site and lists its articles.
    pub fn select_previous_site(&mut self)
        requires
            old(self).wf(),
            !old(self)@.screens.contains(Screen::Reading),
        ensures
            final(self).wf(),
            final(self)@ == old(self)@.after_select_previous_site(),
    {
        self.websites.previous();
        self.load_articles();
    }

    /// Clears the site selection and the article list.
    pub fn deselect_site(&mut self)
        requires
            old(self).wf(),
            !old(self)@.screens.contains(Screen::Reading),
        ensures
            final(self).wf(),
            final(self)@ == old(self)@.after_deselect_site(),
    {
        self.clear_articles();
        self.websites.unselect();
        assert(final(self)@ == old(self)@.after_deselect_site());
    }

    /// Opens the selected article in the reader, at the top.
    pub fn open_article(&mut self)
        requires
            old(self).wf(),
            old(self)@.top() == Screen::Articles,
            (old(self)@.article_cursor is Some),
        ensures
            final(self).wf(),
            final(self)@ == old(self)@.after_open_article(),
    {
        self.scroll = 0;
        self.screens.push(Screen::Reading);
    }

    /// Closes the reader and goes back to the article list, at the top.
    pub fn close_article(&mut self)
        requires
            old(self).wf(),
            old(self)@.top() == Screen::Reading,
        ensures
            final(self).wf(),
            final(self)@ == old(self)@.after_close_article(),
    {
        self.scroll = 0;
        self.screens.pop();
    }
    /// One step down in the reader, against the bound for rendered text of
    /// `char_count` characters and `line_count` lines at `width` columns. A
    /// zero width is refused and the offset kept.
    pub fn scroll_down_with_metrics(&mut self, char_count: usize, line_count: usize, width: u16) -> (r:
        Result<(), ScrollError>)
        requires
            old(self).wf(),
        ensures
            final(self).wf(),
            width == 0 <==> r == Err::<(), ScrollError>(ScrollError::InvalidViewport),
            width > 0 <==> r is Ok,
            width == 0 ==> final(self)@ == old(self)@,
            width > 0 ==> final(self)@ == (SessionView {
                scroll: scrolled_down(
                    old(self)@.scroll,
                    max_scroll_of(char_count as int, line_count as int, width as int),
                ),
                ..old(self)@
            }),
    {
        match max_scroll(char_count, line_count, width as usize) {
            Ok(max) => {
                self.scroll = scroll_down_step(self.scroll, max);
                Ok(())
            },
            Err(e) => Err(e),
        }
    }

    /// One step down in the reader. `rendered` is the selected article's
    /// content as the reader displays it, `width` columns wide: the bound
    /// comes from its character and line counts. With no article selected
    /// the step is always taken, up to `u16::MAX`. A zero width is refused
    /// and the offset kept.
    pub fn scroll_down(&mut self, rendered: &String, width: u16) -> (r: Result<(), ScrollError>)
        requires
            old(self).wf(),
        ensures
            final(self).wf(),
            final(self)@ == old(self)@.after_scroll_down(rendered@, width),
            r == Err::<(), ScrollError>(ScrollError::InvalidViewport) <==> (
            old(self)@.article_cursor is Some && width == 0),
            r is Ok <==> (old(self)@.article_cursor is None || width > 0),
    {
        match self.articles.cursor {
            Some(_) => {
                let (chars, lines) = text_metrics(rendered);
                self.scroll_down_with_metrics(chars, lines, width)
            },
            None => {
                self.scroll = scroll_down_step(self.scroll, u16::MAX as i128);
                Ok(())
            },
        }
    }

    /// One step up in the reader, stopping at the top.
    pub fn scroll_up(&mut self)
        requires
            old(self).wf(),
        ensures
            final(self).wf(),
            final(self)@ == (SessionView { scroll: scrolled_up(old(self)@.scroll), ..old(self)@ }),
    {
        self.scroll = scroll_up_step(self.scroll);
    }

    /// Back to the top of the article.
    pub fn reset_scroll(&mut self)
        requires
            old(self).wf(),
        ensures
            final(self).wf(),
            final(self)@ == (SessionView { scroll: 0, ..old(self)@ }),
    {
        self.scroll = 0;
    }

    fn open_screen(&mut self, x: Screen)
        requires
            old(self).wf(),
            nests(old(self)@.top(), x),
            x != Screen::Reading,
        ensures
            final(self).wf(),
            final(self)@ == old(self)@.opened(x),
    {
        proof {
            lemma_push_screen(self.screens@, x);
        }
        self.screens.push(x);
    }

    /// The screen that takes the keys.
    pub fn top(&self) -> (r: Screen)
        requires
            self.wf(),
        ensures
            r == self@.top(),
    {
        self.screens[self.screens.len() - 1]
    }

    /// Handles one key: moves between sites or articles, opens and closes
    /// screens, scrolls the reader, and says what the loop around the
    /// session has to do. `rendered` is the open article's content as the
    /// reader displays it and `width` the reader's width in columns; only a
    /// step down in the reader reads them.
    pub fn handle_key(&mut self, key: Key, width: u16, rendered: &String) -> (r: Action)
        requires
            old(self).wf(),
        ensures
            final(self).wf(),
            r == old(self)@.action_after(key),
            final(self)@ == old(self)@.after_key(key, rendered@, width),
    {
        proof {
            lemma_screens_shape(self.screens@);
        }
        let leave = match key {
            Key::Char(c) => c == 'q',
            Key::Esc => true,
            _ => false,
        };
        let enter = match key {
            Key::Right | Key::Enter => true,
            _ => false,
        };
        let help = match key {
            Key::Char(c) => c == 'h',
            _ => false,
        };
        match self.top() {
            Screen::Browsing => {
                let add = match key {
                    Key::Char(c) => c == 'a',
                    _ => false,
                };
                if add {
                    return Action::AddSubscription;
                }
                if leave {
                    self.deselect_site();
                    return Action::Quit;
                }
                match key {
                    Key::Left => self.deselect_site(),
                    Key::Down => self.select_next_site(),
                    Key::Up => self.select_previous_site(),
                    _ => if help {
                        self.open_screen(Screen::Help);
                    } else if enter {
                        self.open_screen(Screen::Articles);
                    },
                }
            },
            Screen::Articles => {
                if leave {
                    self.articles.unselect();
                    self.screens.pop();
                    return Action::Continue;
                }
                match key {
                    Key::Left => self.articles.unselect(),
                    Key::Down => self.articles.next(),
                    Key::Up => self.articles.previous(),
                    _ => if help {
                        self.open_screen(Screen::Help);
                    } else if enter && self.articles.cursor.is_some() {
                        self.open_article();
                    },
                }
            },
            Screen::Reading => {
                if leave {
                    self.close_article();
                    return Action::Continue;
                }
                match key {
                    Key::Up => self.scroll_up(),
                    Key::Down => {
                        let _ = self.scroll_down(rendered, width);
                    },
                    _ => if help {
                        self.open_screen(Screen::Help);
                    },
                }
            },
            Screen::Help => {
                if leave {
                    self.screens.pop();
                }
            },
        }
        Action::Continue
    }
}


} // verus!
