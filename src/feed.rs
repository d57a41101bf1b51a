use vstd::prelude::*;

verus! {

/// One entry of a subscribed site, in the shape that every feed format is
/// normalized into.
pub struct Article {
    pub title: String,
    pub subtitle: Option<String>,
    pub updated_at: String,
    /// Raw HTML.
    pub content: String,
}

/// The text of an article.
pub struct ArticleView {
    pub title: Seq<char>,
    pub subtitle: Option<Seq<char>>,
    pub updated_at: Seq<char>,
    pub content: Seq<char>,
}

impl View for Article {
    type V = ArticleView;

    open spec fn view(&self) -> ArticleView {
        ArticleView {
            title: self.title@,
            subtitle: match self.subtitle {
                Some(s) => Some(s@),
                None => None,
            },
            updated_at: self.updated_at@,
            content: self.content@,
        }
    }
}

impl Clone for Article {
    fn clone(&self) -> (r: Self)
        ensures
            r@ == self@,
    {
        let subtitle = match &self.subtitle {
            Some(s) => Some(s.clone()),
            None => None,
        };
        Article {
            title: self.title.clone(),
            subtitle,
            updated_at: self.updated_at.clone(),
            content: self.content.clone(),
        }
    }
}

/// The text of each article, in order.
pub open spec fn articles_view(v: Seq<Article>) -> Seq<ArticleView> {
    v.map_values(|a: Article| a@)
}

/// One subscribed feed source with its articles.
pub struct Site {
    pub name: String,
    pub uri: String,
    pub author: String,
    pub updated_at: String,
    pub articles: Vec<Article>,
}

/// The text of a site and of its articles.
pub struct SiteView {
    pub name: Seq<char>,
    pub uri: Seq<char>,
    pub author: Seq<char>,
    pub updated_at: Seq<char>,
    pub articles: Seq<ArticleView>,
}

impl View for Site {
    type V = SiteView;

    open spec fn view(&self) -> SiteView {
        SiteView {
            name: self.name@,
            uri: self.uri@,
            author: self.author@,
            updated_at: self.updated_at@,
            articles: articles_view(self.articles@),
        }
    }
}

/// Copies a list of articles, keeping their order and text.
pub fn copy_articles(v: &Vec<Article>) -> (r: Vec<Article>)
    ensures
        articles_view(r@) == articles_view(v@),
{
    let mut r: Vec<Article> = Vec::new();
    let mut i: usize = 0;
    while i < v.len()
        invariant
            i <= v@.len(),
            articles_view(r@) == articles_view(v@.take(i as int)),
        decreases v@.len() - i,
    {
        let a = v[i].clone();
        proof {
            let old_r = r@;
            assert(articles_view(old_r.push(a)) =~= articles_view(old_r).push(a@));
            assert(v@.take(i + 1) =~= v@.take(i as int).push(v@[i as int]));
            assert(articles_view(v@.take(i + 1)) =~= articles_view(v@.take(i as int)).push(
                v@[i as int]@,
            ));
        }
        r.push(a);
        i = i + 1;
    }
    assert(v@.take(v@.len() as int) =~= v@);
    r
}

} // verus!
