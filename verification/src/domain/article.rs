use vstd::prelude::*;

use super::project::ContentSectionView;
use super::ContentSection;
use crate::text::{copy_opt_string, same_text};

verus! {

/// Whether an article is still a draft or has been published.
#[derive(Debug, Clone, Copy, PartialEq, Eq, Structural)]
pub enum ArticleStatus {
    Draft,
    Published,
}

/// The status with the given name, if there is one.
pub open spec fn status_named(v: Seq<char>) -> Option<ArticleStatus> {
    if v == "draft"@ {
        Some(ArticleStatus::Draft)
    } else if v == "published"@ {
        Some(ArticleStatus::Published)
    } else {
        None
    }
}

impl ArticleStatus {
    /// The name under which the status is stored and sent.
    pub open spec fn name(self) -> Seq<char> {
        match self {
            ArticleStatus::Draft => "draft"@,
            ArticleStatus::Published => "published"@,
        }
    }

    /// The name of this status.
    pub fn as_str(self) -> (r: &'static str)
        ensures
            r@ == self.name(),
    {
        match self {
            ArticleStatus::Draft => "draft",
            ArticleStatus::Published => "published",
        }
    }

    /// The status with the given name, or a message that names the unknown value.
    pub fn parse(value: &str) -> (r: Result<Self, String>)
        ensures
            match status_named(value@) {
                Some(s) => r == Ok::<ArticleStatus, String>(s),
                None => r matches Err(m) && m@ == "unknown article status: "@ + value@,
            },
    {
        if same_text(value, "draft") {
            Ok(ArticleStatus::Draft)
        } else if same_text(value, "published") {
            Ok(ArticleStatus::Published)
        } else {
            let mut m = "unknown article status: ".to_owned();
            m.append(value);
            Err(m)
        }
    }
}

/// A status is read back from its own name: `parse(s.as_str())` gives `s`,
/// and no two statuses share a name.
pub proof fn lemma_status_name_round_trip(s: ArticleStatus)
    ensures
        status_named(s.name()) == Some(s),
{
    reveal_strlit("draft");
    reveal_strlit("published");
    assert("draft"@[0] != "published"@[0]);
}

/// An engineering note.
#[derive(Debug, Clone)]
pub struct Article {
    pub slug: String,
    pub title: String,
    pub category: String,
    pub summary: String,
    pub status: ArticleStatus,
    pub featured: bool,
    pub sort_order: i64,
    pub published_at: Option<String>,
    pub reading_time_minutes: Option<i64>,
    pub sections: Vec<ContentSection>,
}

/// An article as plain values.
pub struct ArticleView {
    pub slug: Seq<char>,
    pub title: Seq<char>,
    pub category: Seq<char>,
    pub summary: Seq<char>,
    pub status: ArticleStatus,
    pub featured: bool,
    pub sort_order: i64,
    pub published_at: Option<Seq<char>>,
    pub reading_time_minutes: Option<i64>,
    pub sections: Seq<ContentSectionView>,
}

impl View for Article {
    type V = ArticleView;

    open spec fn view(&self) -> ArticleView {
        ArticleView {
            slug: self.slug@,
            title: self.title@,
            category: self.category@,
            summary: self.summary@,
            status: self.status,
            featured: self.featured,
            sort_order: self.sort_order,
            published_at: self.published_at.deep_view(),
            reading_time_minutes: self.reading_time_minutes,
            sections: self.sections.deep_view(),
        }
    }
}

impl ArticleView {
    /// The article as a list shows it: without its sections.
    pub open spec fn card(self) -> ArticleView {
        ArticleView {
            slug: self.slug,
            title: self.title,
            category: self.category,
            summary: self.summary,
            status: self.status,
            featured: self.featured,
            sort_order: self.sort_order,
            published_at: self.published_at,
            reading_time_minutes: self.reading_time_minutes,
            sections: Seq::empty(),
        }
    }
}

/// Making a card of a card changes nothing.
pub proof fn lemma_article_card_idempotent(a: ArticleView)
    ensures
        a.card().card() == a.card(),
{
}

/// An article's card is the article without its sections: slug, title,
/// category, summary, status, featured flag, order, publication date and
/// reading time are the article's own, and it has no section.
pub proof fn lemma_article_card_keeps_all_but_sections(a: ArticleView)
    ensures
        a.card().slug == a.slug,
        a.card().title == a.title,
        a.card().category == a.category,
        a.card().summary == a.summary,
        a.card().status == a.status,
        a.card().featured == a.featured,
        a.card().sort_order == a.sort_order,
        a.card().published_at == a.published_at,
        a.card().reading_time_minutes == a.reading_time_minutes,
        a.card().sections.len() == 0,
{
}

/// The body of an article listing.
#[derive(Debug, Clone)]
pub struct ArticleListResponse {
    pub items: Vec<Article>,
}

impl Article {
    /// The card of this article: the same article without its sections.
    pub fn as_card(&self) -> (r: Article)
        ensures
            r@ == self@.card(),
            r.slug@ == self.slug@,
            r.title@ == self.title@,
            r.category@ == self.category@,
            r.summary@ == self.summary@,
            r.status == self.status,
            r.featured == self.featured,
            r.sort_order == self.sort_order,
            r.published_at.deep_view() == self.published_at.deep_view(),
            r.reading_time_minutes == self.reading_time_minutes,
            r.sections@.len() == 0,
    {
        let r = Article {
            slug: self.slug.clone(),
            title: self.title.clone(),
            category: self.category.clone(),
            summary: self.summary.clone(),
            status: self.status,
            featured: self.featured,
            sort_order: self.sort_order,
            published_at: copy_opt_string(&self.published_at),
            reading_time_minutes: self.reading_time_minutes,
            sections: Vec::new(),
        };
        assert(r.sections.deep_view() =~= Seq::<ContentSectionView>::empty());
        r
    }
}

} // verus!
