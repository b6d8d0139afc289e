use vstd::prelude::*;

use crate::text::copy_strings;

verus! {

/// One block of a detail page: an optional heading, a body and its kind.
#[derive(Debug, Clone)]
pub struct ContentSection {
    pub heading: Option<String>,
    pub body: String,
    pub kind: String,
}

/// A content section as plain values.
pub struct ContentSectionView {
    pub heading: Option<Seq<char>>,
    pub body: Seq<char>,
    pub kind: Seq<char>,
}

impl View for ContentSection {
    type V = ContentSectionView;

    open spec fn view(&self) -> ContentSectionView {
        ContentSectionView {
            heading: self.heading.deep_view(),
            body: self.body@,
            kind: self.kind@,
        }
    }
}

impl DeepView for ContentSection {
    type V = ContentSectionView;

    open spec fn deep_view(&self) -> ContentSectionView {
        self@
    }
}

/// A stand-in for a project's hero image: a label and a caption.
#[derive(Debug, Clone)]
pub struct MediaPlaceholder {
    pub label: String,
    pub text: String,
}

/// A media placeholder as plain values.
pub struct MediaPlaceholderView {
    pub label: Seq<char>,
    pub text: Seq<char>,
}

impl View for MediaPlaceholder {
    type V = MediaPlaceholderView;

    open spec fn view(&self) -> MediaPlaceholderView {
        MediaPlaceholderView { label: self.label@, text: self.text@ }
    }
}

impl DeepView for MediaPlaceholder {
    type V = MediaPlaceholderView;

    open spec fn deep_view(&self) -> MediaPlaceholderView {
        self@
    }
}

/// A portfolio project.
#[derive(Debug, Clone)]
pub struct Project {
    pub slug: String,
    pub title: String,
    pub category: String,
    pub summary: String,
    pub tags: Vec<String>,
    pub has_detail_page: bool,
    pub featured: bool,
    pub sort_order: i64,
    pub sections: Vec<ContentSection>,
    pub hero: Option<MediaPlaceholder>,
    pub related_slugs: Vec<String>,
    pub repo_url: Option<String>,
}

/// A project as plain values.
pub struct ProjectView {
    pub slug: Seq<char>,
    pub title: Seq<char>,
    pub category: Seq<char>,
    pub summary: Seq<char>,
    pub tags: Seq<Seq<char>>,
    pub has_detail_page: bool,
    pub featured: bool,
    pub sort_order: i64,
    pub sections: Seq<ContentSectionView>,
    pub hero: Option<MediaPlaceholderView>,
    pub related_slugs: Seq<Seq<char>>,
    pub repo_url: Option<Seq<char>>,
}

impl View for Project {
    type V = ProjectView;

    open spec fn view(&self) -> ProjectView {
        ProjectView {
            slug: self.slug@,
            title: self.title@,
            category: self.category@,
            summary: self.summary@,
            tags: self.tags.deep_view(),
            has_detail_page: self.has_detail_page,
            featured: self.featured,
            sort_order: self.sort_order,
            sections: self.sections.deep_view(),
            hero: self.hero.deep_view(),
            related_slugs: self.related_slugs.deep_view(),
            repo_url: self.repo_url.deep_view(),
        }
    }
}

impl ProjectView {
    /// The project as a list shows it: the detail (sections, hero, related
    /// projects, repository) is left out, the rest kept.
    pub open spec fn card(self) -> ProjectView {
        ProjectView {
            slug: self.slug,
            title: self.title,
            category: self.category,
            summary: self.summary,
            tags: self.tags,
            has_detail_page: self.has_detail_page,
            featured: self.featured,
            sort_order: self.sort_order,
            sections: Seq::empty(),
            hero: None,
            related_slugs: Seq::empty(),
            repo_url: None,
        }
    }
}

/// Making a card of a card changes nothing.
pub proof fn lemma_project_card_idempotent(p: ProjectView)
    ensures
        p.card().card() == p.card(),
{
}

/// A card is its project without the detail: slug, title, category,
/// summary, tags, detail-page flag, featured flag and order are the
/// project's own; sections, hero, related slugs and repository are empty.
pub proof fn lemma_project_card_keeps_all_but_detail(p: ProjectView)
    ensures
        p.card().slug == p.slug,
        p.card().title == p.title,
        p.card().category == p.category,
        p.card().summary == p.summary,
        p.card().tags == p.tags,
        p.card().has_detail_page == p.has_detail_page,
        p.card().featured == p.featured,
        p.card().sort_order == p.sort_order,
        p.card().sections.len() == 0,
        p.card().hero is None,
        p.card().related_slugs.len() == 0,
        p.card().repo_url is None,
{
}

/// The body of a project listing.
#[derive(Debug, Clone)]
pub struct ProjectListResponse {
    pub items: Vec<Project>,
}

impl Project {
    /// The card of this project: the same project without its detail.
    pub fn as_card(&self) -> (r: Project)
        ensures
            r@ == self@.card(),
            r.slug@ == self.slug@,
            r.title@ == self.title@,
            r.category@ == self.category@,
            r.summary@ == self.summary@,
            r.tags.deep_view() == self.tags.deep_view(),
            r.has_detail_page == self.has_detail_page,
            r.featured == self.featured,
            r.sort_order == self.sort_order,
            r.sections@.len() == 0,
            r.hero is None,
            r.related_slugs@.len() == 0,
            r.repo_url is None,
    {
        let r = Project {
            slug: self.slug.clone(),
            title: self.title.clone(),
            category: self.category.clone(),
            summary: self.summary.clone(),
            tags: copy_strings(&self.tags),
            has_detail_page: self.has_detail_page,
            featured: self.featured,
            sort_order: self.sort_order,
            sections: Vec::new(),
            hero: None,
            related_slugs: Vec::new(),
            repo_url: None,
        };
        assert(r.sections.deep_view() =~= Seq::<ContentSectionView>::empty());
        assert(r.related_slugs.deep_view() =~= Seq::<Seq<char>>::empty());
        r
    }
}

} // verus!
