use vstd::prelude::*;

use crate::domain::article::{status_named, ArticleView};
use crate::domain::project::{ContentSectionView, MediaPlaceholderView, ProjectView};
use crate::domain::{Article, ArticleStatus, ContentSection, MediaPlaceholder, Project};
use crate::error::{AppError, AppErrorView};

verus! {

/// A stored project: lists and the hero are kept as JSON text.
#[derive(Debug, Clone)]
pub struct ProjectRow {
    pub slug: String,
    pub title: String,
    pub category: String,
    pub summary: String,
    pub tags: String,
    pub sections: String,
    pub hero: Option<String>,
    pub has_detail_page: bool,
    pub featured: bool,
    pub sort_order: i64,
    pub repo_url: Option<String>,
    pub related_slugs: String,
}

/// A stored article: its status by name, its sections as JSON text.
#[derive(Debug, Clone)]
pub struct ArticleRow {
    pub slug: String,
    pub title: String,
    pub category: String,
    pub summary: String,
    pub status: String,
    pub featured: bool,
    pub sort_order: i64,
    pub published_at: Option<String>,
    pub reading_time_minutes: Option<i64>,
    pub sections: String,
}

/// What `serde_json::from_str::<Vec<String>>` gives for the JSON text
/// `text`: the list of strings it holds, or the message of the error.
pub uninterp spec fn json_string_list(text: Seq<char>) -> Result<Seq<Seq<char>>, Seq<char>>;

/// `serde_json::from_str::<Vec<String>>`: the list read, or the error's
/// message (its `Display` text), is claimed to be `json_string_list` of the
/// text, a function of the text alone; nothing more is claimed.
#[verifier::external_body]
fn decode_string_list(text: &str) -> (r: Result<Vec<String>, String>)
    ensures
        match r {
            Ok(v) => json_string_list(text@) == Ok::<Seq<Seq<char>>, Seq<char>>(v.deep_view()),
            Err(m) => json_string_list(text@) == Err::<Seq<Seq<char>>, Seq<char>>(m@),
        },
{
    match serde_json::from_str::<Vec<String>>(text) {
        Ok(v) => Ok(v),
        Err(e) => Err(e.to_string()),
    }
}

/// A result that may fail with an `AppError`, its error as plain values.
pub open spec fn error_of<T>(r: Result<T, AppError>) -> Option<AppErrorView> {
    match r {
        Ok(_) => None,
        Err(e) => Some(e@),
    }
}

/// The project that a row and its decoded parts make.
pub open spec fn project_view_of(
    row: ProjectRow,
    tags: Seq<Seq<char>>,
    sections: Seq<ContentSectionView>,
    hero: Option<MediaPlaceholderView>,
    related_slugs: Seq<Seq<char>>,
) -> ProjectView {
    ProjectView {
        slug: row.slug@,
        title: row.title@,
        category: row.category@,
        summary: row.summary@,
        tags,
        has_detail_page: row.has_detail_page,
        featured: row.featured,
        sort_order: row.sort_order,
        sections,
        hero,
        related_slugs,
        repo_url: row.repo_url.deep_view(),
    }
}

/// A project read from a row carries each column of the row unchanged:
/// slug, title, category, summary, flags, order and repository are the
/// row's, and tags, sections, hero and related slugs are the decoded ones.
pub proof fn lemma_project_read_keeps_columns(
    row: ProjectRow,
    tags: Seq<Seq<char>>,
    sections: Seq<ContentSectionView>,
    hero: Option<MediaPlaceholderView>,
    related_slugs: Seq<Seq<char>>,
)
    ensures
        ({
            let p = project_view_of(row, tags, sections, hero, related_slugs);
            &&& p.slug == row.slug@
            &&& p.title == row.title@
            &&& p.category == row.category@
            &&& p.summary == row.summary@
            &&& p.tags == tags
            &&& p.has_detail_page == row.has_detail_page
            &&& p.featured == row.featured
            &&& p.sort_order == row.sort_order
            &&& p.sections == sections
            &&& p.hero == hero
            &&& p.related_slugs == related_slugs
            &&& p.repo_url == row.repo_url.deep_view()
        }),
{
}

/// The hero text of a row that is worth decoding: present and not empty.
pub fn hero_text(row: &ProjectRow) -> (r: Option<&str>)
    ensures
        match row.hero {
            Some(h) => if h@.len() > 0 {
                r matches Some(t) && t@ == h@
            } else {
                r is None
            },
            None => r is None,
        },
{
    match &row.hero {
        Some(h) => if h.as_str().is_empty() {
            None
        } else {
            Some(h.as_str())
        },
        None => None,
    }
}

/// Makes a project of a row and its decoded parts; the first part that failed,
/// in the order tags, sections, hero, related slugs, gives the error, a list
/// that could not be read as an internal error with the reader's message.
pub fn assemble_project(
    row: ProjectRow,
    tags: Result<Vec<String>, String>,
    sections: Result<Vec<ContentSection>, AppError>,
    hero: Result<Option<MediaPlaceholder>, AppError>,
    related_slugs: Result<Vec<String>, String>,
) -> (r: Result<Project, AppError>)
    ensures
        match tags {
            Err(m) => r matches Err(e) && e@ == AppErrorView::Internal(m@),
            Ok(t) => match sections {
                Err(e0) => r matches Err(e) && e@ == e0@,
                Ok(s) => match hero {
                    Err(e0) => r matches Err(e) && e@ == e0@,
                    Ok(h) => match related_slugs {
                        Err(m) => r matches Err(e) && e@ == AppErrorView::Internal(m@),
                        Ok(rel) => r matches Ok(p) && p@ == project_view_of(
                            row,
                            t.deep_view(),
                            s.deep_view(),
                            h.deep_view(),
                            rel.deep_view(),
                        ),
                    },
                },
            },
        },
{
    let tags = match tags {
        Ok(t) => t,
        Err(m) => {
            return Err(AppError::Internal(m));
        },
    };
    let sections = match sections {
        Ok(s) => s,
        Err(e) => {
            return Err(e);
        },
    };
    let hero = match hero {
        Ok(h) => h,
        Err(e) => {
            return Err(e);
        },
    };
    let related_slugs = match related_slugs {
        Ok(v) => v,
        Err(m) => {
            return Err(AppError::Internal(m));
        },
    };
    Ok(
        Project {
            slug: row.slug,
            title: row.title,
            category: row.category,
            summary: row.summary,
            tags,
            has_detail_page: row.has_detail_page,
            featured: row.featured,
            sort_order: row.sort_order,
            sections,
            hero,
            related_slugs,
            repo_url: row.repo_url,
        },
    )
}

/// What reading a stored project row gives, its sections and hero decoded
/// by the caller: the first failure in the order tags, sections, hero,
/// related slugs, else the project that the row and its parts make.
pub open spec fn project_read_outcome(
    row: ProjectRow,
    sections: Result<Vec<ContentSection>, AppError>,
    hero: Result<Option<MediaPlaceholder>, AppError>,
    r: Result<Project, AppError>,
) -> bool {
    match json_string_list(row.tags@) {
        Err(m) => r matches Err(e) && e@ == AppErrorView::Internal(m),
        Ok(t) => match sections {
            Err(e0) => r matches Err(e) && e@ == e0@,
            Ok(s) => match hero {
                Err(e0) => r matches Err(e) && e@ == e0@,
                Ok(h) => match json_string_list(row.related_slugs@) {
                    Err(m) => r matches Err(e) && e@ == AppErrorView::Internal(m),
                    Ok(rel) => r matches Ok(p) && p@ == project_view_of(
                        row,
                        t,
                        s.deep_view(),
                        h.deep_view(),
                        rel,
                    ),
                },
            },
        },
    }
}

/// The project that a stored row holds, its sections and hero decoded by the
/// caller; its tags and related slugs are read from their JSON text here.
pub fn project_from_row(
    row: ProjectRow,
    sections: Result<Vec<ContentSection>, AppError>,
    hero: Result<Option<MediaPlaceholder>, AppError>,
) -> (r: Result<Project, AppError>)
    ensures
        project_read_outcome(row, sections, hero, r),
        r matches Ok(p) ==> {
            &&& p.slug@ == row.slug@
            &&& p.title@ == row.title@
            &&& p.category@ == row.category@
            &&& p.summary@ == row.summary@
            &&& json_string_list(row.tags@) == Ok::<Seq<Seq<char>>, Seq<char>>(p.tags.deep_view())
            &&& p.has_detail_page == row.has_detail_page
            &&& p.featured == row.featured
            &&& p.sort_order == row.sort_order
            &&& sections matches Ok(s) && p.sections.deep_view() == s.deep_view()
            &&& hero matches Ok(h) && p.hero.deep_view() == h.deep_view()
            &&& json_string_list(row.related_slugs@) == Ok::<Seq<Seq<char>>, Seq<char>>(
                p.related_slugs.deep_view(),
            )
            &&& p.repo_url.deep_view() == row.repo_url.deep_view()
        },
{
    let tags = decode_string_list(row.tags.as_str());
    let related_slugs = decode_string_list(row.related_slugs.as_str());
    assemble_project(row, tags, sections, hero, related_slugs)
}

/// The article that a row and its decoded parts make.
pub open spec fn article_view_of(
    row: ArticleRow,
    status: ArticleStatus,
    sections: Seq<ContentSectionView>,
) -> ArticleView {
    ArticleView {
        slug: row.slug@,
        title: row.title@,
        category: row.category@,
        summary: row.summary@,
        status,
        featured: row.featured,
        sort_order: row.sort_order,
        published_at: row.published_at.deep_view(),
        reading_time_minutes: row.reading_time_minutes,
        sections,
    }
}

/// An article read from a row carries each column of the row unchanged:
/// slug, title, category, summary, featured flag, order, publication date
/// and reading time are the row's, its status is the one the row names and
/// its sections are the decoded ones.
pub proof fn lemma_article_read_keeps_columns(
    row: ArticleRow,
    status: ArticleStatus,
    sections: Seq<ContentSectionView>,
)
    ensures
        article_view_of(row, status, sections).slug == row.slug@,
        article_view_of(row, status, sections).title == row.title@,
        article_view_of(row, status, sections).category == row.category@,
        article_view_of(row, status, sections).summary == row.summary@,
        article_view_of(row, status, sections).status == status,
        article_view_of(row, status, sections).featured == row.featured,
        article_view_of(row, status, sections).sort_order == row.sort_order,
        article_view_of(row, status, sections).published_at == row.published_at.deep_view(),
        article_view_of(row, status, sections).reading_time_minutes == row.reading_time_minutes,
        article_view_of(row, status, sections).sections == sections,
{
}

/// The article that a stored row holds, its sections decoded by the caller:
/// an unknown status name is an internal error, checked before the sections.
pub fn article_from_row(row: ArticleRow, sections: Result<Vec<ContentSection>, AppError>) -> (r:
    Result<Article, AppError>)
    ensures
        match status_named(row.status@) {
            None => r matches Err(e) && e@ == AppErrorView::Internal(
                "unknown article status: "@ + row.status@,
            ),
            Some(st) => match sections {
                Err(e0) => r matches Err(e) && e@ == e0@,
                Ok(s) => r matches Ok(a) && a@ == article_view_of(row, st, s.deep_view()),
            },
        },
        r matches Ok(a) ==> {
            &&& a.slug@ == row.slug@
            &&& a.title@ == row.title@
            &&& a.category@ == row.category@
            &&& a.summary@ == row.summary@
            &&& status_named(row.status@) == Some(a.status)
            &&& a.featured == row.featured
            &&& a.sort_order == row.sort_order
            &&& a.published_at.deep_view() == row.published_at.deep_view()
            &&& a.reading_time_minutes == row.reading_time_minutes
            &&& sections matches Ok(s) && a.sections.deep_view() == s.deep_view()
        },
{
    let status = match ArticleStatus::parse(row.status.as_str()) {
        Ok(s) => s,
        Err(m) => {
            return Err(AppError::Internal(m));
        },
    };
    let sections = match sections {
        Ok(s) => s,
        Err(e) => {
            return Err(e);
        },
    };
    Ok(
        Article {
            slug: row.slug,
            title: row.title,
            category: row.category,
            summary: row.summary,
            status,
            featured: row.featured,
            sort_order: row.sort_order,
            published_at: row.published_at,
            reading_time_minutes: row.reading_time_minutes,
            sections,
        },
    )
}

/// The message of a lookup that found nothing: `<what> '<slug>' not found`.
pub open spec fn not_found_message(what: Seq<char>, slug: Seq<char>) -> Seq<char> {
    what + " '"@ + slug + "' not found"@
}

/// The item a lookup found, or a not-found error that names it.
pub fn require_found<T>(found: Option<T>, what: &str, slug: &str) -> (r: Result<T, AppError>)
    ensures
        match found {
            Some(x) => r == Ok::<T, AppError>(x),
            None => r matches Err(e) && e@ == AppErrorView::NotFound(
                not_found_message(what@, slug@),
            ),
        },
{
    match found {
        Some(x) => Ok(x),
        None => {
            let mut m = what.to_owned();
            m.append(" '");
            m.append(slug);
            m.append("' not found");
            Err(AppError::NotFound(m))
        },
    }
}

/// The project a lookup found, or the error that no project has `slug`.
pub fn require_project<T>(found: Option<T>, slug: &str) -> (r: Result<T, AppError>)
    ensures
        match found {
            Some(x) => r == Ok::<T, AppError>(x),
            None => r matches Err(e) && e@ == AppErrorView::NotFound(
                not_found_message("project"@, slug@),
            ),
        },
{
    require_found(found, "project", slug)
}

/// The article a lookup found, or the error that no article has `slug`.
pub fn require_article<T>(found: Option<T>, slug: &str) -> (r: Result<T, AppError>)
    ensures
        match found {
            Some(x) => r == Ok::<T, AppError>(x),
            None => r matches Err(e) && e@ == AppErrorView::NotFound(
                not_found_message("article"@, slug@),
            ),
        },
{
    require_found(found, "article", slug)
}

} // verus!
