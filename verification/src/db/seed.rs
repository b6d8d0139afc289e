use vstd::prelude::*;

use crate::db::rows::{json_string_list, project_read_outcome, ArticleRow, ProjectRow};
use crate::domain::{ContentSection, MediaPlaceholder, Project};
use crate::error::{AppError, AppErrorView};

verus! {

/// A project as the seed data gives it, without its sections and hero,
/// which arrive as JSON text.
#[derive(Debug, Clone)]
pub struct SeedProject {
    pub slug: String,
    pub title: String,
    pub category: String,
    pub summary: String,
    pub tags: Vec<String>,
    pub has_detail_page: bool,
    pub featured: bool,
    pub sort_order: i64,
    pub related_slugs: Vec<String>,
    pub repo_url: Option<String>,
}

/// An article as the seed data gives it, without its sections, which
/// arrive as JSON text.
#[derive(Debug, Clone)]
pub struct SeedArticle {
    pub slug: String,
    pub title: String,
    pub category: String,
    pub summary: String,
    pub featured: bool,
    pub sort_order: i64,
}

/// What `serde_json::to_string` gives for a list of strings: the JSON
/// text it writes, or the message of the error.
pub uninterp spec fn json_of_strings(v: Seq<Seq<char>>) -> Result<Seq<char>, Seq<char>>;

/// `serde_json::to_string` on a list of strings: the text written, or the
/// error's message (its `Display` text), is claimed to be `json_of_strings`
/// of the list, a function of the strings alone. Of written text it is
/// claimed as well that `serde_json::from_str::<Vec<String>>` reads the same
/// list back from it (`json_string_list`): the writer puts each string in
/// quotes and escapes its quotes, backslashes and control characters, which
/// is what the reader undoes. Which text is written is not claimed.
#[verifier::external_body]
fn encode_string_list(v: &Vec<String>) -> (r: Result<String, String>)
    ensures
        match r {
            Ok(t) => json_of_strings(v.deep_view()) == Ok::<Seq<char>, Seq<char>>(t@)
                && json_string_list(t@) == Ok::<Seq<Seq<char>>, Seq<char>>(v.deep_view()),
            Err(m) => json_of_strings(v.deep_view()) == Err::<Seq<char>, Seq<char>>(m@),
        },
{
    match serde_json::to_string(v) {
        Ok(t) => Ok(t),
        Err(e) => Err(e.to_string()),
    }
}

/// Whether a store holding `stored_projects` projects is seeded: only an
/// empty one is.
pub open spec fn seed_needed(stored_projects: nat) -> bool {
    stored_projects == 0
}

/// Whether the store needs seeding: it holds no project yet.
pub fn needs_seed(stored_projects: usize) -> (r: bool)
    ensures
        r == seed_needed(stored_projects as nat),
{
    stored_projects == 0
}

/// The row of a seeded project, made of its fields and its encoded parts;
/// the first part that failed, in the order tags, sections, hero, related
/// slugs, gives an internal error with its message.
pub fn assemble_seed_project(
    project: SeedProject,
    tags: Result<String, String>,
    sections: Result<String, String>,
    hero: Result<Option<String>, String>,
    related_slugs: Result<String, String>,
) -> (r: Result<ProjectRow, AppError>)
    ensures
        match (tags, sections, hero, related_slugs) {
            (Err(m), _, _, _) => r matches Err(e) && e@ == AppErrorView::Internal(m@),
            (Ok(_), Err(m), _, _) => r matches Err(e) && e@ == AppErrorView::Internal(m@),
            (Ok(_), Ok(_), Err(m), _) => r matches Err(e) && e@ == AppErrorView::Internal(m@),
            (Ok(_), Ok(_), Ok(_), Err(m)) => r matches Err(e) && e@ == AppErrorView::Internal(m@),
            (Ok(t), Ok(s), Ok(h), Ok(rel)) => r matches Ok(row) && row.slug@ == project.slug@
                && row.title@ == project.title@ && row.category@ == project.category@
                && row.summary@ == project.summary@ && row.tags@ == t@ && row.sections@ == s@
                && row.hero.deep_view() == h.deep_view() && row.has_detail_page
                == project.has_detail_page && row.featured == project.featured && row.sort_order
                == project.sort_order && row.repo_url.deep_view() == project.repo_url.deep_view()
                && row.related_slugs@ == rel@,
        },
{
    let tags = match tags {
        Ok(t) => t,
        Err(m) => {
            return Err(AppError::Internal(m));
        },
    };
    let sections = match sections {
        Ok(s) => s,
        Err(m) => {
            return Err(AppError::Internal(m));
        },
    };
    let hero = match hero {
        Ok(h) => h,
        Err(m) => {
            return Err(AppError::Internal(m));
        },
    };
    let related_slugs = match related_slugs {
        Ok(v) => v,
        Err(m) => {
            return Err(AppError::Internal(m));
        },
    };
    Ok(
        ProjectRow {
            slug: project.slug,
            title: project.title,
            category: project.category,
            summary: project.summary,
            tags,
            sections,
            hero,
            has_detail_page: project.has_detail_page,
            featured: project.featured,
            sort_order: project.sort_order,
            repo_url: project.repo_url,
            related_slugs,
        },
    )
}

/// What seeding a project gives: the first failure in the order tags,
/// sections, hero, related slugs, else the row that holds the project's
/// fields, its encoded lists and the given encoded sections and hero. Each
/// list that is encoded reads back, as JSON, as the list it came from.
pub open spec fn seed_project_outcome(
    project: SeedProject,
    sections: Result<String, String>,
    hero: Result<Option<String>, String>,
    r: Result<ProjectRow, AppError>,
) -> bool {
    match json_of_strings(project.tags.deep_view()) {
        Err(m) => r matches Err(e) && e@ == AppErrorView::Internal(m),
        Ok(t) => json_string_list(t) == Ok::<Seq<Seq<char>>, Seq<char>>(project.tags.deep_view())
            && match (sections, hero) {
            (Err(m), _) => r matches Err(e) && e@ == AppErrorView::Internal(m@),
            (Ok(_), Err(m)) => r matches Err(e) && e@ == AppErrorView::Internal(m@),
            (Ok(s), Ok(h)) => match json_of_strings(project.related_slugs.deep_view()) {
                Err(m) => r matches Err(e) && e@ == AppErrorView::Internal(m),
                Ok(rel) => r matches Ok(row) && json_string_list(rel) == Ok::<
                    Seq<Seq<char>>,
                    Seq<char>,
                >(project.related_slugs.deep_view()) && row.slug@ == project.slug@ && row.title@
                    == project.title@ && row.category@ == project.category@ && row.summary@
                    == project.summary@ && row.tags@ == t && row.sections@ == s@
                    && row.hero.deep_view() == h.deep_view() && row.has_detail_page
                    == project.has_detail_page && row.featured == project.featured
                    && row.sort_order == project.sort_order && row.repo_url.deep_view()
                    == project.repo_url.deep_view() && row.related_slugs@ == rel,
            },
        },
    }
}

/// The row of a seeded project; its sections and hero come encoded by the
/// caller, its tags and related slugs are encoded here.
pub fn seed_project_row(
    project: SeedProject,
    sections: Result<String, String>,
    hero: Result<Option<String>, String>,
) -> (r: Result<ProjectRow, AppError>)
    ensures
        seed_project_outcome(project, sections, hero, r),
        r matches Ok(row) ==> {
            &&& row.slug@ == project.slug@
            &&& row.title@ == project.title@
            &&& row.category@ == project.category@
            &&& row.summary@ == project.summary@
            &&& row.has_detail_page == project.has_detail_page
            &&& row.featured == project.featured
            &&& row.sort_order == project.sort_order
            &&& row.repo_url.deep_view() == project.repo_url.deep_view()
            &&& sections matches Ok(s) && row.sections@ == s@
            &&& hero matches Ok(h) && row.hero.deep_view() == h.deep_view()
        },
{
    let tags = encode_string_list(&project.tags);
    let related_slugs = encode_string_list(&project.related_slugs);
    assemble_seed_project(project, tags, sections, hero, related_slugs)
}

/// What seeding an article gives: the failure of its encoded sections, else
/// a draft row, not yet published, with no reading time.
pub open spec fn seed_article_outcome(
    article: SeedArticle,
    sections: Result<String, String>,
    r: Result<ArticleRow, AppError>,
) -> bool {
    match sections {
        Err(m) => r matches Err(e) && e@ == AppErrorView::Internal(m@),
        Ok(s) => r matches Ok(row) && row.slug@ == article.slug@ && row.title@
            == article.title@ && row.category@ == article.category@ && row.summary@
            == article.summary@ && row.status@ == "draft"@ && row.featured == article.featured
            && row.sort_order == article.sort_order && row.published_at is None
            && row.reading_time_minutes is None && row.sections@ == s@,
    }
}

/// The row of a seeded article: a draft, not yet published, with no reading
/// time; its sections come encoded by the caller.
pub fn seed_article_row(article: SeedArticle, sections: Result<String, String>) -> (r: Result<
    ArticleRow,
    AppError,
>)
    ensures
        seed_article_outcome(article, sections, r),
        r matches Ok(row) ==> {
            &&& row.slug@ == article.slug@
            &&& row.title@ == article.title@
            &&& row.category@ == article.category@
            &&& row.summary@ == article.summary@
            &&& row.featured == article.featured
            &&& row.sort_order == article.sort_order
            &&& sections matches Ok(s) && row.sections@ == s@
        },
        r is Ok <==> sections is Ok,
{
    let sections = match sections {
        Ok(s) => s,
        Err(m) => {
            return Err(AppError::Internal(m));
        },
    };
    Ok(
        ArticleRow {
            slug: article.slug,
            title: article.title,
            category: article.category,
            summary: article.summary,
            status: "draft".to_owned(),
            featured: article.featured,
            sort_order: article.sort_order,
            published_at: None,
            reading_time_minutes: None,
            sections,
        },
    )
}

/// A project of the seed data with its sections and hero as encoded JSON.
#[derive(Debug)]
pub struct SeedProjectEntry {
    pub project: SeedProject,
    pub sections: Result<String, String>,
    pub hero: Result<Option<String>, String>,
}

/// An article of the seed data with its sections as encoded JSON.
#[derive(Debug)]
pub struct SeedArticleEntry {
    pub article: SeedArticle,
    pub sections: Result<String, String>,
}

/// The rows that seeding writes, in order: the projects, then the articles.
/// They are written one by one and writing stops at the first failure.
#[derive(Debug)]
pub struct SeedBatch {
    pub projects: Vec<Result<ProjectRow, AppError>>,
    pub articles: Vec<Result<ArticleRow, AppError>>,
}

/// The rows that seeding a store holding `stored_projects` projects writes:
/// none when the store holds a project already, else one per seed entry.
pub fn seed_batch(
    stored_projects: usize,
    projects: Vec<SeedProjectEntry>,
    articles: Vec<SeedArticleEntry>,
) -> (r: SeedBatch)
    ensures
        !seed_needed(stored_projects as nat) ==> r.projects@.len() == 0 && r.articles@.len() == 0,
        seed_needed(stored_projects as nat) ==> r.projects@.len() == projects@.len()
            && r.articles@.len() == articles@.len(),
        seed_needed(stored_projects as nat) ==> forall|i: int|
            #![trigger r.projects@[i]]
            0 <= i < projects@.len() ==> seed_project_outcome(
                projects@[i].project,
                projects@[i].sections,
                projects@[i].hero,
                r.projects@[i],
            ),
        seed_needed(stored_projects as nat) ==> forall|i: int|
            #![trigger r.articles@[i]]
            0 <= i < articles@.len() ==> seed_article_outcome(
                articles@[i].article,
                articles@[i].sections,
                r.articles@[i],
            ),
{
    let mut out_projects: Vec<Result<ProjectRow, AppError>> = Vec::new();
    let mut out_articles: Vec<Result<ArticleRow, AppError>> = Vec::new();
    if !needs_seed(stored_projects) {
        return SeedBatch { projects: out_projects, articles: out_articles };
    }
    let n = projects.len();
    let mut rest = projects;
    let mut k: usize = 0;
    assert(projects@.skip(0) =~= projects@);
    while k < n
        invariant
            n == projects@.len(),
            k <= n,
            rest@ == projects@.skip(k as int),
            out_projects@.len() == k,
            forall|i: int|
                #![trigger out_projects@[i]]
                0 <= i < k ==> seed_project_outcome(
                    projects@[i].project,
                    projects@[i].sections,
                    projects@[i].hero,
                    out_projects@[i],
                ),
        decreases n - k,
    {
        let e = rest.remove(0);
        assert(projects@[k as int] == e);
        let row = seed_project_row(e.project, e.sections, e.hero);
        out_projects.push(row);
        assert(out_projects@[k as int] == row);
        assert(rest@ =~= projects@.skip(k + 1));
        k = k + 1;
    }
    let m = articles.len();
    let mut rest_a = articles;
    let mut j: usize = 0;
    assert(articles@.skip(0) =~= articles@);
    while j < m
        invariant
            m == articles@.len(),
            j <= m,
            rest_a@ == articles@.skip(j as int),
            out_articles@.len() == j,
            forall|i: int|
                #![trigger out_articles@[i]]
                0 <= i < j ==> seed_article_outcome(
                    articles@[i].article,
                    articles@[i].sections,
                    out_articles@[i],
                ),
        decreases m - j,
    {
        let e = rest_a.remove(0);
        assert(articles@[j as int] == e);
        let row = seed_article_row(e.article, e.sections);
        out_articles.push(row);
        assert(out_articles@[j as int] == row);
        assert(rest_a@ =~= articles@.skip(j + 1));
        j = j + 1;
    }
    SeedBatch { projects: out_projects, articles: out_articles }
}

/// Seeding happens once: a store that seeding wrote at least one project
/// into is not seeded again, so a second seeding writes no row.
pub proof fn lemma_seeded_store_is_not_seeded_again(stored_projects: nat, written_projects: nat)
    requires
        written_projects > 0,
    ensures
        !seed_needed(stored_projects + written_projects),
{
}

/// A seeded article keeps its seed entry: the row that seeding writes for
/// it has the entry's slug, title, category, summary, featured flag and
/// order, the given encoded sections, and is a draft that is not published
/// and has no reading time.
pub proof fn lemma_seeded_article_keeps_entry(
    article: SeedArticle,
    sections: Result<String, String>,
    row: ArticleRow,
)
    requires
        seed_article_outcome(article, sections, Ok::<ArticleRow, AppError>(row)),
    ensures
        row.slug@ == article.slug@,
        row.title@ == article.title@,
        row.category@ == article.category@,
        row.summary@ == article.summary@,
        row.featured == article.featured,
        row.sort_order == article.sort_order,
        sections matches Ok(s) && row.sections@ == s@,
        row.status@ == "draft"@,
        row.published_at is None,
        row.reading_time_minutes is None,
{
}

/// A seeded project reads back as it was seeded: the row that seeding
/// writes, read as a stored row whose sections and hero decode, gives a
/// project with the seed's slug, title, category, summary, tags, flags,
/// order, related slugs and repository, and with the decoded sections and
/// hero.
pub proof fn lemma_seeded_project_reads_back(
    project: SeedProject,
    sections: Result<String, String>,
    hero: Result<Option<String>, String>,
    row: ProjectRow,
    read_sections: Result<Vec<ContentSection>, AppError>,
    read_hero: Result<Option<MediaPlaceholder>, AppError>,
    read: Result<Project, AppError>,
)
    requires
        seed_project_outcome(project, sections, hero, Ok::<ProjectRow, AppError>(row)),
        read_sections is Ok,
        read_hero is Ok,
        project_read_outcome(row, read_sections, read_hero, read),
    ensures
        read is Ok,
        ({
            let p = read->Ok_0@;
            &&& p.slug == project.slug@
            &&& p.title == project.title@
            &&& p.category == project.category@
            &&& p.summary == project.summary@
            &&& p.tags == project.tags.deep_view()
            &&& p.has_detail_page == project.has_detail_page
            &&& p.featured == project.featured
            &&& p.sort_order == project.sort_order
            &&& p.related_slugs == project.related_slugs.deep_view()
            &&& p.repo_url == project.repo_url.deep_view()
            &&& p.sections == read_sections->Ok_0.deep_view()
            &&& p.hero == read_hero->Ok_0.deep_view()
        }),
{
}

} // verus!
