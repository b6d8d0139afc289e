use voidreg_api::db::connect::{connect_target, schema_already_exists, schema_outcome, ConnectTarget};
use voidreg_api::db::listing::{list_cards, list_read_cards, sort_for_listing};
use voidreg_api::db::rows::{
    article_from_row, hero_text, project_from_row, require_article, require_found, require_project,
    ArticleRow, ProjectRow,
};
use voidreg_api::db::seed::{
    needs_seed, seed_article_row, seed_batch, seed_project_row, SeedArticle, SeedArticleEntry,
    SeedProject, SeedProjectEntry,
};
use voidreg_api::db::subscribers::{subscription_step, SubscriptionStep};
use voidreg_api::domain::{
    Article, ArticleStatus, ContentSection, MediaPlaceholder, Project,
};
use voidreg_api::error::AppError;

fn project(slug: &str, order: i64, featured: bool) -> Project {
    Project {
        slug: slug.to_owned(),
        title: format!("Title {slug}"),
        category: "systems".to_owned(),
        summary: "summary".to_owned(),
        tags: vec!["c".to_owned()],
        has_detail_page: true,
        featured,
        sort_order: order,
        sections: vec![ContentSection {
            heading: Some("Intro".to_owned()),
            body: "body".to_owned(),
            kind: "text".to_owned(),
        }],
        hero: Some(MediaPlaceholder { label: "hero".to_owned(), text: "img".to_owned() }),
        related_slugs: vec!["webserv".to_owned()],
        repo_url: Some("https://example.com/repo".to_owned()),
    }
}

fn article(slug: &str, order: i64, featured: bool) -> Article {
    Article {
        slug: slug.to_owned(),
        title: "t".to_owned(),
        category: "notes".to_owned(),
        summary: "s".to_owned(),
        status: ArticleStatus::Draft,
        featured,
        sort_order: order,
        published_at: Some("2024-01-01".to_owned()),
        reading_time_minutes: Some(4),
        sections: vec![ContentSection { heading: None, body: "b".to_owned(), kind: "text".to_owned() }],
    }
}

fn project_row(tags: &str, hero: Option<&str>, related: &str) -> ProjectRow {
    ProjectRow {
        slug: "minirt".to_owned(),
        title: "miniRT".to_owned(),
        category: "graphics".to_owned(),
        summary: "a ray tracer".to_owned(),
        tags: tags.to_owned(),
        sections: "[]".to_owned(),
        hero: hero.map(|h| h.to_owned()),
        has_detail_page: true,
        featured: true,
        sort_order: 1,
        repo_url: None,
        related_slugs: related.to_owned(),
    }
}

#[test]
fn cards_drop_detail() {
    let p = project("minirt", 1, true);
    let c = p.as_card();
    assert_eq!(c.slug, "minirt");
    assert_eq!(c.tags, vec!["c".to_owned()]);
    assert!(c.sections.is_empty());
    assert!(c.hero.is_none());
    assert!(c.related_slugs.is_empty());
    assert!(c.repo_url.is_none());
    let a = article("note", 1, false);
    let c = a.as_card();
    assert!(c.sections.is_empty());
    assert_eq!(c.published_at.as_deref(), Some("2024-01-01"));
    assert_eq!(c.reading_time_minutes, Some(4));
}

#[test]
fn article_status_names() {
    assert_eq!(ArticleStatus::Draft.as_str(), "draft");
    assert_eq!(ArticleStatus::Published.as_str(), "published");
    assert_eq!(ArticleStatus::parse("draft"), Ok(ArticleStatus::Draft));
    assert_eq!(ArticleStatus::parse("published"), Ok(ArticleStatus::Published));
    assert_eq!(ArticleStatus::parse("Draft"), Err("unknown article status: Draft".to_owned()));
}

#[test]
fn listing_sorts_by_order_then_slug() {
    let items = vec![
        project("webserv", 2, false),
        project("minirt", 1, true),
        project("cub3d", 2, true),
        project("push_swap", 0, true),
    ];
    let cards = list_cards(items, None);
    let slugs: Vec<&str> = cards.iter().map(|p| p.slug.as_str()).collect();
    assert_eq!(slugs, vec!["push_swap", "minirt", "cub3d", "webserv"]);
    assert!(cards.iter().all(|p| p.sections.is_empty()));
}

#[test]
fn featured_listing_keeps_featured_only() {
    let items = vec![
        project("webserv", 2, false),
        project("minirt", 1, true),
        project("cub3d", 2, true),
    ];
    let cards = list_cards(items, Some(true));
    assert_eq!(cards.len(), 2);
    assert!(cards.iter().all(|p| p.featured));
    let items = vec![article("a", 1, true), article("b", 0, false)];
    assert_eq!(list_cards(items, Some(false)).len(), 2);
}

#[test]
fn sort_is_stable_for_equal_keys() {
    let mut first = article("same", 1, true);
    first.title = "first".to_owned();
    let mut second = article("same", 1, true);
    second.title = "second".to_owned();
    let sorted = sort_for_listing(vec![first, article("aaa", 5, false), second]);
    let titles: Vec<&str> = sorted.iter().map(|a| a.title.as_str()).collect();
    assert_eq!(titles, vec!["first", "second", "t"]);
}

#[test]
fn read_failure_stops_listing() {
    let read = vec![
        Ok(article("a", 1, true)),
        Err(AppError::Internal("bad row".to_owned())),
        Err(AppError::Internal("later".to_owned())),
    ];
    match list_read_cards(read, None) {
        Err(AppError::Internal(m)) => assert_eq!(m, "bad row"),
        other => panic!("unexpected {:?}", other),
    }
    let read = vec![Ok(article("b", 2, true)), Ok(article("a", 1, true))];
    let cards = list_read_cards(read, None).unwrap();
    assert_eq!(cards[0].slug, "a");
}

#[test]
fn project_row_is_decoded() {
    let row = project_row("[\"c\",\"raytracing\"]", Some(""), "[\"webserv\"]");
    assert_eq!(hero_text(&row), None);
    let p = project_from_row(row, Ok(vec![]), Ok(None)).unwrap();
    assert_eq!(p.tags, vec!["c".to_owned(), "raytracing".to_owned()]);
    assert_eq!(p.related_slugs, vec!["webserv".to_owned()]);
    assert_eq!(p.slug, "minirt");
    assert!(p.hero.is_none());
}

#[test]
fn project_row_errors_in_order() {
    let row = project_row("not json", None, "also not json");
    match project_from_row(row, Err(AppError::Internal("sections".to_owned())), Ok(None)) {
        Err(AppError::Internal(m)) => assert_ne!(m, "sections"),
        other => panic!("unexpected {:?}", other),
    }
    let row = project_row("[]", Some("{\"label\":\"x\"}"), "[]");
    assert_eq!(hero_text(&row), Some("{\"label\":\"x\"}"));
    match project_from_row(row, Ok(vec![]), Err(AppError::Internal("hero".to_owned()))) {
        Err(AppError::Internal(m)) => assert_eq!(m, "hero"),
        other => panic!("unexpected {:?}", other),
    }
    let row = project_row("[]", None, "{}");
    assert!(matches!(project_from_row(row, Ok(vec![]), Ok(None)), Err(AppError::Internal(_))));
}

#[test]
fn article_row_is_decoded() {
    let row = ArticleRow {
        slug: "how-to-validate-a-semantic-color-system".to_owned(),
        title: "t".to_owned(),
        category: "c".to_owned(),
        summary: "s".to_owned(),
        status: "draft".to_owned(),
        featured: true,
        sort_order: 3,
        published_at: None,
        reading_time_minutes: None,
        sections: "[]".to_owned(),
    };
    let a = article_from_row(row.clone(), Ok(vec![])).unwrap();
    assert_eq!(a.status, ArticleStatus::Draft);
    let mut bad = row;
    bad.status = "archived".to_owned();
    match article_from_row(bad, Err(AppError::Internal("sections".to_owned()))) {
        Err(AppError::Internal(m)) => assert_eq!(m, "unknown article status: archived"),
        other => panic!("unexpected {:?}", other),
    }
}

#[test]
fn lookups_name_what_is_missing() {
    match require_found::<Project>(None, "project", "missing") {
        Err(AppError::NotFound(m)) => assert_eq!(m, "project 'missing' not found"),
        other => panic!("unexpected {:?}", other),
    }
    assert_eq!(require_found(Some(5), "article", "x").unwrap(), 5);
}

#[test]
fn connect_targets() {
    match connect_target("memory", "", None) {
        ConnectTarget::Memory { url } => assert_eq!(url, "turso::memory:"),
        other => panic!("unexpected {:?}", other),
    }
    match connect_target("turso::memory:", "tok", None) {
        ConnectTarget::Memory { url } => assert_eq!(url, "turso::memory:"),
        other => panic!("unexpected {:?}", other),
    }
    match connect_target("libsql://db.turso.io", "tok", None) {
        ConnectTarget::Replica { local_path, remote_url, auth_token } => {
            assert_eq!(local_path, "data/voidreg.db");
            assert_eq!(remote_url, "libsql://db.turso.io");
            assert_eq!(auth_token.as_deref(), Some("tok"));
        }
        other => panic!("unexpected {:?}", other),
    }
    match connect_target("https://db.example", "", Some("/tmp/x.db".to_owned())) {
        ConnectTarget::Replica { local_path, auth_token, .. } => {
            assert_eq!(local_path, "/tmp/x.db");
            assert!(auth_token.is_none());
        }
        other => panic!("unexpected {:?}", other),
    }
    match connect_target("data/local.db", "", None) {
        ConnectTarget::Local { url } => assert_eq!(url, "turso:data/local.db"),
        other => panic!("unexpected {:?}", other),
    }
    match connect_target("turso:data/local.db", "", None) {
        ConnectTarget::Local { url } => assert_eq!(url, "turso:data/local.db"),
        other => panic!("unexpected {:?}", other),
    }
}

#[test]
fn schema_creation_outcomes() {
    assert!(schema_already_exists("table projects already exists"));
    assert!(!schema_already_exists("disk full"));
    assert!(schema_outcome(Ok(())).is_ok());
    assert!(schema_outcome(Err("table projects already exists".to_owned())).is_ok());
    match schema_outcome(Err("disk full".to_owned())) {
        Err(AppError::Internal(m)) => assert_eq!(m, "disk full"),
        other => panic!("unexpected {:?}", other),
    }
}

#[test]
fn subscribing_twice_records_once() {
    let mut recorded: Vec<String> = Vec::new();
    for _ in 0..2 {
        let already = recorded.iter().any(|e| e == "reader@example.com");
        match subscription_step(already) {
            SubscriptionStep::Record => recorded.push("reader@example.com".to_owned()),
            SubscriptionStep::AlreadySubscribed => {}
        }
    }
    assert_eq!(recorded, vec!["reader@example.com".to_owned()]);
}

#[test]
fn seed_rows() {
    assert!(needs_seed(0));
    assert!(!needs_seed(3));
    let p = SeedProject {
        slug: "minirt".to_owned(),
        title: "miniRT".to_owned(),
        category: "graphics".to_owned(),
        summary: "s".to_owned(),
        tags: vec!["c".to_owned(), "math".to_owned()],
        has_detail_page: true,
        featured: true,
        sort_order: 1,
        related_slugs: vec![],
        repo_url: None,
    };
    let row = seed_project_row(p, Ok("[]".to_owned()), Ok(None)).unwrap();
    assert_eq!(row.tags, "[\"c\",\"math\"]");
    assert_eq!(row.related_slugs, "[]");
    assert_eq!(row.sections, "[]");
    let back = project_from_row(row, Ok(vec![]), Ok(None)).unwrap();
    assert_eq!(back.tags, vec!["c".to_owned(), "math".to_owned()]);
    let a = SeedArticle {
        slug: "note".to_owned(),
        title: "Note".to_owned(),
        category: "c".to_owned(),
        summary: "s".to_owned(),
        featured: false,
        sort_order: 2,
    };
    let row = seed_article_row(a, Ok("[]".to_owned())).unwrap();
    assert_eq!(row.status, "draft");
    assert!(row.published_at.is_none());
    assert!(row.reading_time_minutes.is_none());
    assert!(seed_article_row(
        SeedArticle {
            slug: "n".to_owned(),
            title: "t".to_owned(),
            category: "c".to_owned(),
            summary: "s".to_owned(),
            featured: false,
            sort_order: 0
        },
        Err("boom".to_owned())
    )
    .is_err());
}

#[test]
fn featured_listing_is_full_listing_filtered() {
    let items = || {
        vec![
            project("webserv", 2, false),
            project("minirt", 1, true),
            project("cub3d", 2, true),
            project("push_swap", 0, true),
            project("libft", 1, false),
        ]
    };
    let full: Vec<String> = list_cards(items(), None)
        .into_iter()
        .filter(|p| p.featured)
        .map(|p| p.slug)
        .collect();
    let featured: Vec<String> = list_cards(items(), Some(true)).into_iter().map(|p| p.slug).collect();
    assert_eq!(featured, full);
    assert_eq!(featured, vec!["push_swap".to_owned(), "minirt".to_owned(), "cub3d".to_owned()]);
}

#[test]
fn listing_keeps_every_item() {
    let cards = list_cards(vec![article("b", 1, false), article("a", 1, true), article("c", 0, false)], None);
    let mut slugs: Vec<&str> = cards.iter().map(|a| a.slug.as_str()).collect();
    assert_eq!(slugs, vec!["c", "a", "b"]);
    slugs.sort();
    assert_eq!(slugs, vec!["a", "b", "c"]);
}

#[test]
fn status_name_round_trip() {
    for s in [ArticleStatus::Draft, ArticleStatus::Published] {
        assert_eq!(ArticleStatus::parse(s.as_str()), Ok(s));
    }
}

#[test]
fn card_of_card_is_card() {
    let c = project("minirt", 1, true).as_card();
    let cc = c.as_card();
    assert_eq!(cc.slug, c.slug);
    assert_eq!(cc.tags, c.tags);
    assert!(cc.sections.is_empty() && cc.hero.is_none());
}

fn seed_project(slug: &str) -> SeedProject {
    SeedProject {
        slug: slug.to_owned(),
        title: "miniRT".to_owned(),
        category: "graphics".to_owned(),
        summary: "a ray tracer".to_owned(),
        tags: vec!["c".to_owned()],
        has_detail_page: true,
        featured: true,
        sort_order: 1,
        related_slugs: vec!["webserv".to_owned()],
        repo_url: Some("https://example.com/minirt".to_owned()),
    }
}

fn seed_entries() -> (Vec<SeedProjectEntry>, Vec<SeedArticleEntry>) {
    let projects = vec![SeedProjectEntry {
        project: seed_project("minirt"),
        sections: Ok("[]".to_owned()),
        hero: Ok(None),
    }];
    let articles = vec![SeedArticleEntry {
        article: SeedArticle {
            slug: "note".to_owned(),
            title: "Note".to_owned(),
            category: "c".to_owned(),
            summary: "s".to_owned(),
            featured: true,
            sort_order: 0,
        },
        sections: Ok("[]".to_owned()),
    }];
    (projects, articles)
}

#[test]
fn seeding_a_stored_store_writes_nothing() {
    let (projects, articles) = seed_entries();
    let batch = seed_batch(1, projects, articles);
    assert!(batch.projects.is_empty());
    assert!(batch.articles.is_empty());
}

#[test]
fn seeding_an_empty_store_writes_every_entry() {
    let (projects, articles) = seed_entries();
    let batch = seed_batch(0, projects, articles);
    assert_eq!(batch.projects.len(), 1);
    assert_eq!(batch.articles.len(), 1);
    let row = batch.projects.into_iter().next().unwrap().unwrap();
    assert_eq!(row.tags, "[\"c\"]");
    let article = batch.articles.into_iter().next().unwrap().unwrap();
    assert_eq!(article.status, "draft");
}

#[test]
fn seeded_project_reads_back() {
    let seed = seed_project("minirt");
    let row = seed_project_row(seed.clone(), Ok("[]".to_owned()), Ok(None)).unwrap();
    let p = project_from_row(row, Ok(vec![]), Ok(None)).unwrap();
    assert_eq!(p.slug, seed.slug);
    assert_eq!(p.title, seed.title);
    assert_eq!(p.category, seed.category);
    assert_eq!(p.summary, seed.summary);
    assert_eq!(p.has_detail_page, seed.has_detail_page);
    assert_eq!(p.featured, seed.featured);
    assert_eq!(p.sort_order, seed.sort_order);
    assert_eq!(p.repo_url, seed.repo_url);
    assert_eq!(p.tags, seed.tags);
    assert_eq!(p.related_slugs, seed.related_slugs);
}

#[test]
fn seeded_lists_with_escapes_read_back() {
    let mut seed = seed_project("escapes");
    seed.tags = vec![
        "say \"hi\"".to_owned(),
        "back\\slash".to_owned(),
        "two\nlines".to_owned(),
        "caf\u{e9} \u{1F600}".to_owned(),
        String::new(),
    ];
    seed.related_slugs = vec![];
    let row = seed_project_row(seed.clone(), Ok("[]".to_owned()), Ok(None)).unwrap();
    assert_ne!(row.tags, "[]");
    assert_eq!(row.related_slugs, "[]");
    let p = project_from_row(row, Ok(vec![]), Ok(None)).unwrap();
    assert_eq!(p.tags, seed.tags);
    assert!(p.related_slugs.is_empty());
}

#[test]
fn lookups_name_projects_and_articles() {
    match require_project::<Project>(None, "missing") {
        Err(AppError::NotFound(m)) => assert_eq!(m, "project 'missing' not found"),
        other => panic!("unexpected {:?}", other),
    }
    match require_article::<Article>(None, "gone") {
        Err(AppError::NotFound(m)) => assert_eq!(m, "article 'gone' not found"),
        other => panic!("unexpected {:?}", other),
    }
    assert_eq!(require_project(Some(1), "x").unwrap(), 1);
}
