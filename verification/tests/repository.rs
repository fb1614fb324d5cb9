use conspectus::repository::{select_repositories, GithubRepo};

fn repo(name: &str, archived: bool) -> GithubRepo {
    GithubRepo::new(
        name.to_string(),
        format!("https://github.com/alice/{}", name),
        None,
        archived,
        "2024-01-02T10:00:00Z".to_string(),
    )
}

fn names(repos: &[GithubRepo]) -> Vec<String> {
    repos.iter().map(|r| r.name().to_string()).collect()
}

#[test]
fn new_keeps_every_value() {
    let repo = GithubRepo::new(
        "demo".to_string(),
        "https://github.com/alice/demo".to_string(),
        Some("Rust".to_string()),
        true,
        "2024-01-02T10:00:00Z".to_string(),
    );
    assert_eq!(repo.name(), "demo");
    assert_eq!(repo.html_url(), "https://github.com/alice/demo");
    assert_eq!(repo.language(), &Some("Rust".to_string()));
    assert!(repo.archived());
    assert_eq!(repo.pushed_at(), "2024-01-02T10:00:00Z");
    let (name, html_url, language, archived, pushed_at) = repo.into_parts();
    assert_eq!(name, "demo");
    assert_eq!(html_url, "https://github.com/alice/demo");
    assert_eq!(language, Some("Rust".to_string()));
    assert!(archived);
    assert_eq!(pushed_at, "2024-01-02T10:00:00Z");
}

#[test]
fn truncate_pushed_at_changes_the_push_time_only() {
    let mut repo = repo("demo", true);
    repo.truncate_pushed_at();
    assert_eq!(repo.pushed_at(), "2024-01-02");
    assert_eq!(repo.name(), "demo");
    assert_eq!(repo.html_url(), "https://github.com/alice/demo");
    assert_eq!(repo.language(), &None);
    assert!(repo.archived());
    repo.truncate_pushed_at();
    assert_eq!(repo.pushed_at(), "2024-01-02");
}

#[test]
fn select_repositories_leaves_the_archived_out() {
    let listed = vec![
        repo("a", false),
        repo("b", true),
        repo("c", false),
        repo("d", true),
        repo("e", true),
    ];
    let kept = select_repositories(listed, false);
    assert_eq!(names(&kept), vec!["a".to_string(), "c".to_string()]);
    assert!(kept.iter().all(|r| !r.archived()));
}

#[test]
fn select_repositories_keeps_the_archived_when_asked() {
    let listed = vec![repo("a", false), repo("b", true), repo("c", false)];
    let kept = select_repositories(listed, true);
    assert_eq!(names(&kept), vec!["a".to_string(), "b".to_string(), "c".to_string()]);
    assert!(kept[1].archived());
}

#[test]
fn select_repositories_of_an_archived_repository_alone_is_empty() {
    let kept = select_repositories(vec![repo("demo", true)], false);
    assert!(kept.is_empty());
}

#[test]
fn select_repositories_of_nothing() {
    assert!(select_repositories(Vec::new(), false).is_empty());
    assert!(select_repositories(Vec::new(), true).is_empty());
}

#[test]
fn select_repositories_count_is_listing_less_archived() {
    let listed: Vec<GithubRepo> =
        (0..10).map(|i| repo(&format!("r{}", i), i % 3 == 0)).collect();
    let archived = listed.iter().filter(|r| r.archived()).count();
    let total = listed.len();
    let kept = select_repositories(listed, false);
    assert_eq!(kept.len(), total - archived);
    assert_eq!(kept.len(), 6);
}
