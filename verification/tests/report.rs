use conspectus::enrichment::{enrich_all, CustomRepo, Replies};
use conspectus::lookup::{LookupError, Response};
use conspectus::report::{
    assemble, assemble_all, generate_report, report_header, report_table, FullRepo,
};
use conspectus::repository::{select_repositories, GithubRepo};

fn demo(archived: bool) -> GithubRepo {
    GithubRepo::new(
        "demo".to_string(),
        "https://github.com/alice/demo".to_string(),
        None,
        archived,
        "2024-01-02T10:00:00Z".to_string(),
    )
}

fn not_found() -> Result<Response, LookupError> {
    Ok(Response { status: 404, body: b"{\"message\": \"Not Found\"}".to_vec() })
}

fn not_found_everywhere() -> Replies {
    Replies {
        dependabot_file: not_found(),
        codeowners_file: not_found(),
        dependabot_alerts: not_found(),
        secret_scanning_alerts: not_found(),
        code_scanning_alerts: not_found(),
        open_pull_requests: not_found(),
    }
}

fn titles() -> Vec<String> {
    [
        "Name",
        "URL",
        "Language",
        "Archived",
        "Last Pushed",
        "Dependabot file exists",
        "CODEOWNERS file exists",
        "Dependabot Alerts",
        "Secret Scanning Alerts",
        "Code Scanning Alerts",
        "Open PRs",
    ]
    .iter()
    .map(|t| t.to_string())
    .collect()
}

#[test]
fn header_has_the_eleven_titles() {
    assert_eq!(report_header(), titles());
}

#[test]
fn assemble_copies_every_field() {
    let repo = GithubRepo::new(
        "demo".to_string(),
        "https://github.com/alice/demo".to_string(),
        Some("Rust".to_string()),
        true,
        "2024-01-02".to_string(),
    );
    let row = assemble(CustomRepo::from_parts(repo, true, 1, false, 2, 3, 4));
    assert_eq!(row.name(), "demo");
    assert_eq!(row.html_url(), "https://github.com/alice/demo");
    assert_eq!(row.language(), "Rust");
    assert!(row.archived());
    assert_eq!(row.pushed_at(), "2024-01-02");
    assert!(row.dependabot_exists());
    assert!(!row.codeowners_exists());
    assert_eq!(row.dependabot_alerts(), 2);
    assert_eq!(row.secret_scanning_alerts(), 3);
    assert_eq!(row.code_scanning_alerts(), 4);
    assert_eq!(row.number_of_open_pull_requests(), 1);
}

#[test]
fn assemble_names_a_missing_language() {
    let row = assemble(CustomRepo::new(demo(false)));
    assert_eq!(row.language(), "None");
}

#[test]
fn assemble_keeps_an_empty_language() {
    let repo = GithubRepo::new(
        "demo".to_string(),
        "u".to_string(),
        Some(String::new()),
        false,
        "2024-01-02".to_string(),
    );
    assert_eq!(assemble(CustomRepo::new(repo)).language(), "");
}

#[test]
fn cells_of_a_row() {
    let row = FullRepo::from_parts(
        "demo".to_string(),
        "https://github.com/alice/demo".to_string(),
        "Rust".to_string(),
        true,
        "2024-01-02".to_string(),
        false,
        true,
        12,
        0,
        70000,
        3,
    );
    assert_eq!(
        row.cells(),
        vec![
            "demo",
            "https://github.com/alice/demo",
            "Rust",
            "Yes",
            "2024-01-02",
            "No",
            "Yes",
            "12",
            "0",
            "70000",
            "3"
        ]
    );
}

#[test]
fn scan_of_one_repository_with_not_found_everywhere() {
    let selected = select_repositories(vec![demo(false)], false);
    assert_eq!(selected.len(), 1);
    let fetched: Vec<(GithubRepo, Replies)> =
        selected.into_iter().map(|repo| (repo, not_found_everywhere())).collect();
    let (records, found) = enrich_all(fetched);
    assert_eq!(found.len(), 1);
    assert!(found[0].is_empty());

    let rows = assemble_all(records);
    assert_eq!(rows.len(), 1);
    let row = &rows[0];
    assert_eq!(row.name(), "demo");
    assert_eq!(row.language(), "None");
    assert!(!row.archived());
    assert_eq!(row.pushed_at(), "2024-01-02");
    assert!(!row.dependabot_exists());
    assert!(!row.codeowners_exists());
    assert_eq!(row.dependabot_alerts(), 0);
    assert_eq!(row.secret_scanning_alerts(), 0);
    assert_eq!(row.code_scanning_alerts(), 0);
    assert_eq!(row.number_of_open_pull_requests(), 0);

    let table = report_table(&rows);
    assert_eq!(table.len(), 2);
    assert_eq!(table[0], titles());
    assert_eq!(
        table[1],
        vec![
            "demo",
            "https://github.com/alice/demo",
            "None",
            "No",
            "2024-01-02",
            "No",
            "No",
            "0",
            "0",
            "0",
            "0"
        ]
    );
}

#[test]
fn scan_of_one_archived_repository_reports_nothing() {
    let selected = select_repositories(vec![demo(true)], false);
    assert!(selected.is_empty());
    let fetched: Vec<(GithubRepo, Replies)> =
        selected.into_iter().map(|repo| (repo, not_found_everywhere())).collect();
    let (records, found) = enrich_all(fetched);
    assert!(records.is_empty());
    assert!(found.is_empty());
    let table = generate_report(records);
    assert_eq!(table, vec![titles()]);
}

#[test]
fn scan_with_archived_repositories_included() {
    let selected = select_repositories(vec![demo(true)], true);
    let fetched: Vec<(GithubRepo, Replies)> =
        selected.into_iter().map(|repo| (repo, not_found_everywhere())).collect();
    let (records, _) = enrich_all(fetched);
    let table = generate_report(records);
    assert_eq!(table.len(), 2);
    assert_eq!(table[1][0], "demo");
    assert_eq!(table[1][3], "Yes");
}

#[test]
fn report_has_one_row_for_each_selected_repository() {
    let listed: Vec<GithubRepo> = (0..7)
        .map(|i| {
            GithubRepo::new(
                format!("r{}", i),
                format!("https://github.com/alice/r{}", i),
                None,
                i == 2 || i == 5,
                "2024-01-02T10:00:00Z".to_string(),
            )
        })
        .collect();
    let selected = select_repositories(listed, false);
    let fetched: Vec<(GithubRepo, Replies)> = selected
        .into_iter()
        .enumerate()
        .map(|(i, repo)| {
            let mut replies = not_found_everywhere();
            if i % 2 == 0 {
                replies.dependabot_file = Err(LookupError::Transport);
                replies.secret_scanning_alerts = Err(LookupError::Transport);
            }
            (repo, replies)
        })
        .collect();
    let (records, _) = enrich_all(fetched);
    let table = generate_report(records);
    assert_eq!(table.len(), 1 + 7 - 2);
    let names: Vec<&str> = table[1..].iter().map(|row| row[0].as_str()).collect();
    assert_eq!(names, vec!["r0", "r1", "r3", "r4", "r6"]);
    for row in &table {
        assert_eq!(row.len(), 11);
    }
}

#[test]
fn generate_report_of_nothing_is_the_header() {
    assert_eq!(generate_report(Vec::new()), vec![titles()]);
}

#[test]
fn generate_report_is_the_table_of_the_flat_records() {
    let make = || {
        vec![
            CustomRepo::from_parts(demo(false), true, 5, true, 1, 2, 3),
            CustomRepo::new(demo(true)),
        ]
    };
    let table = generate_report(make());
    assert_eq!(table, report_table(&assemble_all(make())));
    assert_eq!(
        table[1],
        vec![
            "demo",
            "https://github.com/alice/demo",
            "None",
            "No",
            "2024-01-02T10:00:00Z",
            "Yes",
            "Yes",
            "1",
            "2",
            "3",
            "5"
        ]
    );
    assert_eq!(table[2][3], "Yes");
}
