//! The flat record that the report shows for a repository, and the report
//! as rows of cells.

use vstd::prelude::*;
use vstd::string::*;
use crate::enrichment::{enriched_all, CustomRepo, CustomRepoView, Replies};
use crate::repository::{archived_count, lemma_selected_len, selected, GithubRepo, GithubRepoView};
use crate::text::{decimal, decimal_text, yes_no, yes_no_text};

verus! {

/// Everything that is known of one repository, in one flat record. The
/// language is always a text: `None` where GitHub named no language.
#[derive(Debug)]
pub struct FullRepo {
    name: String,
    html_url: String,
    language: String,
    archived: bool,
    pushed_at: String,
    dependabot_exists: bool,
    codeowners_exists: bool,
    dependabot_alerts: usize,
    secret_scanning_alerts: usize,
    code_scanning_alerts: usize,
    number_of_open_pull_requests: usize,
}

/// The mathematical value of a [`FullRepo`].
pub struct FullRepoView {
    pub name: Seq<char>,
    pub html_url: Seq<char>,
    pub language: Seq<char>,
    pub archived: bool,
    pub pushed_at: Seq<char>,
    pub dependabot_exists: bool,
    pub codeowners_exists: bool,
    pub dependabot_alerts: nat,
    pub secret_scanning_alerts: nat,
    pub code_scanning_alerts: nat,
    pub number_of_open_pull_requests: nat,
}

impl View for FullRepo {
    type V = FullRepoView;

    closed spec fn view(&self) -> FullRepoView {
        FullRepoView {
            name: self.name@,
            html_url: self.html_url@,
            language: self.language@,
            archived: self.archived,
            pushed_at: self.pushed_at@,
            dependabot_exists: self.dependabot_exists,
            codeowners_exists: self.codeowners_exists,
            dependabot_alerts: self.dependabot_alerts as nat,
            secret_scanning_alerts: self.secret_scanning_alerts as nat,
            code_scanning_alerts: self.code_scanning_alerts as nat,
            number_of_open_pull_requests: self.number_of_open_pull_requests as nat,
        }
    }
}

impl DeepView for FullRepo {
    type V = FullRepoView;

    open spec fn deep_view(&self) -> FullRepoView {
        self@
    }
}

/// What the report shows where a repository has no language.
pub open spec fn no_language() -> Seq<char> {
    "None"@
}

/// The flat record of an enriched repository: field for field the same
/// values, with the language made a text.
pub open spec fn flat(custom: CustomRepoView) -> FullRepoView {
    FullRepoView {
        name: custom.repo.name,
        html_url: custom.repo.html_url,
        language: match custom.repo.language {
            Some(language) => language,
            None => no_language(),
        },
        archived: custom.repo.archived,
        pushed_at: custom.repo.pushed_at,
        dependabot_exists: custom.dependabot_exists,
        codeowners_exists: custom.codeowners_exists,
        dependabot_alerts: custom.dependabot_alerts,
        secret_scanning_alerts: custom.secret_scanning_alerts,
        code_scanning_alerts: custom.code_scanning_alerts,
        number_of_open_pull_requests: custom.number_of_open_pull_requests,
    }
}

/// The titles of the report's eleven columns.
pub open spec fn header_text() -> Seq<Seq<char>> {
    seq![
        "Name"@,
        "URL"@,
        "Language"@,
        "Archived"@,
        "Last Pushed"@,
        "Dependabot file exists"@,
        "CODEOWNERS file exists"@,
        "Dependabot Alerts"@,
        "Secret Scanning Alerts"@,
        "Code Scanning Alerts"@,
        "Open PRs"@,
    ]
}

/// The eleven cells of a repository's row, under the columns of
/// `header_text`: texts as they are, flags as `Yes` or `No`, counts in
/// decimal.
pub open spec fn cells_text(row: FullRepoView) -> Seq<Seq<char>> {
    seq![
        row.name,
        row.html_url,
        row.language,
        yes_no_text(row.archived),
        row.pushed_at,
        yes_no_text(row.dependabot_exists),
        yes_no_text(row.codeowners_exists),
        decimal_text(row.dependabot_alerts),
        decimal_text(row.secret_scanning_alerts),
        decimal_text(row.code_scanning_alerts),
        decimal_text(row.number_of_open_pull_requests),
    ]
}

/// The flat records of a batch, in the order of the batch.
pub open spec fn assembled(batch: Seq<CustomRepoView>) -> Seq<FullRepoView> {
    Seq::new(batch.len(), |i: int| flat(batch[i]))
}

/// A table for flat records: the header, then the cells of each record, in
/// the order of the records.
pub open spec fn table_text(rows: Seq<FullRepoView>) -> Seq<Seq<Seq<char>>> {
    Seq::new(
        rows.len() + 1,
        |i: int|
            if i == 0 {
                header_text()
            } else {
                cells_text(rows[i - 1])
            },
    )
}

/// The report of a batch: the table of its flat records.
pub open spec fn report_text(batch: Seq<CustomRepoView>) -> Seq<Seq<Seq<char>>> {
    table_text(assembled(batch))
}

/// Flattens an enriched repository into the record that the report shows.
pub fn assemble(custom: CustomRepo) -> (row: FullRepo)
    ensures
        row@ == flat(custom@),
{
    let (
        repo,
        dependabot_exists,
        number_of_open_pull_requests,
        codeowners_exists,
        dependabot_alerts,
        secret_scanning_alerts,
        code_scanning_alerts,
    ) = custom.into_parts();
    let (name, html_url, language, archived, pushed_at) = repo.into_parts();
    let language = match language {
        Some(language) => language,
        None => String::from_str("None"),
    };
    FullRepo {
        name,
        html_url,
        language,
        archived,
        pushed_at,
        dependabot_exists,
        codeowners_exists,
        dependabot_alerts,
        secret_scanning_alerts,
        code_scanning_alerts,
        number_of_open_pull_requests,
    }
}

/// The titles of the report's columns.
pub fn report_header() -> (header: Vec<String>)
    ensures
        header.deep_view() == header_text(),
{
    let mut header: Vec<String> = Vec::new();
    header.push(String::from_str("Name"));
    header.push(String::from_str("URL"));
    header.push(String::from_str("Language"));
    header.push(String::from_str("Archived"));
    header.push(String::from_str("Last Pushed"));
    header.push(String::from_str("Dependabot file exists"));
    header.push(String::from_str("CODEOWNERS file exists"));
    header.push(String::from_str("Dependabot Alerts"));
    header.push(String::from_str("Secret Scanning Alerts"));
    header.push(String::from_str("Code Scanning Alerts"));
    header.push(String::from_str("Open PRs"));
    header
}

impl FullRepo {
    /// A flat record with the given values, in the order of the fields.
    pub fn from_parts(
        name: String,
        html_url: String,
        language: String,
        archived: bool,
        pushed_at: String,
        dependabot_exists: bool,
        codeowners_exists: bool,
        dependabot_alerts: usize,
        secret_scanning_alerts: usize,
        code_scanning_alerts: usize,
        number_of_open_pull_requests: usize,
    ) -> (row: FullRepo)
        ensures
            row@ == (FullRepoView {
                name: name@,
                html_url: html_url@,
                language: language@,
                archived,
                pushed_at: pushed_at@,
                dependabot_exists,
                codeowners_exists,
                dependabot_alerts: dependabot_alerts as nat,
                secret_scanning_alerts: secret_scanning_alerts as nat,
                code_scanning_alerts: code_scanning_alerts as nat,
                number_of_open_pull_requests: number_of_open_pull_requests as nat,
            }),
    {
        FullRepo {
            name,
            html_url,
            language,
            archived,
            pushed_at,
            dependabot_exists,
            codeowners_exists,
            dependabot_alerts,
            secret_scanning_alerts,
            code_scanning_alerts,
            number_of_open_pull_requests,
        }
    }

    /// The cells of this repository's row.
    pub fn cells(&self) -> (cells: Vec<String>)
        ensures
            cells.deep_view() == cells_text(self@),
    {
        let mut cells: Vec<String> = Vec::new();
        cells.push(self.name.clone());
        cells.push(self.html_url.clone());
        cells.push(self.language.clone());
        cells.push(String::from_str(yes_no(self.archived)));
        cells.push(self.pushed_at.clone());
        cells.push(String::from_str(yes_no(self.dependabot_exists)));
        cells.push(String::from_str(yes_no(self.codeowners_exists)));
        cells.push(decimal(self.dependabot_alerts));
        cells.push(decimal(self.secret_scanning_alerts));
        cells.push(decimal(self.code_scanning_alerts));
        cells.push(decimal(self.number_of_open_pull_requests));
        cells
    }
}

impl FullRepo {
    pub fn name(&self) -> (name: &str)
        ensures
            name@ == self@.name,
    {
        self.name.as_str()
    }

    pub fn html_url(&self) -> (html_url: &str)
        ensures
            html_url@ == self@.html_url,
    {
        self.html_url.as_str()
    }

    pub fn language(&self) -> (language: &str)
        ensures
            language@ == self@.language,
    {
        self.language.as_str()
    }

    pub fn archived(&self) -> (archived: bool)
        ensures
            archived == self@.archived,
    {
        self.archived
    }

    pub fn pushed_at(&self) -> (pushed_at: &str)
        ensures
            pushed_at@ == self@.pushed_at,
    {
        self.pushed_at.as_str()
    }

    pub fn dependabot_exists(&self) -> (exists: bool)
        ensures
            exists == self@.dependabot_exists,
    {
        self.dependabot_exists
    }

    pub fn codeowners_exists(&self) -> (exists: bool)
        ensures
            exists == self@.codeowners_exists,
    {
        self.codeowners_exists
    }

    pub fn dependabot_alerts(&self) -> (count: usize)
        ensures
            count == self@.dependabot_alerts,
    {
        self.dependabot_alerts
    }

    pub fn secret_scanning_alerts(&self) -> (count: usize)
        ensures
            count == self@.secret_scanning_alerts,
    {
        self.secret_scanning_alerts
    }

    pub fn code_scanning_alerts(&self) -> (count: usize)
        ensures
            count == self@.code_scanning_alerts,
    {
        self.code_scanning_alerts
    }

    pub fn number_of_open_pull_requests(&self) -> (count: usize)
        ensures
            count == self@.number_of_open_pull_requests,
    {
        self.number_of_open_pull_requests
    }
}

/// Flattens every record of a batch, in the order of the batch.
pub fn assemble_all(repositories: Vec<CustomRepo>) -> (rows: Vec<FullRepo>)
    ensures
        rows.deep_view() == assembled(repositories.deep_view()),
{
    let mut rows: Vec<FullRepo> = Vec::new();
    for custom in it: repositories.into_iter()
        invariant
            it.seq() == repositories@,
            rows@.len() == it.index(),
            forall|i: int|
                0 <= i < it.index() ==> (#[trigger] rows@[i])@ == flat(repositories@[i]@),
    {
        rows.push(assemble(custom));
    }
    rows
}

/// Lays flat records out as a table: the header, then one row of cells for
/// each record.
pub fn report_table(rows: &Vec<FullRepo>) -> (table: Vec<Vec<String>>)
    ensures
        table.deep_view() == table_text(rows.deep_view()),
{
    let mut table: Vec<Vec<String>> = Vec::new();
    table.push(report_header());
    let mut i: usize = 0;
    while i < rows.len()
        invariant
            i <= rows@.len(),
            table@.len() == i + 1,
            table@[0].deep_view() == header_text(),
            forall|k: int|
                1 <= k <= i ==> (#[trigger] table@[k]).deep_view() == cells_text(rows@[k - 1]@),
        decreases rows@.len() - i,
    {
        table.push(rows[i].cells());
        i = i + 1;
    }
    table
}

/// Lays a batch of enriched repositories out as a report: the header, then
/// one row of cells for each repository.
pub fn generate_report(repositories: Vec<CustomRepo>) -> (table: Vec<Vec<String>>)
    ensures
        table.deep_view() == report_text(repositories.deep_view()),
{
    let rows = assemble_all(repositories);
    report_table(&rows)
}

/// The report has one row for each repository that was selected for the
/// scan, whatever the lookups brought: as many rows as the listing has
/// repositories, less the archived ones where those are left out. The rows
/// stand in the order of the listing, each under its repository's name.
pub proof fn lemma_one_row_per_selected_repository(
    listed: Seq<GithubRepoView>,
    include_archived: bool,
    fetched: Seq<(GithubRepo, Replies)>,
)
    requires
        fetched.len() == selected(listed, include_archived).len(),
        forall|i: int|
            0 <= i < fetched.len() ==> (#[trigger] fetched[i]).0@ == selected(
                listed,
                include_archived,
            )[i],
    ensures
        report_text(enriched_all(fetched)).len() == 1 + assembled(enriched_all(fetched)).len(),
        include_archived ==> assembled(enriched_all(fetched)).len() == listed.len(),
        !include_archived ==> assembled(enriched_all(fetched)).len() == listed.len()
            - archived_count(listed),
        forall|i: int|
            0 <= i < fetched.len() ==> (#[trigger] assembled(enriched_all(fetched))[i]).name
                == selected(listed, include_archived)[i].name,
{
    lemma_selected_len(listed, include_archived);
}

} // verus!
