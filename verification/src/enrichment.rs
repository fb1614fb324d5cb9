//! The record of one repository with the six signals that the lookups add,
//! and the step that merges the answers into it.

use vstd::prelude::*;
use crate::lookup::{
    alert_count, error_of, file_exists, file_presence, get_number_of_open_pull_requests,
    json_array_len, json_list_len, number_of_alerts, open_pull_request_count, or_default,
    value_or, widened, Lookup, LookupError, Response, STATUS_NOT_FOUND, STATUS_OK,
};
use crate::repository::{GithubRepo, GithubRepoView};
use crate::text::date_part;

verus! {

/// A repository together with what the lookups found out about it. Every
/// signal starts at its default, `false` or 0, and keeps it where its lookup
/// has no answer.
#[derive(Debug)]
pub struct CustomRepo {
    repo: GithubRepo,
    dependabot_exists: bool,
    number_of_open_pull_requests: usize,
    codeowners_exists: bool,
    dependabot_alerts: usize,
    secret_scanning_alerts: usize,
    code_scanning_alerts: usize,
}

/// The mathematical value of a [`CustomRepo`].
pub struct CustomRepoView {
    pub repo: GithubRepoView,
    pub dependabot_exists: bool,
    pub number_of_open_pull_requests: nat,
    pub codeowners_exists: bool,
    pub dependabot_alerts: nat,
    pub secret_scanning_alerts: nat,
    pub code_scanning_alerts: nat,
}

impl View for CustomRepo {
    type V = CustomRepoView;

    closed spec fn view(&self) -> CustomRepoView {
        CustomRepoView {
            repo: self.repo@,
            dependabot_exists: self.dependabot_exists,
            number_of_open_pull_requests: self.number_of_open_pull_requests as nat,
            codeowners_exists: self.codeowners_exists,
            dependabot_alerts: self.dependabot_alerts as nat,
            secret_scanning_alerts: self.secret_scanning_alerts as nat,
            code_scanning_alerts: self.code_scanning_alerts as nat,
        }
    }
}

impl DeepView for CustomRepo {
    type V = CustomRepoView;

    open spec fn deep_view(&self) -> CustomRepoView {
        self@
    }
}

/// What came back for each of the six lookups about one repository: the
/// response, or the reason why there is none.
#[derive(Debug)]
pub struct Replies {
    pub dependabot_file: Result<Response, LookupError>,
    pub codeowners_file: Result<Response, LookupError>,
    pub dependabot_alerts: Result<Response, LookupError>,
    pub secret_scanning_alerts: Result<Response, LookupError>,
    pub code_scanning_alerts: Result<Response, LookupError>,
    pub open_pull_requests: Result<Response, LookupError>,
}

/// A lookup that had no answer, and why.
#[derive(Clone, Copy, Debug, PartialEq, Eq, Structural)]
pub struct Diagnostic {
    pub lookup: Lookup,
    pub error: LookupError,
}

/// A repository before any lookup: every signal at its default.
pub open spec fn unenriched(repo: GithubRepoView) -> CustomRepoView {
    CustomRepoView {
        repo,
        dependabot_exists: false,
        number_of_open_pull_requests: 0,
        codeowners_exists: false,
        dependabot_alerts: 0,
        secret_scanning_alerts: 0,
        code_scanning_alerts: 0,
    }
}

/// The answer to a lookup for a file.
pub open spec fn file_answer(reply: Result<Response, LookupError>) -> Result<bool, LookupError> {
    match reply {
        Ok(response) => file_presence(response.status),
        Err(e) => Err(e),
    }
}

/// The answer to a lookup for a number of alerts.
pub open spec fn alerts_answer(reply: Result<Response, LookupError>) -> Result<nat, LookupError> {
    match reply {
        Ok(response) => alert_count(response.status, json_list_len(response.body@)),
        Err(e) => Err(e),
    }
}

/// The answer to the lookup for the number of open pull requests.
pub open spec fn pull_requests_answer(reply: Result<Response, LookupError>) -> Result<
    nat,
    LookupError,
> {
    match reply {
        Ok(response) => open_pull_request_count(
            response.status,
            json_array_len(response.body@),
        ),
        Err(e) => Err(e),
    }
}

/// The record after the six lookups: the push time cut down to its date,
/// and each signal set from its own reply alone.
pub open spec fn enriched(repo: GithubRepoView, replies: Replies) -> CustomRepoView {
    CustomRepoView {
        repo: GithubRepoView { pushed_at: date_part(repo.pushed_at), ..repo },
        dependabot_exists: value_or(file_answer(replies.dependabot_file), false),
        number_of_open_pull_requests: value_or(
            pull_requests_answer(replies.open_pull_requests),
            0,
        ),
        codeowners_exists: value_or(file_answer(replies.codeowners_file), false),
        dependabot_alerts: value_or(alerts_answer(replies.dependabot_alerts), 0),
        secret_scanning_alerts: value_or(alerts_answer(replies.secret_scanning_alerts), 0),
        code_scanning_alerts: value_or(alerts_answer(replies.code_scanning_alerts), 0),
    }
}

/// The diagnostic of one lookup: none where it has an answer.
pub open spec fn noted(lookup: Lookup, error: Option<LookupError>) -> Seq<Diagnostic> {
    match error {
        Some(error) => seq![Diagnostic { lookup, error }],
        None => seq![],
    }
}

/// The diagnostics of the six lookups, in the order in which the lookups
/// are settled.
pub open spec fn diagnostics(replies: Replies) -> Seq<Diagnostic> {
    let dependabot_file = error_of(file_answer(replies.dependabot_file));
    let codeowners_file = error_of(file_answer(replies.codeowners_file));
    let dependabot_alerts = error_of(alerts_answer(replies.dependabot_alerts));
    let secret_scanning_alerts = error_of(alerts_answer(replies.secret_scanning_alerts));
    let code_scanning_alerts = error_of(alerts_answer(replies.code_scanning_alerts));
    let open_pull_requests = error_of(pull_requests_answer(replies.open_pull_requests));
    noted(Lookup::DependabotFile, dependabot_file)
        + noted(Lookup::CodeownersFile, codeowners_file)
        + noted(Lookup::DependabotAlerts, dependabot_alerts)
        + noted(Lookup::SecretScanningAlerts, secret_scanning_alerts)
        + noted(Lookup::CodeScanningAlerts, code_scanning_alerts)
        + noted(Lookup::OpenPullRequests, open_pull_requests)
}

/// Answers a lookup for a file from what came back for it.
pub fn settle_file(reply: &Result<Response, LookupError>) -> (answer: Result<bool, LookupError>)
    ensures
        answer == file_answer(*reply),
{
    match reply {
        Ok(response) => file_exists(response),
        Err(e) => Err(*e),
    }
}

/// Answers a lookup for a number of alerts from what came back for it.
pub fn settle_alerts(reply: &Result<Response, LookupError>) -> (answer: Result<
    usize,
    LookupError,
>)
    ensures
        widened(answer) == alerts_answer(*reply),
{
    match reply {
        Ok(response) => number_of_alerts(response),
        Err(e) => Err(*e),
    }
}

/// Answers the lookup for the number of open pull requests from what came
/// back for it.
pub fn settle_pull_requests(reply: &Result<Response, LookupError>) -> (answer: Result<
    usize,
    LookupError,
>)
    ensures
        widened(answer) == pull_requests_answer(*reply),
{
    match reply {
        Ok(response) => get_number_of_open_pull_requests(response),
        Err(e) => Err(*e),
    }
}

fn note(diagnostics: &mut Vec<Diagnostic>, lookup: Lookup, error: Option<LookupError>)
    ensures
        final(diagnostics)@ == old(diagnostics)@ + noted(lookup, error),
{
    match error {
        Some(error) => {
            diagnostics.push(Diagnostic { lookup, error });
        },
        None => {},
    }
}

impl CustomRepo {
    /// The record of a repository that no lookup has answered yet.
    pub fn new(repo: GithubRepo) -> (custom: CustomRepo)
        ensures
            custom@ == unenriched(repo@),
    {
        CustomRepo {
            repo,
            dependabot_exists: false,
            number_of_open_pull_requests: 0,
            codeowners_exists: false,
            dependabot_alerts: 0,
            secret_scanning_alerts: 0,
            code_scanning_alerts: 0,
        }
    }

    /// A record with the given signals, in the order of the fields.
    pub fn from_parts(
        repo: GithubRepo,
        dependabot_exists: bool,
        number_of_open_pull_requests: usize,
        codeowners_exists: bool,
        dependabot_alerts: usize,
        secret_scanning_alerts: usize,
        code_scanning_alerts: usize,
    ) -> (custom: CustomRepo)
        ensures
            custom@ == (CustomRepoView {
                repo: repo@,
                dependabot_exists,
                number_of_open_pull_requests: number_of_open_pull_requests as nat,
                codeowners_exists,
                dependabot_alerts: dependabot_alerts as nat,
                secret_scanning_alerts: secret_scanning_alerts as nat,
                code_scanning_alerts: code_scanning_alerts as nat,
            }),
    {
        CustomRepo {
            repo,
            dependabot_exists,
            number_of_open_pull_requests,
            codeowners_exists,
            dependabot_alerts,
            secret_scanning_alerts,
            code_scanning_alerts,
        }
    }

    /// Gives the repository and the six signals back, in the order in which
    /// `from_parts` takes them.
    pub fn into_parts(self) -> (parts: (GithubRepo, bool, usize, bool, usize, usize, usize))
        ensures
            self@ == (CustomRepoView {
                repo: parts.0@,
                dependabot_exists: parts.1,
                number_of_open_pull_requests: parts.2 as nat,
                codeowners_exists: parts.3,
                dependabot_alerts: parts.4 as nat,
                secret_scanning_alerts: parts.5 as nat,
                code_scanning_alerts: parts.6 as nat,
            }),
    {
        (
            self.repo,
            self.dependabot_exists,
            self.number_of_open_pull_requests,
            self.codeowners_exists,
            self.dependabot_alerts,
            self.secret_scanning_alerts,
            self.code_scanning_alerts,
        )
    }

    /// Merges what came back for the six lookups into the record, and cuts
    /// the push time down to its date. A lookup without an answer leaves its
    /// signal at the default and adds a diagnostic; it never stops the others.
    pub fn enrich(&mut self, replies: &Replies) -> (found: Vec<Diagnostic>)
        ensures
            final(self)@ == enriched(old(self)@.repo, *replies),
            found@ == diagnostics(*replies),
    {
        let mut found: Vec<Diagnostic> = Vec::new();
        self.repo.truncate_pushed_at();

        let (exists, error) = or_default(settle_file(&replies.dependabot_file), false);
        self.dependabot_exists = exists;
        note(&mut found, Lookup::DependabotFile, error);

        let (exists, error) = or_default(settle_file(&replies.codeowners_file), false);
        self.codeowners_exists = exists;
        note(&mut found, Lookup::CodeownersFile, error);

        let (count, error) = or_default(settle_alerts(&replies.dependabot_alerts), 0);
        self.dependabot_alerts = count;
        note(&mut found, Lookup::DependabotAlerts, error);

        let (count, error) = or_default(settle_alerts(&replies.secret_scanning_alerts), 0);
        self.secret_scanning_alerts = count;
        note(&mut found, Lookup::SecretScanningAlerts, error);

        let (count, error) = or_default(settle_alerts(&replies.code_scanning_alerts), 0);
        self.code_scanning_alerts = count;
        note(&mut found, Lookup::CodeScanningAlerts, error);

        let (count, error) = or_default(settle_pull_requests(&replies.open_pull_requests), 0);
        self.number_of_open_pull_requests = count;
        note(&mut found, Lookup::OpenPullRequests, error);

        found
    }
}

/// The records of a batch: one for each repository, in the order of the
/// input, each made from its own repository and its own replies alone.
pub open spec fn enriched_all(fetched: Seq<(GithubRepo, Replies)>) -> Seq<CustomRepoView> {
    Seq::new(fetched.len(), |i: int| enriched(fetched[i].0@, fetched[i].1))
}

/// Enriches every repository of a batch. No reply, whatever it holds, takes
/// a repository out of the result or touches the record of another one.
pub fn enrich_all(fetched: Vec<(GithubRepo, Replies)>) -> (batch: (
    Vec<CustomRepo>,
    Vec<Vec<Diagnostic>>,
))
    ensures
        batch.0.deep_view() == enriched_all(fetched@),
        batch.1@.len() == fetched@.len(),
        forall|i: int|
            0 <= i < fetched@.len() ==> (#[trigger] batch.1@[i])@ == diagnostics(fetched@[i].1),
{
    let mut records: Vec<CustomRepo> = Vec::new();
    let mut found: Vec<Vec<Diagnostic>> = Vec::new();
    for pair in it: fetched.into_iter()
        invariant
            it.seq() == fetched@,
            records@.len() == it.index(),
            found@.len() == it.index(),
            forall|i: int|
                0 <= i < it.index() ==> (#[trigger] records@[i])@ == enriched(
                    fetched@[i].0@,
                    fetched@[i].1,
                ),
            forall|i: int|
                0 <= i < it.index() ==> (#[trigger] found@[i])@ == diagnostics(fetched@[i].1),
    {
        let (repo, replies) = pair;
        let mut record = CustomRepo::new(repo);
        let notes = record.enrich(&replies);
        records.push(record);
        found.push(notes);
    }
    (records, found)
}

impl CustomRepo {
    pub fn repo(&self) -> (repo: &GithubRepo)
        ensures
            repo@ == self@.repo,
    {
        &self.repo
    }

    pub fn dependabot_exists(&self) -> (exists: bool)
        ensures
            exists == self@.dependabot_exists,
    {
        self.dependabot_exists
    }

    pub fn number_of_open_pull_requests(&self) -> (count: usize)
        ensures
            count == self@.number_of_open_pull_requests,
    {
        self.number_of_open_pull_requests
    }

    pub fn codeowners_exists(&self) -> (exists: bool)
        ensures
            exists == self@.codeowners_exists,
    {
        self.codeowners_exists
    }

    pub fn dependabot_alerts(&self) -> (count: usize)
        ensures
            count == self@.dependabot_alerts,
    {
        self.dependabot_alerts
    }

    pub fn secret_scanning_alerts(&self) -> (count: usize)
        ensures
            count == self@.secret_scanning_alerts,
    {
        self.secret_scanning_alerts
    }

    pub fn code_scanning_alerts(&self) -> (count: usize)
        ensures
            count == self@.code_scanning_alerts,
    {
        self.code_scanning_alerts
    }
}

/// Whether a lookup was answered with status 404.
pub open spec fn is_not_found(reply: Result<Response, LookupError>) -> bool {
    reply matches Ok(response) && response.status == STATUS_NOT_FOUND
}

/// Whether two replies are the same to a lookup: the same error, or the
/// same status with the same bytes.
pub open spec fn same_reply(a: Result<Response, LookupError>, b: Result<Response, LookupError>) -> bool {
    match (a, b) {
        (Ok(x), Ok(y)) => x.status == y.status && x.body@ == y.body@,
        (Err(x), Err(y)) => x == y,
        _ => false,
    }
}

/// A signal whose lookup was answered with status 404 is at its default in
/// the record, and that lookup is no error. This holds of each of the six
/// lookups, whatever the body holds.
pub proof fn lemma_not_found_is_the_default(repo: GithubRepoView, replies: Replies)
    ensures
        is_not_found(replies.dependabot_file) ==> {
            &&& !enriched(repo, replies).dependabot_exists
            &&& error_of(file_answer(replies.dependabot_file)) is None
        },
        is_not_found(replies.codeowners_file) ==> {
            &&& !enriched(repo, replies).codeowners_exists
            &&& error_of(file_answer(replies.codeowners_file)) is None
        },
        is_not_found(replies.dependabot_alerts) ==> {
            &&& enriched(repo, replies).dependabot_alerts == 0
            &&& error_of(alerts_answer(replies.dependabot_alerts)) is None
        },
        is_not_found(replies.secret_scanning_alerts) ==> {
            &&& enriched(repo, replies).secret_scanning_alerts == 0
            &&& error_of(alerts_answer(replies.secret_scanning_alerts)) is None
        },
        is_not_found(replies.code_scanning_alerts) ==> {
            &&& enriched(repo, replies).code_scanning_alerts == 0
            &&& error_of(alerts_answer(replies.code_scanning_alerts)) is None
        },
        is_not_found(replies.open_pull_requests) ==> {
            &&& enriched(repo, replies).number_of_open_pull_requests == 0
            &&& error_of(pull_requests_answer(replies.open_pull_requests)) is None
        },
{
}

/// Whether a lookup was answered with a status that is neither 200 nor
/// 404.
pub open spec fn is_unexpected(reply: Result<Response, LookupError>) -> bool {
    reply matches Ok(response) && response.status != STATUS_OK && response.status
        != STATUS_NOT_FOUND
}

/// A signal whose lookup was answered with a status other than 200 and 404
/// is at its default in the record, whatever the body holds, and the
/// lookup's error names the status. This holds of each of the six lookups.
pub proof fn lemma_unexpected_status_is_the_default(repo: GithubRepoView, replies: Replies)
    ensures
        is_unexpected(replies.dependabot_file) ==> {
            &&& !enriched(repo, replies).dependabot_exists
            &&& error_of(file_answer(replies.dependabot_file)) == Some(
                LookupError::UnexpectedStatus(replies.dependabot_file->Ok_0.status),
            )
        },
        is_unexpected(replies.codeowners_file) ==> {
            &&& !enriched(repo, replies).codeowners_exists
            &&& error_of(file_answer(replies.codeowners_file)) == Some(
                LookupError::UnexpectedStatus(replies.codeowners_file->Ok_0.status),
            )
        },
        is_unexpected(replies.dependabot_alerts) ==> {
            &&& enriched(repo, replies).dependabot_alerts == 0
            &&& error_of(alerts_answer(replies.dependabot_alerts)) == Some(
                LookupError::UnexpectedStatus(replies.dependabot_alerts->Ok_0.status),
            )
        },
        is_unexpected(replies.secret_scanning_alerts) ==> {
            &&& enriched(repo, replies).secret_scanning_alerts == 0
            &&& error_of(alerts_answer(replies.secret_scanning_alerts)) == Some(
                LookupError::UnexpectedStatus(replies.secret_scanning_alerts->Ok_0.status),
            )
        },
        is_unexpected(replies.code_scanning_alerts) ==> {
            &&& enriched(repo, replies).code_scanning_alerts == 0
            &&& error_of(alerts_answer(replies.code_scanning_alerts)) == Some(
                LookupError::UnexpectedStatus(replies.code_scanning_alerts->Ok_0.status),
            )
        },
        is_unexpected(replies.open_pull_requests) ==> {
            &&& enriched(repo, replies).number_of_open_pull_requests == 0
            &&& error_of(pull_requests_answer(replies.open_pull_requests)) == Some(
                LookupError::UnexpectedStatus(replies.open_pull_requests->Ok_0.status),
            )
        },
{
}

/// Where no lookup is an error, there is nothing to report.
pub proof fn lemma_no_error_no_diagnostic(replies: Replies)
    requires
        error_of(file_answer(replies.dependabot_file)) is None,
        error_of(file_answer(replies.codeowners_file)) is None,
        error_of(alerts_answer(replies.dependabot_alerts)) is None,
        error_of(alerts_answer(replies.secret_scanning_alerts)) is None,
        error_of(alerts_answer(replies.code_scanning_alerts)) is None,
        error_of(pull_requests_answer(replies.open_pull_requests)) is None,
    ensures
        diagnostics(replies) == Seq::<Diagnostic>::empty(),
{
}

/// A lookup that failed altogether leaves its signal at the default.
pub proof fn lemma_failed_lookup_is_the_default(repo: GithubRepoView, replies: Replies)
    ensures
        replies.dependabot_file is Err ==> !enriched(repo, replies).dependabot_exists,
        replies.codeowners_file is Err ==> !enriched(repo, replies).codeowners_exists,
        replies.dependabot_alerts is Err ==> enriched(repo, replies).dependabot_alerts == 0,
        replies.secret_scanning_alerts is Err
            ==> enriched(repo, replies).secret_scanning_alerts == 0,
        replies.code_scanning_alerts is Err ==> enriched(repo, replies).code_scanning_alerts == 0,
        replies.open_pull_requests is Err
            ==> enriched(repo, replies).number_of_open_pull_requests == 0,
{
}

/// Each signal of the record depends on the reply to its own lookup and on
/// nothing else: two sets of replies that agree on a lookup give the same
/// signal for it, whatever the other five replies hold. The repository's
/// own values do not depend on any reply.
pub proof fn lemma_lookups_are_independent(repo: GithubRepoView, a: Replies, b: Replies)
    ensures
        same_reply(a.dependabot_file, b.dependabot_file)
            ==> enriched(repo, a).dependabot_exists == enriched(repo, b).dependabot_exists,
        same_reply(a.codeowners_file, b.codeowners_file)
            ==> enriched(repo, a).codeowners_exists == enriched(repo, b).codeowners_exists,
        same_reply(a.dependabot_alerts, b.dependabot_alerts)
            ==> enriched(repo, a).dependabot_alerts == enriched(repo, b).dependabot_alerts,
        same_reply(a.secret_scanning_alerts, b.secret_scanning_alerts)
            ==> enriched(repo, a).secret_scanning_alerts
            == enriched(repo, b).secret_scanning_alerts,
        same_reply(a.code_scanning_alerts, b.code_scanning_alerts)
            ==> enriched(repo, a).code_scanning_alerts == enriched(repo, b).code_scanning_alerts,
        same_reply(a.open_pull_requests, b.open_pull_requests)
            ==> enriched(repo, a).number_of_open_pull_requests
            == enriched(repo, b).number_of_open_pull_requests,
        enriched(repo, a).repo == enriched(repo, b).repo,
{
}

/// A batch keeps every repository: whatever the replies hold, the result
/// has one record for each repository of the input, at the same place,
/// under the same name, and made from that repository's own replies.
pub proof fn lemma_batch_keeps_every_repository(fetched: Seq<(GithubRepo, Replies)>)
    ensures
        enriched_all(fetched).len() == fetched.len(),
        forall|i: int|
            0 <= i < fetched.len() ==> {
                &&& (#[trigger] enriched_all(fetched)[i]) == enriched(fetched[i].0@, fetched[i].1)
                &&& enriched_all(fetched)[i].repo.name == fetched[i].0@.name
                &&& enriched_all(fetched)[i].repo.archived == fetched[i].0@.archived
            },
{
}

} // verus!
