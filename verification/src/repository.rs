//! A repository as the listing call reports it, and the choice of the
//! repositories that a scan covers.

use vstd::prelude::*;
use vstd::string::*;
use crate::text::{date_part, truncate_to_date};

verus! {

/// The characters of an optional text.
pub open spec fn optional_text(text: Option<String>) -> Option<Seq<char>> {
    match text {
        Some(s) => Some(s@),
        None => None,
    }
}

/// What GitHub reports of one repository when repositories are listed.
#[derive(Debug)]
pub struct GithubRepo {
    name: String,
    html_url: String,
    // GitHub reports the most used language, or null when it finds none.
    language: Option<String>,
    archived: bool,
    pushed_at: String,
}

/// The mathematical value of a [`GithubRepo`].
pub struct GithubRepoView {
    pub name: Seq<char>,
    pub html_url: Seq<char>,
    pub language: Option<Seq<char>>,
    pub archived: bool,
    pub pushed_at: Seq<char>,
}

impl View for GithubRepo {
    type V = GithubRepoView;

    closed spec fn view(&self) -> GithubRepoView {
        GithubRepoView {
            name: self.name@,
            html_url: self.html_url@,
            language: optional_text(self.language),
            archived: self.archived,
            pushed_at: self.pushed_at@,
        }
    }
}

impl DeepView for GithubRepo {
    type V = GithubRepoView;

    open spec fn deep_view(&self) -> GithubRepoView {
        self@
    }
}

impl GithubRepo {
    /// A repository with the given values.
    pub fn new(
        name: String,
        html_url: String,
        language: Option<String>,
        archived: bool,
        pushed_at: String,
    ) -> (repo: GithubRepo)
        ensures
            repo@ == (GithubRepoView {
                name: name@,
                html_url: html_url@,
                language: optional_text(language),
                archived,
                pushed_at: pushed_at@,
            }),
    {
        GithubRepo { name, html_url, language, archived, pushed_at }
    }

    /// Gives the five values back, in the order in which `new` takes them.
    pub fn into_parts(self) -> (parts: (String, String, Option<String>, bool, String))
        ensures
            parts.0@ == self@.name,
            parts.1@ == self@.html_url,
            optional_text(parts.2) == self@.language,
            parts.3 == self@.archived,
            parts.4@ == self@.pushed_at,
    {
        (self.name, self.html_url, self.language, self.archived, self.pushed_at)
    }

    /// Replaces the time of the last push by its date: the text before the
    /// first `T`. Nothing else changes.
    pub fn truncate_pushed_at(&mut self)
        ensures
            final(self)@ == (GithubRepoView {
                pushed_at: date_part(old(self)@.pushed_at),
                ..old(self)@
            }),
    {
        self.pushed_at = truncate_to_date(self.pushed_at.as_str());
    }

    pub fn name(&self) -> (name: &str)
        ensures
            name@ == self@.name,
    {
        self.name.as_str()
    }

    pub fn html_url(&self) -> (html_url: &str)
        ensures
            html_url@ == self@.html_url,
    {
        self.html_url.as_str()
    }

    pub fn language(&self) -> (language: &Option<String>)
        ensures
            optional_text(*language) == self@.language,
    {
        &self.language
    }

    pub fn archived(&self) -> (archived: bool)
        ensures
            archived == self@.archived,
    {
        self.archived
    }

    pub fn pushed_at(&self) -> (pushed_at: &str)
        ensures
            pushed_at@ == self@.pushed_at,
    {
        self.pushed_at.as_str()
    }
}

/// A repository is scanned unless it is archived and archived
/// repositories were not asked for.
pub open spec fn is_selected(repo: GithubRepoView, include_archived: bool) -> bool {
    include_archived || !repo.archived
}

/// The repositories of a listing that are scanned, in the order of the
/// listing.
pub open spec fn selected(listed: Seq<GithubRepoView>, include_archived: bool) -> Seq<
    GithubRepoView,
> {
    listed.filter(|repo: GithubRepoView| is_selected(repo, include_archived))
}

/// Takes the archived repositories out of a listing, unless they were
/// asked for. The others stay, in their order.
pub fn select_repositories(listed: Vec<GithubRepo>, include_archived: bool) -> (kept: Vec<
    GithubRepo,
>)
    ensures
        kept.deep_view() == selected(listed.deep_view(), include_archived),
{
    let ghost scanned = |repo: GithubRepoView| is_selected(repo, include_archived);
    let mut kept: Vec<GithubRepo> = Vec::new();
    for repo in it: listed.into_iter()
        invariant
            it.seq() == listed@,
            scanned == |repo: GithubRepoView| is_selected(repo, include_archived),
            kept.deep_view() == listed.deep_view().take(it.index() as int).filter(scanned),
    {
        proof {
            reveal(Seq::filter);
            let before = listed.deep_view().take(it.index() as int);
            let after = listed.deep_view().take(it.index() + 1);
            assert(after.drop_last() =~= before);
        }
        if include_archived || !repo.archived() {
            kept.push(repo);
        }
    }
    assert(listed.deep_view().take(listed@.len() as int) =~= listed.deep_view());
    kept
}

/// How many repositories of a listing are archived.
pub open spec fn archived_count(listed: Seq<GithubRepoView>) -> nat {
    listed.filter(|repo: GithubRepoView| repo.archived).len()
}

/// A selection without the archived repositories holds as many
/// repositories as the listing holds that are not archived; a selection
/// with them holds the whole listing.
pub proof fn lemma_selected_len(listed: Seq<GithubRepoView>, include_archived: bool)
    ensures
        include_archived ==> selected(listed, include_archived) == listed,
        !include_archived ==> selected(listed, include_archived).len() == listed.len()
            - archived_count(listed),
    decreases listed.len(),
{
    reveal(Seq::filter);
    if listed.len() > 0 {
        lemma_selected_len(listed.drop_last(), include_archived);
    }
}

} // verus!
