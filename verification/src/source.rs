//! The two sources of a repository listing, and the first request of each.
//!
//! The service lists the repositories of a user and those of an
//! organisation through different calls, so the two part ways here, before
//! anything is sent. What comes back is a page in both cases, and from the
//! first page on a listing is aggregated without regard to its source.

use vstd::prelude::*;
use vstd::string::*;

verus! {

/// The largest page that the service hands out.
pub const PAGE_SIZE: u8 = 100;

/// What a listing is sorted by.
#[derive(Clone, Copy, Debug, PartialEq, Eq, Structural)]
pub enum Sort {
    Created,
    Updated,
    Pushed,
    FullName,
}

/// The direction of the sort.
#[derive(Clone, Copy, Debug, PartialEq, Eq, Structural)]
pub enum Direction {
    Ascending,
    Descending,
}

/// Which repositories of an organisation are listed.
#[derive(Clone, Copy, Debug, PartialEq, Eq, Structural)]
pub enum RepoType {
    All,
    Forks,
    Internal,
    Member,
    Private,
    Public,
    Sources,
}

/// The query of a request for the repositories of a user. A parameter that
/// is absent is left out of the query.
#[derive(Clone, Copy, Debug, PartialEq, Eq)]
pub struct ListUserReposParameters {
    pub sort: Option<Sort>,
    pub direction: Option<Direction>,
    pub per_page: Option<u8>,
}

/// The first request of a listing.
#[derive(Debug, PartialEq, Eq)]
pub enum ListingRequest {
    /// A plain request for `route`, with `parameters` as its query.
    UserRepos { route: String, parameters: ListUserReposParameters },
    /// The listing call that the service has for the organisation `org`.
    OrgRepos { org: String, repo_type: RepoType, sort: Sort, direction: Direction, per_page: u8 },
}

/// What a [`ListingRequest`] holds, as mathematical values.
pub enum RequestView {
    UserRepos { route: Seq<char>, parameters: ListUserReposParameters },
    OrgRepos {
        org: Seq<char>,
        repo_type: RepoType,
        sort: Sort,
        direction: Direction,
        per_page: u8,
    },
}

impl View for ListingRequest {
    type V = RequestView;

    open spec fn view(&self) -> RequestView {
        match self {
            ListingRequest::UserRepos { route, parameters } => RequestView::UserRepos {
                route: route@,
                parameters: *parameters,
            },
            ListingRequest::OrgRepos {
                org,
                repo_type,
                sort,
                direction,
                per_page,
            } => RequestView::OrgRepos {
                org: org@,
                repo_type: *repo_type,
                sort: *sort,
                direction: *direction,
                per_page: *per_page,
            },
        }
    }
}

/// The route under which the service lists the repositories of the user
/// `name`.
pub open spec fn user_route(name: Seq<char>) -> Seq<char> {
    "users/"@ + name + "/repos"@
}

/// The first request for the repositories of the user `name`: sorted by
/// full name, ascending, in pages of the largest size.
pub open spec fn user_listing(name: Seq<char>) -> RequestView {
    RequestView::UserRepos {
        route: user_route(name),
        parameters: ListUserReposParameters {
            sort: Some(Sort::FullName),
            direction: Some(Direction::Ascending),
            per_page: Some(PAGE_SIZE),
        },
    }
}

/// The first request for the repositories of the organisation `name`: of
/// every type, sorted by full name, ascending, in pages of the largest size.
pub open spec fn org_listing(name: Seq<char>) -> RequestView {
    RequestView::OrgRepos {
        org: name,
        repo_type: RepoType::All,
        sort: Sort::FullName,
        direction: Direction::Ascending,
        per_page: PAGE_SIZE,
    }
}

/// The first request for the repositories of the user `name`.
pub fn list_user_repos(name: &str) -> (request: ListingRequest)
    ensures
        request@ == user_listing(name@),
{
    let mut route = String::from_str("users/");
    route.append(name);
    route.append("/repos");
    ListingRequest::UserRepos {
        route,
        parameters: ListUserReposParameters {
            sort: Some(Sort::FullName),
            direction: Some(Direction::Ascending),
            per_page: Some(PAGE_SIZE),
        },
    }
}

/// The first request for the repositories of the organisation `name`.
pub fn list_org_repos(name: &str) -> (request: ListingRequest)
    ensures
        request@ == org_listing(name@),
{
    ListingRequest::OrgRepos {
        org: String::from_str(name),
        repo_type: RepoType::All,
        sort: Sort::FullName,
        direction: Direction::Ascending,
        per_page: PAGE_SIZE,
    }
}

/// Whose repositories a listing names.
#[derive(Debug, PartialEq, Eq)]
pub enum RepositorySource {
    User(String),
    Org(String),
}

/// What a [`RepositorySource`] holds, as mathematical values.
pub enum SourceView {
    User(Seq<char>),
    Org(Seq<char>),
}

impl View for RepositorySource {
    type V = SourceView;

    open spec fn view(&self) -> SourceView {
        match self {
            RepositorySource::User(name) => SourceView::User(name@),
            RepositorySource::Org(name) => SourceView::Org(name@),
        }
    }
}

impl DeepView for RepositorySource {
    type V = SourceView;

    open spec fn deep_view(&self) -> SourceView {
        self@
    }
}

impl SourceView {
    /// The name of the user or organisation.
    pub open spec fn owner(self) -> Seq<char> {
        match self {
            SourceView::User(name) => name,
            SourceView::Org(name) => name,
        }
    }

    /// The first request of the listing of this source.
    pub open spec fn request(self) -> RequestView {
        match self {
            SourceView::User(name) => user_listing(name),
            SourceView::Org(name) => org_listing(name),
        }
    }
}

impl RepositorySource {
    /// The name of the user or organisation.
    pub fn owner(&self) -> (owner: &String)
        ensures
            owner@ == self@.owner(),
    {
        match self {
            RepositorySource::User(name) => name,
            RepositorySource::Org(name) => name,
        }
    }

    /// The first request of the listing of this source.
    pub fn request(&self) -> (request: ListingRequest)
        ensures
            request@ == self@.request(),
    {
        match self {
            RepositorySource::User(name) => list_user_repos(name.as_str()),
            RepositorySource::Org(name) => list_org_repos(name.as_str()),
        }
    }
}

} // verus!
