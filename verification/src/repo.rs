//! The values that a run works on: repository entries, listing pages and the
//! configuration of the run.

use vstd::prelude::*;

verus! {

/// One repository as a listing page names it.
///
/// Both fields are required for mirroring; an entry that lacks one is kept as
/// it came, and refused when its turn comes.
#[derive(Debug, PartialEq, Eq)]
pub struct RepositoryDescriptor {
    /// The unique `owner/name` identifier.
    pub full_name: Option<String>,
    /// Where the repository can be cloned from.
    pub clone_url: Option<String>,
}

/// What a [`RepositoryDescriptor`] holds, as mathematical values.
pub struct RepositoryView {
    pub full_name: Option<Seq<char>>,
    pub clone_url: Option<Seq<char>>,
}

impl RepositoryView {
    /// Whether the entry has both fields that mirroring needs.
    pub open spec fn complete(self) -> bool {
        self.full_name is Some && self.clone_url is Some
    }
}

impl View for RepositoryDescriptor {
    type V = RepositoryView;

    open spec fn view(&self) -> RepositoryView {
        RepositoryView {
            full_name: self.full_name.deep_view(),
            clone_url: self.clone_url.deep_view(),
        }
    }
}

impl DeepView for RepositoryDescriptor {
    type V = RepositoryView;

    open spec fn deep_view(&self) -> RepositoryView {
        self@
    }
}

impl Clone for RepositoryDescriptor {
    fn clone(&self) -> (copy: Self)
        ensures
            copy@ == self@,
    {
        RepositoryDescriptor {
            full_name: match &self.full_name {
                Some(full_name) => Some(full_name.clone()),
                None => None,
            },
            clone_url: match &self.clone_url {
                Some(clone_url) => Some(clone_url.clone()),
                None => None,
            },
        }
    }
}

/// One chunk of a listing, with the link to the chunk that follows it.
#[derive(Debug, PartialEq, Eq)]
pub struct ListingPage {
    /// The entries of this page, in the order the service gave them.
    pub items: Vec<RepositoryDescriptor>,
    /// The link to the following page; absent on the last page.
    pub next: Option<String>,
}

/// What a [`ListingPage`] holds, as mathematical values.
pub struct PageView {
    pub items: Seq<RepositoryView>,
    pub next: Option<Seq<char>>,
}

impl View for ListingPage {
    type V = PageView;

    open spec fn view(&self) -> PageView {
        PageView { items: self.items.deep_view(), next: self.next.deep_view() }
    }
}

impl DeepView for ListingPage {
    type V = PageView;

    open spec fn deep_view(&self) -> PageView {
        self@
    }
}

/// What one run is asked to do. It does not change while the run lasts.
#[derive(Debug, PartialEq, Eq)]
pub struct RunConfig {
    /// The users whose repositories are mirrored, in the order given.
    pub users: Vec<String>,
    /// The organisations whose repositories are mirrored, in the order given.
    pub orgs: Vec<String>,
    /// The directory below which the mirrors live.
    pub destination_root: String,
    /// Whether large-file objects are fetched for each mirror.
    pub fetch_lfs: bool,
}

/// What a [`RunConfig`] holds, as mathematical values.
pub struct ConfigView {
    pub users: Seq<Seq<char>>,
    pub orgs: Seq<Seq<char>>,
    pub destination_root: Seq<char>,
    pub fetch_lfs: bool,
}

impl View for RunConfig {
    type V = ConfigView;

    open spec fn view(&self) -> ConfigView {
        ConfigView {
            users: self.users.deep_view(),
            orgs: self.orgs.deep_view(),
            destination_root: self.destination_root@,
            fetch_lfs: self.fetch_lfs,
        }
    }
}

} // verus!
