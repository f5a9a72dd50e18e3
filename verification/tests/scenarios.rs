use git_mirror::command::GitCommand;
use git_mirror::error::{ErrorKind, SyncError};
use git_mirror::repo::{ListingPage, RepositoryDescriptor, RunConfig};
use git_mirror::run::{MirrorRun, RunAction, RunEvent};
use git_mirror::source::{list_org_repos, list_user_repos, ListingRequest};
use std::collections::{BTreeSet, HashMap};

fn repo(full_name: &str) -> RepositoryDescriptor {
    RepositoryDescriptor {
        full_name: Some(full_name.to_string()),
        clone_url: Some(format!("https://example.org/{}.git", full_name)),
    }
}

fn page(names: &[&str], next: Option<&str>) -> ListingPage {
    ListingPage {
        items: names.iter().map(|name| repo(name)).collect(),
        next: next.map(|link| link.to_string()),
    }
}

fn config(users: &[&str], orgs: &[&str], fetch_lfs: bool) -> RunConfig {
    RunConfig {
        users: users.iter().map(|name| name.to_string()).collect(),
        orgs: orgs.iter().map(|name| name.to_string()).collect(),
        destination_root: "dest".to_string(),
        fetch_lfs,
    }
}

fn clone_mirror(full_name: &str) -> RunAction {
    RunAction::Execute {
        command: GitCommand::CloneMirror {
            url: format!("https://example.org/{}.git", full_name),
            target: format!("dest/{}", full_name),
        },
    }
}

fn update(full_name: &str) -> RunAction {
    RunAction::Execute {
        command: GitCommand::RemoteUpdate { target: format!("dest/{}", full_name) },
    }
}

fn lfs(full_name: &str) -> RunAction {
    RunAction::Execute {
        command: GitCommand::LfsFetchAll { target: format!("dest/{}", full_name) },
    }
}

fn probe(full_name: &str) -> RunAction {
    RunAction::Probe { path: format!("dest/{}", full_name) }
}

fn create_dirs(path: &str) -> RunAction {
    RunAction::CreateDirs { path: path.to_string() }
}

fn list_user(name: &str) -> RunAction {
    RunAction::List { request: list_user_repos(name) }
}

fn list_org(name: &str) -> RunAction {
    RunAction::List { request: list_org_repos(name) }
}

fn follow_link(link: &str) -> RunAction {
    RunAction::Follow { link: link.to_string() }
}

/// A service and a filesystem that exist in memory only.
struct World {
    /// The first page of each listing, by route or organisation; a listing
    /// that is absent fails.
    listings: HashMap<String, ListingPage>,
    /// The page behind each link; a link that is absent fails.
    pages: HashMap<String, ListingPage>,
    /// The paths at which something exists.
    existing: BTreeSet<String>,
    /// Every action that was performed, in order.
    performed: Vec<RunAction>,
}

impl World {
    fn new() -> World {
        World {
            listings: HashMap::new(),
            pages: HashMap::new(),
            existing: BTreeSet::new(),
            performed: Vec::new(),
        }
    }

    fn user(mut self, name: &str, first: ListingPage) -> World {
        self.listings.insert(format!("users/{}/repos", name), first);
        self
    }

    fn org(mut self, name: &str, first: ListingPage) -> World {
        self.listings.insert(format!("org:{}", name), first);
        self
    }

    fn link(mut self, link: &str, page: ListingPage) -> World {
        self.pages.insert(link.to_string(), page);
        self
    }

    fn existing(mut self, path: &str) -> World {
        self.existing.insert(path.to_string());
        self
    }

    fn perform(&mut self, action: &RunAction) -> RunEvent {
        match action {
            RunAction::List { request } => {
                let key = match request {
                    ListingRequest::UserRepos { route, .. } => route.clone(),
                    ListingRequest::OrgRepos { org, .. } => format!("org:{}", org),
                };
                match self.listings.remove(&key) {
                    Some(page) => RunEvent::Page(page),
                    None => RunEvent::Failed("transport error".to_string()),
                }
            }
            RunAction::Follow { link } => match self.pages.remove(link) {
                Some(page) => RunEvent::Page(page),
                None => RunEvent::Failed("transport error".to_string()),
            },
            RunAction::Probe { path } => RunEvent::Exists(self.existing.contains(path)),
            RunAction::CreateDirs { path } => {
                self.existing.insert(path.clone());
                RunEvent::Succeeded
            }
            RunAction::Execute { command } => {
                if let GitCommand::CloneMirror { target, .. } = command {
                    self.existing.insert(target.clone());
                }
                RunEvent::Succeeded
            }
            RunAction::Finish | RunAction::Abort { .. } => unreachable!(),
        }
    }

    /// Drives a run to its end and hands back the action it ended with.
    fn run(&mut self, config: RunConfig) -> RunAction {
        let mut run = MirrorRun::start(config);
        loop {
            let action = run.action();
            if run.is_terminal() {
                return action;
            }
            let event = self.perform(&action);
            self.performed.push(action);
            run = run.advance(event);
        }
    }
}

#[test]
fn scenario_two_users_get_two_fresh_mirrors() {
    let mut world = World::new()
        .user("user1", page(&["user1/repoA"], None))
        .user("user2", page(&["user2/repoB"], None));
    let end = world.run(config(&["user1", "user2"], &[], false));
    assert_eq!(end, RunAction::Finish);
    assert_eq!(
        world.performed,
        vec![
            list_user("user1"),
            probe("user1/repoA"),
            create_dirs("dest/user1"),
            clone_mirror("user1/repoA"),
            list_user("user2"),
            probe("user2/repoB"),
            create_dirs("dest/user2"),
            clone_mirror("user2/repoB"),
        ]
    );
    assert!(world.existing.contains("dest/user1/repoA"));
    assert!(world.existing.contains("dest/user2/repoB"));
}

#[test]
fn scenario_existing_organisation_mirror_is_updated() {
    let mut world =
        World::new().org("acme", page(&["acme/tool"], None)).existing("dest/acme/tool");
    let end = world.run(config(&[], &["acme"], false));
    assert_eq!(end, RunAction::Finish);
    assert_eq!(world.performed, vec![list_org("acme"), probe("acme/tool"), update("acme/tool")]);
}

#[test]
fn scenario_lfs_fetch_is_issued_right_after_a_fresh_clone() {
    let mut world = World::new().user("alice", page(&["alice/big", "alice/small"], None));
    let end = world.run(config(&["alice"], &[], true));
    assert_eq!(end, RunAction::Finish);
    assert_eq!(
        world.performed,
        vec![
            list_user("alice"),
            probe("alice/big"),
            create_dirs("dest/alice"),
            clone_mirror("alice/big"),
            lfs("alice/big"),
            probe("alice/small"),
            create_dirs("dest/alice"),
            clone_mirror("alice/small"),
            lfs("alice/small"),
        ]
    );
}

#[test]
fn scenario_listing_of_two_pages_is_read_to_its_end_first() {
    let mut world = World::new()
        .user("alice", page(&["alice/a", "alice/b"], Some("https://api/next?page=2")))
        .link("https://api/next?page=2", page(&["alice/c"], None))
        .existing("dest/alice/a")
        .existing("dest/alice/b")
        .existing("dest/alice/c");
    let end = world.run(config(&["alice"], &[], false));
    assert_eq!(end, RunAction::Finish);
    assert_eq!(
        world.performed,
        vec![
            list_user("alice"),
            follow_link("https://api/next?page=2"),
            probe("alice/a"),
            update("alice/a"),
            probe("alice/b"),
            update("alice/b"),
            probe("alice/c"),
            update("alice/c"),
        ]
    );
}

#[test]
fn scenario_failed_organisation_listing_ends_the_run_after_the_users() {
    let mut world = World::new()
        .user("user1", page(&["user1/repoA"], None))
        .user("user2", page(&["user2/repoB"], None));
    let end = world.run(config(&["user1", "user2"], &["acme", "other"], false));
    let error =
        SyncError::Listing { owner: "acme".to_string(), detail: "transport error".to_string() };
    assert_eq!(error.kind(), ErrorKind::Api);
    assert_eq!(end, RunAction::Abort { error });
    assert_eq!(
        world.performed,
        vec![
            list_user("user1"),
            probe("user1/repoA"),
            create_dirs("dest/user1"),
            clone_mirror("user1/repoA"),
            list_user("user2"),
            probe("user2/repoB"),
            create_dirs("dest/user2"),
            clone_mirror("user2/repoB"),
            list_org("acme"),
        ]
    );
    assert!(world.existing.contains("dest/user1/repoA"));
    assert!(world.existing.contains("dest/user2/repoB"));
    assert!(!world.existing.iter().any(|path| path.starts_with("dest/acme")));
}

#[test]
fn second_run_only_updates_and_leaves_the_filesystem_as_it_is() {
    let listing = || {
        World::new()
            .user("alice", page(&["alice/a"], Some("page-2")))
            .link("page-2", page(&["alice/b"], None))
            .org("acme", page(&["acme/tool", "alice/a"], None))
    };
    let mut first = listing();
    assert_eq!(first.run(config(&["alice"], &["acme"], true)), RunAction::Finish);
    assert_eq!(
        first.performed.iter().filter(|action| **action == clone_mirror("alice/a")).count(),
        1
    );
    let after_first = first.existing.clone();

    let mut second = listing();
    second.existing = after_first.clone();
    assert_eq!(second.run(config(&["alice"], &["acme"], true)), RunAction::Finish);
    assert_eq!(second.existing, after_first);
    assert_eq!(
        second.performed,
        vec![
            list_user("alice"),
            follow_link("page-2"),
            probe("alice/a"),
            update("alice/a"),
            lfs("alice/a"),
            probe("alice/b"),
            update("alice/b"),
            lfs("alice/b"),
            list_org("acme"),
            probe("acme/tool"),
            update("acme/tool"),
            lfs("acme/tool"),
            probe("alice/a"),
            update("alice/a"),
            lfs("alice/a"),
        ]
    );
}

#[test]
fn missing_clone_url_aborts_the_run_before_later_repositories_and_sources() {
    let broken = ListingPage {
        items: vec![
            repo("alice/a"),
            RepositoryDescriptor { full_name: Some("alice/b".to_string()), clone_url: None },
            repo("alice/c"),
        ],
        next: None,
    };
    let mut world = World::new().user("alice", broken).org("acme", page(&["acme/tool"], None));
    let end = world.run(config(&["alice"], &["acme"], false));
    assert_eq!(
        end,
        RunAction::Abort { error: SyncError::MissingCloneUrl { full_name: "alice/b".to_string() } }
    );
    assert_eq!(
        world.performed,
        vec![
            list_user("alice"),
            probe("alice/a"),
            create_dirs("dest/alice"),
            clone_mirror("alice/a"),
        ]
    );
    assert!(!world.existing.contains("dest/alice/c"));
}

#[test]
fn failed_next_page_ends_the_run_before_any_repository_of_that_source() {
    let mut world = World::new().user("alice", page(&["alice/a"], Some("gone")));
    let end = world.run(config(&["alice"], &[], false));
    assert_eq!(
        end,
        RunAction::Abort {
            error: SyncError::NextPage {
                link: "gone".to_string(),
                detail: "transport error".to_string()
            }
        }
    );
    assert_eq!(world.performed, vec![list_user("alice"), follow_link("gone")]);
    assert!(world.existing.is_empty());
}

#[test]
fn run_without_sources_finishes_at_once() {
    let run = MirrorRun::start(config(&[], &[], true));
    assert!(run.is_terminal());
    assert_eq!(run.action(), RunAction::Finish);
    let run = run.advance(RunEvent::Succeeded);
    assert_eq!(run.action(), RunAction::Finish);
}

#[test]
fn source_without_repositories_leads_straight_to_the_next() {
    let mut world = World::new()
        .user("nobody", page(&[], None))
        .org("empty", page(&[], None))
        .org("acme", page(&["acme/tool"], None));
    let end = world.run(config(&["nobody"], &["empty", "acme"], false));
    assert_eq!(end, RunAction::Finish);
    assert_eq!(
        world.performed,
        vec![
            list_user("nobody"),
            list_org("empty"),
            list_org("acme"),
            probe("acme/tool"),
            create_dirs("dest/acme"),
            clone_mirror("acme/tool"),
        ]
    );
}

#[test]
fn run_ignores_events_that_do_not_answer_its_action() {
    let run = MirrorRun::start(config(&["alice"], &[], false));
    assert_eq!(run.action(), list_user("alice"));
    let run = run.advance(RunEvent::Exists(true));
    assert_eq!(run.action(), list_user("alice"));
    let run = run.advance(RunEvent::Succeeded);
    assert_eq!(run.action(), list_user("alice"));
    let run = run.advance(RunEvent::Page(page(&["alice/a"], Some("page-2"))));
    assert_eq!(run.action(), follow_link("page-2"));
    let run = run.advance(RunEvent::Exists(false));
    assert_eq!(run.action(), follow_link("page-2"));
    let run = run.advance(RunEvent::Page(page(&["alice/b"], None)));
    assert_eq!(run.action(), probe("alice/a"));
    let run = run.advance(RunEvent::Page(page(&["alice/z"], None)));
    assert_eq!(run.action(), probe("alice/a"));
    assert!(!run.is_terminal());
}

#[test]
fn failed_command_in_a_run_ends_it_with_the_command_as_context() {
    let run = MirrorRun::start(config(&["alice"], &["acme"], false));
    let run = run.advance(RunEvent::Page(page(&["alice/a", "alice/b"], None)));
    let run = run.advance(RunEvent::Exists(true));
    assert_eq!(run.action(), update("alice/a"));
    let run = run.advance(RunEvent::Failed("exit status: 128".to_string()));
    let error = SyncError::Command {
        command: GitCommand::RemoteUpdate { target: "dest/alice/a".to_string() },
        detail: "exit status: 128".to_string(),
    };
    assert_eq!(error.kind(), ErrorKind::Subprocess);
    assert!(run.is_terminal());
    assert_eq!(run.action(), RunAction::Abort { error: error.clone() });
    let run = run.advance(RunEvent::Succeeded);
    assert_eq!(run.action(), RunAction::Abort { error });
}
