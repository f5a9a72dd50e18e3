use git_mirror::error::{ErrorKind, SyncError};
use git_mirror::pages::{fetch_all_repo_pages, Aggregation};
use git_mirror::repo::{ListingPage, RepositoryDescriptor};

fn repo(full_name: &str) -> RepositoryDescriptor {
    RepositoryDescriptor {
        full_name: Some(full_name.to_string()),
        clone_url: Some(format!("https://example.org/{}.git", full_name)),
    }
}

fn repos(names: &[&str]) -> Vec<RepositoryDescriptor> {
    names.iter().map(|name| repo(name)).collect()
}

fn page(names: &[&str], next: Option<&str>) -> ListingPage {
    ListingPage { items: repos(names), next: next.map(|link| link.to_string()) }
}

/// Plays the part of the caller: follows every pending link through
/// `server`, which answers each request with the next page it holds.
fn aggregate(first: ListingPage, server: Vec<ListingPage>) -> (Aggregation, Vec<String>) {
    let mut followed = Vec::new();
    let mut aggregation = fetch_all_repo_pages(first);
    for next in server {
        let link = match &aggregation {
            Aggregation::Pending { link, .. } => link.clone(),
            _ => break,
        };
        followed.push(link);
        aggregation = aggregation.resume(Ok(next));
    }
    (aggregation, followed)
}

#[test]
fn single_page_is_complete_at_once() {
    let aggregation = fetch_all_repo_pages(page(&["u/a", "u/b"], None));
    assert_eq!(aggregation, Aggregation::Complete { repos: repos(&["u/a", "u/b"]) });
}

#[test]
fn empty_single_page_is_complete_and_empty() {
    let aggregation = fetch_all_repo_pages(page(&[], None));
    assert_eq!(aggregation, Aggregation::Complete { repos: Vec::new() });
}

#[test]
fn first_page_with_link_is_pending_on_that_link() {
    let aggregation = fetch_all_repo_pages(page(&["u/a"], Some("https://api/page/2")));
    assert_eq!(
        aggregation,
        Aggregation::Pending { repos: repos(&["u/a"]), link: "https://api/page/2".to_string() }
    );
}

#[test]
fn two_pages_are_joined_in_order() {
    let (aggregation, followed) =
        aggregate(page(&["u/a", "u/b"], Some("page-2")), vec![page(&["u/c"], None)]);
    assert_eq!(followed, vec!["page-2".to_string()]);
    assert_eq!(aggregation, Aggregation::Complete { repos: repos(&["u/a", "u/b", "u/c"]) });
}

#[test]
fn paged_listing_equals_unsplit_listing() {
    let names = ["o/a", "o/b", "o/c", "o/d", "o/e", "o/f", "o/g"];
    let unsplit = fetch_all_repo_pages(page(&names, None));
    let (three, followed) = aggregate(
        page(&names[0..3], Some("page-2")),
        vec![page(&names[3..4], Some("page-3")), page(&names[4..7], None)],
    );
    assert_eq!(followed, vec!["page-2".to_string(), "page-3".to_string()]);
    assert_eq!(three, unsplit);
    let (seven, _) = aggregate(
        page(&names[0..1], Some("2")),
        vec![
            page(&names[1..2], Some("3")),
            page(&names[2..3], Some("4")),
            page(&names[3..4], Some("5")),
            page(&names[4..5], Some("6")),
            page(&names[5..6], Some("7")),
            page(&names[6..7], None),
        ],
    );
    assert_eq!(seven, unsplit);
    assert_eq!(unsplit, Aggregation::Complete { repos: repos(&names) });
}

#[test]
fn empty_pages_in_between_add_nothing() {
    let (aggregation, followed) = aggregate(
        page(&[], Some("page-2")),
        vec![page(&["u/a"], Some("page-3")), page(&[], Some("page-4")), page(&["u/b"], None)],
    );
    assert_eq!(followed.len(), 3);
    assert_eq!(aggregation, Aggregation::Complete { repos: repos(&["u/a", "u/b"]) });
}

#[test]
fn duplicate_entries_across_pages_are_kept() {
    let (aggregation, _) = aggregate(page(&["u/a"], Some("page-2")), vec![page(&["u/a"], None)]);
    assert_eq!(aggregation, Aggregation::Complete { repos: repos(&["u/a", "u/a"]) });
}

#[test]
fn failed_page_fails_the_aggregation_and_drops_what_was_collected() {
    let pending = fetch_all_repo_pages(page(&["u/a", "u/b"], Some("page-2")));
    let failed = pending.resume(Err("connection reset".to_string()));
    let expected =
        SyncError::NextPage { link: "page-2".to_string(), detail: "connection reset".to_string() };
    assert_eq!(expected.kind(), ErrorKind::Api);
    assert_eq!(failed, Aggregation::Failed { error: expected });
}

#[test]
fn failure_on_a_later_page_names_the_link_that_failed() {
    let pending = fetch_all_repo_pages(page(&["u/a"], Some("page-2")));
    let pending = pending.resume(Ok(page(&["u/b"], Some("page-3"))));
    let failed = pending.resume(Err("timeout".to_string()));
    assert_eq!(
        failed,
        Aggregation::Failed {
            error: SyncError::NextPage { link: "page-3".to_string(), detail: "timeout".to_string() }
        }
    );
}

#[test]
fn complete_aggregation_takes_in_nothing_more() {
    let complete = fetch_all_repo_pages(page(&["u/a"], None));
    let still = complete.resume(Ok(page(&["u/b"], Some("page-9"))));
    assert_eq!(still, Aggregation::Complete { repos: repos(&["u/a"]) });
    let still = still.resume(Err("late".to_string()));
    assert_eq!(still, Aggregation::Complete { repos: repos(&["u/a"]) });
}

#[test]
fn failed_aggregation_stays_failed() {
    let pending = fetch_all_repo_pages(page(&["u/a"], Some("page-2")));
    let failed = pending.resume(Err("down".to_string()));
    let still = failed.resume(Ok(page(&["u/b"], None)));
    assert_eq!(
        still,
        Aggregation::Failed {
            error: SyncError::NextPage { link: "page-2".to_string(), detail: "down".to_string() }
        }
    );
}

#[test]
fn entries_without_fields_pass_through_aggregation_untouched() {
    let nameless = RepositoryDescriptor { full_name: None, clone_url: None };
    let first = ListingPage {
        items: vec![RepositoryDescriptor { full_name: None, clone_url: None }],
        next: Some("page-2".to_string()),
    };
    let aggregation = fetch_all_repo_pages(first).resume(Ok(page(&["u/a"], None)));
    assert_eq!(aggregation, Aggregation::Complete { repos: vec![nameless, repo("u/a")] });
}
