use post_index::error::RepoError;
use post_index::post::{Category, Course, DocId, Post, User};
use post_index::session::{Action, BulkItem, BulkReport, IndexSession, Phase, RefreshSetting};

fn course(v: u128, name: &str) -> Post {
    Post::Course(Course {
        id: DocId { value: v },
        name: name.to_string(),
        description: "Basics".to_string(),
        picture: "pic.png".to_string(),
    })
}

fn text(v: u128) -> String {
    DocId { value: v }.to_text()
}

fn report(errors: bool, items: &[(u128, bool)]) -> BulkReport {
    BulkReport {
        errors,
        items: items.iter().map(|(v, f)| BulkItem { id: text(*v), failed: *f }).collect(),
    }
}

/// Runs the setup steps and suspends refresh for an existing index.
fn to_checks(posts: &Vec<Post>) -> (IndexSession, Action) {
    let (mut s, a) = IndexSession::start(posts, false);
    assert_eq!(a, Action::ProbeIndex);
    let a = s.on_status(Ok(200));
    assert_eq!(a, Action::SetRefresh(RefreshSetting::Suspended));
    let a = s.on_status(Ok(200));
    (s, a)
}

#[test]
fn existing_index_is_left_alone() {
    let posts = vec![course(1, "Intro to Rust")];
    let (mut s, _) = IndexSession::start(&posts, false);
    assert_eq!(s.on_status(Ok(200)), Action::SetRefresh(RefreshSetting::Suspended));
    assert_eq!(s.phase, Phase::Suspending);
}

#[test]
fn missing_index_is_created_with_standard_schema() {
    let posts = vec![course(1, "Intro to Rust")];
    let (mut s, _) = IndexSession::start(&posts, false);
    match s.on_status(Ok(404)) {
        Action::CreateIndex(schema) => {
            assert_eq!(schema.shards, 3);
            assert_eq!(schema.replicas, 0);
            assert_eq!(schema.min_gram, 2);
            assert_eq!(schema.max_gram, 10);
            assert!(schema.routing_required);
            assert_eq!(schema.properties.len(), 6);
        }
        other => panic!("unexpected {:?}", other),
    }
    // a refused create is only logged
    assert_eq!(s.on_status(Ok(400)), Action::SetRefresh(RefreshSetting::Suspended));
}

#[test]
fn forced_setup_deletes_then_creates() {
    let posts = vec![course(1, "Intro to Rust")];
    let (mut s, _) = IndexSession::start(&posts, true);
    assert_eq!(s.on_status(Ok(200)), Action::DeleteIndex);
    // a failed delete does not stop the setup
    assert!(matches!(s.on_status(Err(RepoError::Transport("down".to_string()))), Action::CreateIndex(_)));
    assert_eq!(s.on_status(Ok(200)), Action::SetRefresh(RefreshSetting::Suspended));
}

#[test]
fn probe_transport_failure_is_fatal() {
    let posts = vec![course(1, "Intro to Rust")];
    let (mut s, _) = IndexSession::start(&posts, false);
    let e = RepoError::Transport("timeout".to_string());
    assert_eq!(s.on_status(Err(e.clone())), Action::Finish(Err(e)));
    assert!(s.is_done());
}

#[test]
fn create_transport_failure_is_fatal() {
    let posts = vec![course(1, "Intro to Rust")];
    let (mut s, _) = IndexSession::start(&posts, false);
    s.on_status(Ok(404));
    let e = RepoError::Transport("refused".to_string());
    assert_eq!(s.on_status(Err(e.clone())), Action::Finish(Err(e)));
}

#[test]
fn duplicate_id_is_a_conflict_with_no_write() {
    let posts = vec![course(1, "Intro to Rust"), course(2, "Advanced Rust")];
    let (mut s, a) = to_checks(&posts);
    match a {
        Action::CheckExists(l) => {
            assert_eq!(l.doc_id, text(1));
            assert_eq!(l.routing, text(1));
        }
        other => panic!("unexpected {:?}", other),
    }
    assert_eq!(s.on_status(Ok(200)), Action::SetRefresh(RefreshSetting::Default));
    assert_eq!(s.on_status(Ok(200)), Action::Finish(Err(RepoError::Conflict)));
}

#[test]
fn failed_lookup_counts_as_absent() {
    let posts = vec![course(1, "Intro to Rust")];
    let (mut s, _) = to_checks(&posts);
    match s.on_status(Err(RepoError::Transport("timeout".to_string()))) {
        Action::Submit(ops) => assert_eq!(ops.len(), 1),
        other => panic!("unexpected {:?}", other),
    }
}

#[test]
fn clean_batch_succeeds_and_restores_refresh() {
    let posts = vec![course(1, "Intro to Rust")];
    let (mut s, _) = to_checks(&posts);
    let ops = match s.on_status(Ok(404)) {
        Action::Submit(ops) => ops,
        other => panic!("unexpected {:?}", other),
    };
    assert_eq!(ops.len(), 1);
    assert_eq!(ops[0].position, 0);
    assert_eq!(ops[0].doc_id, text(1));
    assert_eq!(ops[0].routing, text(1));
    assert!(s.wants_report());
    assert_eq!(s.on_report(Ok(report(false, &[(1, false)]))), Action::SetRefresh(RefreshSetting::Default));
    assert_eq!(s.on_status(Ok(200)), Action::Finish(Ok(())));
}

#[test]
fn second_document_retried_once_then_success() {
    let posts = vec![
        course(1, "Intro to Rust"),
        Post::Category(Category { id: DocId { value: 2 }, name: "Languages".to_string() }),
        Post::User(User {
            id: DocId { value: 3 },
            name: "Ada".to_string(),
            lastname: "Lovelace".to_string(),
            nickname: "ada".to_string(),
            picture: "ada.png".to_string(),
        }),
    ];
    let (mut s, _) = to_checks(&posts);
    assert!(matches!(s.on_status(Ok(404)), Action::CheckExists(_)));
    assert!(matches!(s.on_status(Ok(404)), Action::CheckExists(_)));
    let ops = match s.on_status(Ok(404)) {
        Action::Submit(ops) => ops,
        other => panic!("unexpected {:?}", other),
    };
    assert_eq!(ops.iter().map(|o| o.position).collect::<Vec<_>>(), vec![0, 1, 2]);
    let retry = match s.on_report(Ok(report(true, &[(1, false), (2, true), (3, false)]))) {
        Action::Submit(ops) => ops,
        other => panic!("unexpected {:?}", other),
    };
    assert_eq!(retry.len(), 1);
    assert_eq!(retry[0].position, 1);
    assert_eq!(retry[0].doc_id, text(2));
    assert_eq!(retry[0].routing, text(2));
    assert_eq!(s.on_report(Ok(report(false, &[(2, false)]))), Action::SetRefresh(RefreshSetting::Default));
    assert_eq!(s.on_status(Ok(200)), Action::Finish(Ok(())));
}

#[test]
fn failures_after_retry_fail_the_call() {
    let posts = vec![course(1, "a"), course(2, "b"), course(3, "c"), course(4, "d")];
    let (mut s, _) = to_checks(&posts);
    for _ in 0..3 {
        assert!(matches!(s.on_status(Ok(404)), Action::CheckExists(_)));
    }
    assert!(matches!(s.on_status(Ok(404)), Action::Submit(_)));
    let retry = match s.on_report(Ok(report(true, &[(1, false), (2, true), (3, false), (4, true)]))) {
        Action::Submit(ops) => ops,
        other => panic!("unexpected {:?}", other),
    };
    assert_eq!(retry.iter().map(|o| o.position).collect::<Vec<_>>(), vec![1, 3]);
    assert_eq!(s.on_report(Ok(report(true, &[(2, false), (4, true)]))), Action::SetRefresh(RefreshSetting::Default));
    assert_eq!(s.on_status(Ok(200)), Action::Finish(Err(RepoError::PartialBulkFailure)));
}

#[test]
fn bulk_transport_failure_still_restores_refresh() {
    let posts = vec![course(1, "a")];
    let (mut s, _) = to_checks(&posts);
    s.on_status(Ok(404));
    let e = RepoError::Transport("reset".to_string());
    assert_eq!(s.on_report(Err(e.clone())), Action::SetRefresh(RefreshSetting::Default));
    // a failed restore is not escalated
    assert_eq!(s.on_status(Err(RepoError::Transport("x".to_string()))), Action::Finish(Err(e)));
}

#[test]
fn error_flag_without_failed_items_succeeds() {
    let posts = vec![course(1, "a")];
    let (mut s, _) = to_checks(&posts);
    s.on_status(Ok(404));
    assert_eq!(s.on_report(Ok(report(true, &[(1, false)]))), Action::SetRefresh(RefreshSetting::Default));
    assert_eq!(s.on_status(Ok(200)), Action::Finish(Ok(())));
}

#[test]
fn failures_of_unknown_ids_fail_the_call() {
    let posts = vec![course(1, "a")];
    let (mut s, _) = to_checks(&posts);
    s.on_status(Ok(404));
    assert_eq!(s.on_report(Ok(report(true, &[(9, true)]))), Action::SetRefresh(RefreshSetting::Default));
    assert_eq!(s.on_status(Ok(200)), Action::Finish(Err(RepoError::PartialBulkFailure)));
}

#[test]
fn empty_batch_writes_nothing() {
    let posts: Vec<Post> = Vec::new();
    let (mut s, a) = to_checks(&posts);
    assert_eq!(a, Action::SetRefresh(RefreshSetting::Default));
    assert_eq!(s.on_status(Ok(200)), Action::Finish(Ok(())));
}
