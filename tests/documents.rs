use post_index::error::RepoError;
use post_index::guard::{check_write, delete_request, exists_from_answer, lookup_for, success};
use post_index::post::{Category, Course, DocId, Field, Post, PostKind, User};
use post_index::requests::{build_query, delete_spec, Analyzer, Matching};
use post_index::search::{project, HighlightEntry, RawHit};
use post_index::guard::update_request;
use post_index::users::{create_user, delete_user, get_user, get_users};

fn c1() -> Post {
    Post::from(Course {
        id: DocId { value: 0xc1 },
        name: "Intro to Rust".to_string(),
        description: "Basics".to_string(),
        picture: "rust.png".to_string(),
    })
}

#[test]
fn id_text_is_hyphenated_uuid() {
    assert_eq!(DocId { value: 1 }.to_text(), "00000000-0000-0000-0000-000000000001");
    assert_eq!(
        DocId { value: 0xa1a2a3a4b1b2c1c2d1d2d3d4d5d6d7d8 }.to_text(),
        "a1a2a3a4-b1b2-c1c2-d1d2-d3d4d5d6d7d8"
    );
}

#[test]
fn ids_and_kinds() {
    assert_eq!(c1().id(), DocId { value: 0xc1 });
    assert_eq!(c1().kind(), PostKind::Course);
    let cat = Post::from(Category { id: DocId { value: 7 }, name: "n".to_string() });
    assert_eq!(cat.id(), DocId { value: 7 });
    let u = Post::from(User {
        id: DocId { value: 8 },
        name: "a".to_string(),
        lastname: "b".to_string(),
        nickname: "c".to_string(),
        picture: "d".to_string(),
    });
    assert_eq!(u.kind(), PostKind::User);
}

#[test]
fn existence_is_fail_closed() {
    assert!(!exists_from_answer(&Err(RepoError::Transport("down".to_string()))));
    assert!(exists_from_answer(&Ok(200)));
    assert!(!exists_from_answer(&Ok(404)));
    assert!(success(204));
    assert!(!success(300));
}

#[test]
fn lookup_routes_by_id() {
    let l = lookup_for(DocId { value: 5 });
    assert_eq!(l.doc_id, "00000000-0000-0000-0000-000000000005");
    assert_eq!(l.routing, l.doc_id);
}

#[test]
fn course_update_script() {
    let u = c1().update_by_query();
    assert_eq!(
        u.script,
        "ctx._source.name = params.name; ctx._source.description = params.description; ctx._source.picture = params.picture"
    );
    assert_eq!(u.match_id, DocId { value: 0xc1 }.to_text());
    assert_eq!(u.params.len(), 3);
    assert_eq!(u.params[0].field, Field::Name);
    assert_eq!(u.params[0].value, "Intro to Rust");
    assert_eq!(u.params[2].field, Field::Picture);
    assert_eq!(u.params[2].value, "rust.png");
}

#[test]
fn category_and_user_update_scripts() {
    let cat = Post::Category(Category { id: DocId { value: 2 }, name: "Lang".to_string() });
    assert_eq!(cat.update_by_query().script, "ctx._source.name = params.name");
    let u = Post::User(User {
        id: DocId { value: 3 },
        name: "Ada".to_string(),
        lastname: "Lovelace".to_string(),
        nickname: "ada".to_string(),
        picture: "ada.png".to_string(),
    });
    let spec = u.update_by_query();
    assert_eq!(
        spec.script,
        "ctx._source.name = params.name; ctx._source.nickname = params.nickname; ctx._source.lastname = params.lastname; ctx._source.picture = params.picture"
    );
    assert_eq!(spec.params[2].value, "Lovelace");
}

#[test]
fn update_of_unindexed_id_is_not_found() {
    assert_eq!(update_request(&Ok(404), &c1()), Err(RepoError::NotFound));
    assert_eq!(update_request(&Err(RepoError::Transport("t".to_string())), &c1()), Err(RepoError::NotFound));
    let u = update_request(&Ok(200), &c1()).unwrap();
    assert_eq!(u, c1().update_by_query());
}

#[test]
fn delete_is_gated_by_existence() {
    let id = DocId { value: 0xc1 };
    assert_eq!(delete_request(&Ok(404), id), Err(RepoError::NotFound));
    assert_eq!(delete_request(&Ok(200), id), Ok(delete_spec(id)));
    assert_eq!(delete_spec(id).match_id, id.to_text());
}

#[test]
fn write_status_checks() {
    assert_eq!(check_write(Ok(200)), Ok(()));
    assert_eq!(check_write(Ok(500)), Err(RepoError::EngineStatus(500)));
    let e = RepoError::Transport("x".to_string());
    assert_eq!(check_write(Err(e.clone())), Err(e));
}

#[test]
fn schema_is_shared_by_kinds() {
    let s = c1().base_index();
    assert_eq!(s.properties[0].field, Field::Id);
    assert_eq!(s.properties[0].analyzer, Analyzer::Keyword);
    assert_eq!(s.properties[1].analyzer, Analyzer::EdgeNgram);
    assert_eq!(s.properties[5].field, Field::Picture);
    let cat = Post::Category(Category { id: DocId { value: 2 }, name: "Lang".to_string() });
    assert_eq!(cat.base_index(), s);
    assert_eq!(Field::Nickname.name(), "nickname");
}

#[test]
fn empty_text_matches_all_without_highlight() {
    let q = build_query(None, "");
    assert_eq!(q.matching, Matching::All);
    assert!(q.highlight.is_none());
}

#[test]
fn text_search_uses_cross_fields_and_highlight() {
    let q = build_query(None, "Rust");
    match &q.matching {
        Matching::CrossFields { text, fields } => {
            assert_eq!(text, "Rust");
            assert_eq!(fields, &vec![Field::Name, Field::Lastname, Field::Nickname, Field::Description]);
        }
        other => panic!("unexpected {:?}", other),
    }
    let h = q.highlight.unwrap();
    assert_eq!(h.pre_tag, "<b>");
    assert_eq!(h.post_tag, "</b>");
    assert_eq!(h.fields.len(), 4);
}

#[test]
fn kind_query_uses_kind_fields() {
    match c1().query("intro").matching {
        Matching::CrossFields { fields, .. } => assert_eq!(fields, vec![Field::Name, Field::Description]),
        other => panic!("unexpected {:?}", other),
    }
    let q = build_query(Some(PostKind::User), "ada");
    assert_eq!(q.highlight.unwrap().fields, vec![Field::Name, Field::Lastname, Field::Nickname]);
}

#[test]
fn search_for_rust_highlights_name() {
    let hits = vec![RawHit {
        source: Some(c1()),
        highlight: Some(vec![HighlightEntry {
            field: "name".to_string(),
            fragments: vec!["Intro to <b>Rust</b>".to_string()],
        }]),
    }];
    let results = project(hits).unwrap();
    assert_eq!(results.len(), 1);
    assert_eq!(results[0].post.id(), DocId { value: 0xc1 });
    assert_eq!(results[0].highlight[0].field, "name");
    assert!(results[0].highlight[0].fragments[0].contains("<b>Rust</b>"));
}

#[test]
fn hits_without_highlight_get_empty_maps() {
    let hits = vec![
        RawHit { source: Some(c1()), highlight: None },
        RawHit { source: Some(Post::Category(Category { id: DocId { value: 2 }, name: "L".to_string() })), highlight: None },
    ];
    let results = project(hits).unwrap();
    assert_eq!(results.len(), 2);
    assert!(results.iter().all(|r| r.highlight.is_empty()));
    assert_eq!(results[1].post.id(), DocId { value: 2 });
}

#[test]
fn undecodable_hit_fails_the_search() {
    let hits = vec![RawHit { source: Some(c1()), highlight: None }, RawHit { source: None, highlight: None }];
    assert!(matches!(project(hits), Err(RepoError::Malformed(_))));
    assert_eq!(project(Vec::new()), Ok(Vec::new()));
}

#[test]
fn user_routes() {
    assert_eq!(get_users(), "Get all users");
    assert_eq!(create_user(), "Create a user");
    assert_eq!(get_user(42), "Get user with ID: 42");
    assert_eq!(delete_user(0), "Delete user with ID: 0");
    assert_eq!(get_user(4294967295), "Get user with ID: 4294967295");
}
