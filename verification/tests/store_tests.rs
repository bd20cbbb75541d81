//! The store's consistency rules: registration conflicts, login
//! indistinguishability, follow idempotence, and the question lifecycle.

use vtuber_quiz::error::Error;
use vtuber_quiz::models::{Audience, UserRole};
use vtuber_quiz::question::{
    MultiChoiceQuestion, Question, QuestionContent, QuestionCreationRequest, TrueFalseQuestion,
};
use vtuber_quiz::store::Store;

fn strings(v: &[&str]) -> Vec<String> {
    v.iter().map(|s| s.to_string()).collect()
}

fn mc_request(choices: &[&str], answer: usize, draft: bool) -> QuestionCreationRequest {
    QuestionCreationRequest {
        content: QuestionContent::MultiChoice(MultiChoiceQuestion {
            description: "pick one".to_string(),
            choices: strings(choices),
            answer,
        }),
        audiences: vec![Audience::Fan, Audience::Passenger],
        draft,
    }
}

#[test]
fn register_assigns_ids_and_refuses_taken_usernames() {
    let mut s = Store::new();
    let a = s.register("alice", b"pw", 10).unwrap();
    let b = s.register("bob", b"pw", 20).unwrap();
    assert_ne!(a, b);
    assert_eq!(s.register("alice", b"other", 30), Err(Error::ConflictUsername));
    assert_eq!(s.user_count(), 2);
    let ua = s.get_user_by_id(a).unwrap();
    assert_eq!(ua.username.as_str(), "alice");
    assert_eq!(ua.role, UserRole::Normal);
    assert_eq!(ua.reputation, 0);
    assert!(!ua.blocked);
    assert_eq!(ua.created, 10);
}

#[test]
fn lookup_of_missing_rows_is_not_found() {
    let mut s = Store::new();
    assert_eq!(s.get_user_by_id(7).err(), Some(Error::NotFound));
    assert_eq!(s.get_user_by_username("ghost").err(), Some(Error::NotFound));
    let a = s.register("alice", b"pw", 0).unwrap();
    assert_eq!(s.get_user_by_username("alice").unwrap().id, a);
}

#[test]
fn login_failures_are_indistinguishable() {
    let mut s = Store::new();
    s.register("alice", b"right password", 0).unwrap();
    let unknown_user = s.login("nobody", b"right password");
    let wrong_password = s.login("alice", b"wrong password");
    assert_eq!(unknown_user.err(), Some(Error::InvalidCredential));
    assert_eq!(wrong_password.err(), Some(Error::InvalidCredential));
}

#[test]
fn login_with_the_right_password_yields_the_account() {
    let mut s = Store::new();
    let a = s.register("alice", b"right password", 0).unwrap();
    let u = s.login("alice", b"right password").unwrap();
    assert_eq!(u.id, a);
    assert_eq!(u.username.as_str(), "alice");
}

#[test]
fn follow_twice_persists_exactly_one_relationship() {
    let mut s = Store::new();
    assert_eq!(s.follow(1, 2, false), Ok(()));
    assert_eq!(s.follow(1, 2, false), Ok(()));
    assert_eq!(s.follow_count(), 1);
    assert!(s.is_following(1, 2));
    assert!(!s.is_following(2, 1));
    assert_eq!(s.follow(2, 1, true), Ok(()));
    assert_eq!(s.follow_count(), 2);
}

#[test]
fn unfollow_of_a_missing_pair_is_not_an_error() {
    let mut s = Store::new();
    assert_eq!(s.unfollow(1, 2), Ok(()));
    assert_eq!(s.follow(1, 2, false), Ok(()));
    assert_eq!(s.unfollow(1, 2), Ok(()));
    assert!(!s.is_following(1, 2));
    assert_eq!(s.follow_count(), 0);
    assert_eq!(s.unfollow(1, 2), Ok(()));
}

#[test]
fn create_question_persists_the_derived_record() {
    let mut s = Store::new();
    let creator = s.register("alice", b"pw", 0).unwrap();
    let qid = s.create_question(creator, &mc_request(&["a", "b", "c"], 2, false), 99).unwrap();
    let q = s.get_question(qid).unwrap();
    assert_eq!(q.creator, creator);
    assert_eq!(q.description.as_str(), "pick one");
    assert_eq!(q.choices, strings(&["a", "b", "c"]));
    assert_eq!(q.answer, vec![2]);
    assert_eq!(q.audiences, strings(&["fan", "passenger"]));
    assert!(!q.draft);
    assert!(!q.deleted);
    assert_eq!(q.created, 99);
    assert_eq!(q.updated, 99);
}

#[test]
fn create_question_stores_fixed_labels_for_true_false() {
    let mut s = Store::new();
    let creator = s.register("alice", b"pw", 0).unwrap();
    let req = QuestionCreationRequest {
        content: QuestionContent::TrueFalse(TrueFalseQuestion {
            description: "1+1=2".to_string(),
            is_true: true,
        }),
        audiences: vec![Audience::Vtuber],
        draft: false,
    };
    let qid = s.create_question(creator, &req, 0).unwrap();
    let q = s.get_question(qid).unwrap();
    assert_eq!(q.choices, strings(&["T", "F"]));
    assert_eq!(q.answer, vec![0]);
    assert_eq!(q.audiences, strings(&["vtuber"]));
}

#[test]
fn create_question_refuses_invalid_content() {
    let mut s = Store::new();
    let creator = s.register("alice", b"pw", 0).unwrap();
    let out_of_range = s.create_question(creator, &mc_request(&["a", "b"], 2, false), 0);
    assert_eq!(out_of_range.err(), Some(Error::ValidationFailure));
    assert_eq!(s.question_count(), 0);
}

#[test]
fn deleted_questions_look_missing_to_readers() {
    let mut s = Store::new();
    let creator = s.register("alice", b"pw", 0).unwrap();
    let qid = s.create_question(creator, &mc_request(&["a", "b"], 0, false), 0).unwrap();
    assert!(s.get_question_visible(qid).is_ok());
    assert_eq!(s.delete_question(qid, creator), Ok(()));
    assert_eq!(s.get_question_visible(qid).err(), Some(Error::NotFound));
    assert_eq!(s.get_question_visible(qid + 1).err(), Some(Error::NotFound));
    // internally the record still exists, soft-deleted
    assert!(s.get_question(qid).unwrap().deleted);
}

#[test]
fn only_the_creator_may_delete() {
    let mut s = Store::new();
    let creator = s.register("alice", b"pw", 0).unwrap();
    let other = s.register("bob", b"pw", 0).unwrap();
    let qid = s.create_question(creator, &mc_request(&["a", "b"], 0, false), 0).unwrap();
    assert_eq!(s.delete_question(qid, other), Err(Error::Unauthorized));
    assert!(!s.get_question(qid).unwrap().deleted);
    assert_eq!(s.delete_question(qid + 7, creator), Err(Error::NotFound));
    assert_eq!(s.delete_question(qid, creator), Ok(()));
}

fn submitted_update(qid: i32) -> Question {
    Question {
        id: qid,
        creator: 4242,
        description: "rewritten".to_string(),
        choices: strings(&["x", "y", "z"]),
        answer: vec![1],
        question_type: vtuber_quiz::models::QuestionType::MultiChoice,
        audiences: strings(&["fan"]),
        draft: true,
        deleted: true,
        created: 31337,
        updated: 31337,
    }
}

#[test]
fn update_takes_only_the_mutable_fields() {
    let mut s = Store::new();
    let creator = s.register("alice", b"pw", 0).unwrap();
    let qid = s.create_question(creator, &mc_request(&["a", "b"], 0, false), 50).unwrap();
    assert_eq!(s.update_question(qid, &submitted_update(qid), creator, 60), Ok(()));
    let q = s.get_question(qid).unwrap();
    assert_eq!(q.description.as_str(), "rewritten");
    assert_eq!(q.choices, strings(&["x", "y", "z"]));
    assert_eq!(q.answer, vec![1]);
    assert_eq!(q.audiences, strings(&["fan"]));
    assert!(q.draft);
    // immutable despite what the caller supplied
    assert_eq!(q.creator, creator);
    assert!(!q.deleted);
    assert_eq!(q.created, 50);
    // server-set
    assert_eq!(q.updated, 60);
}

#[test]
fn update_authorization_and_validity() {
    let mut s = Store::new();
    let creator = s.register("alice", b"pw", 0).unwrap();
    let other = s.register("bob", b"pw", 0).unwrap();
    let qid = s.create_question(creator, &mc_request(&["a", "b"], 0, false), 0).unwrap();
    assert_eq!(
        s.update_question(qid, &submitted_update(qid), other, 1),
        Err(Error::Unauthorized)
    );
    // id mismatch
    assert_eq!(
        s.update_question(qid, &submitted_update(qid + 1), creator, 1),
        Err(Error::ValidationFailure)
    );
    // invalid submitted record (answer out of range)
    let mut bad = submitted_update(qid);
    bad.answer = vec![9];
    assert_eq!(s.update_question(qid, &bad, creator, 1), Err(Error::ValidationFailure));
    // missing question
    assert_eq!(
        s.update_question(qid + 1, &submitted_update(qid + 1), creator, 1),
        Err(Error::NotFound)
    );
}
