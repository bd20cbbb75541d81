//! Applying questions to vtuber profiles.

use vtuber_quiz::error::Error;
use vtuber_quiz::models::Audience;
use vtuber_quiz::question::{MultiChoiceQuestion, QuestionContent, QuestionCreationRequest};
use vtuber_quiz::store::Store;

fn seeded() -> (Store, i32, i32, i32) {
    let mut s = Store::new();
    let creator = s.register("creator", b"pw", 0).unwrap();
    let normal = s.register("fan", b"pw", 0).unwrap();
    let req = QuestionCreationRequest {
        content: QuestionContent::MultiChoice(MultiChoiceQuestion {
            description: "q".to_string(),
            choices: vec!["a".to_string(), "b".to_string()],
            answer: 0,
        }),
        audiences: vec![Audience::Vtuber],
        draft: false,
    };
    let qid = s.create_question(creator, &req, 0).unwrap();
    (s, creator, normal, qid)
}

#[test]
fn apply_is_refused_for_non_creators_and_non_vtubers() {
    let (mut s, creator, normal, qid) = seeded();
    assert_eq!(s.apply_question_to_vtuber(qid, normal, normal), Err(Error::Unauthorized));
    assert_eq!(s.apply_question_to_vtuber(qid + 5, normal, creator), Err(Error::NotFound));
    assert_eq!(s.apply_question_to_vtuber(qid, 999, creator), Err(Error::NotFound));
    // the target exists but does not carry the vtuber role
    assert_eq!(s.apply_question_to_vtuber(qid, normal, creator), Err(Error::ValidationFailure));
}

#[test]
fn remove_is_refused_the_same_way() {
    let (mut s, creator, normal, qid) = seeded();
    assert_eq!(s.remove_question_to_vtuber(qid, normal, normal), Err(Error::Unauthorized));
    assert_eq!(s.remove_question_to_vtuber(qid + 5, normal, creator), Err(Error::NotFound));
    assert_eq!(s.remove_question_to_vtuber(qid, 999, creator), Err(Error::NotFound));
    assert_eq!(s.remove_question_to_vtuber(qid, normal, creator), Err(Error::ValidationFailure));
}

#[test]
fn apply_and_remove_round_trip() {
    let (mut s, creator, _, qid) = seeded();
    let vtuber = s.register("streamer", b"pw", 0).unwrap();
    s.set_role(vtuber, vtuber_quiz::models::UserRole::Vtuber).unwrap();
    assert_eq!(s.apply_question_to_vtuber(qid, vtuber, creator), Ok(()));
    assert_eq!(s.get_question_applied(qid).unwrap(), vec![vtuber]);
    // applying the same pair again changes nothing
    assert_eq!(s.apply_question_to_vtuber(qid, vtuber, creator), Ok(()));
    assert_eq!(s.get_question_applied(qid).unwrap(), vec![vtuber]);
    assert_eq!(s.remove_question_to_vtuber(qid, vtuber, creator), Ok(()));
    assert_eq!(s.get_question_applied(qid).unwrap(), Vec::<i32>::new());
    // removing an absent pair is not an error
    assert_eq!(s.remove_question_to_vtuber(qid, vtuber, creator), Ok(()));
}

#[test]
fn set_role_of_a_missing_account_is_not_found() {
    let mut s = Store::new();
    assert_eq!(
        s.set_role(3, vtuber_quiz::models::UserRole::Vtuber),
        Err(Error::NotFound)
    );
}

#[test]
fn applied_list_hides_drafts_and_deleted_questions() {
    let (mut s, creator, _, qid) = seeded();
    assert_eq!(s.get_question_applied(qid).unwrap(), Vec::<i32>::new());
    assert_eq!(s.get_question_applied(qid + 9).err(), Some(Error::NotFound));
    s.delete_question(qid, creator).unwrap();
    assert_eq!(s.get_question_applied(qid).err(), Some(Error::NotFound));
}
