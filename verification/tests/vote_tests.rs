//! Vote authorization: who may vote, on what, and with which actions.

use vtuber_quiz::error::Error;
use vtuber_quiz::models::{Audience, VoteAction};
use vtuber_quiz::question::{MultiChoiceQuestion, QuestionContent, QuestionCreationRequest};
use vtuber_quiz::store::Store;

fn seeded() -> (Store, i32, i32, i32) {
    let mut s = Store::new();
    let creator = s.register("creator", b"pw", 0).unwrap();
    let voter = s.register("voter", b"pw", 0).unwrap();
    let req = QuestionCreationRequest {
        content: QuestionContent::MultiChoice(MultiChoiceQuestion {
            description: "q".to_string(),
            choices: vec!["a".to_string(), "b".to_string()],
            answer: 0,
        }),
        audiences: vec![Audience::Fan],
        draft: false,
    };
    let qid = s.create_question(creator, &req, 0).unwrap();
    (s, creator, voter, qid)
}

#[test]
fn voting_on_ones_own_question_is_a_validation_failure() {
    let (mut s, creator, _, qid) = seeded();
    assert_eq!(s.vote_to_question(creator, qid, "up_vote"), Err(Error::ValidationFailure));
    assert_eq!(s.vote_count(), 0);
}

#[test]
fn voting_on_a_draft_fails() {
    let (mut s, creator, voter, _) = seeded();
    let req = QuestionCreationRequest {
        content: QuestionContent::MultiChoice(MultiChoiceQuestion {
            description: "draft q".to_string(),
            choices: vec!["a".to_string(), "b".to_string()],
            answer: 0,
        }),
        audiences: vec![Audience::Fan],
        draft: true,
    };
    let draft_qid = s.create_question(creator, &req, 0).unwrap();
    assert_eq!(s.vote_to_question(voter, draft_qid, "up_vote"), Err(Error::ValidationFailure));
}

#[test]
fn voting_on_a_deleted_question_fails() {
    let (mut s, creator, voter, qid) = seeded();
    s.delete_question(qid, creator).unwrap();
    assert_eq!(s.vote_to_question(voter, qid, "up_vote"), Err(Error::ValidationFailure));
}

#[test]
fn voting_on_a_missing_question_is_not_found() {
    let (mut s, _, voter, qid) = seeded();
    assert_eq!(s.vote_to_question(voter, qid + 9, "up_vote"), Err(Error::NotFound));
}

#[test]
fn voting_with_an_unrecognized_action_fails() {
    let (mut s, _, voter, qid) = seeded();
    assert_eq!(s.vote_to_question(voter, qid, "smash"), Err(Error::ValidationFailure));
    assert_eq!(s.vote_to_question(voter, qid, "UP_VOTE"), Err(Error::ValidationFailure));
    assert_eq!(s.vote_to_question(voter, qid, ""), Err(Error::ValidationFailure));
    assert_eq!(s.vote_count(), 0);
}

#[test]
fn each_recognized_action_is_recorded() {
    let (mut s, _, voter, qid) = seeded();
    for action in ["up_vote", "down_vote", "flag_outdated", "flag_incorrect"] {
        assert_eq!(s.vote_to_question(voter, qid, action), Ok(()));
    }
    assert_eq!(s.vote_count(), 4);
}

#[test]
fn repeated_identical_votes_are_recorded_again() {
    let (mut s, _, voter, qid) = seeded();
    assert_eq!(s.vote_to_question(voter, qid, "up_vote"), Ok(()));
    assert_eq!(s.vote_to_question(voter, qid, "up_vote"), Ok(()));
    assert_eq!(s.vote_count(), 2);
}

#[test]
fn action_identifiers_parse_exactly() {
    assert_eq!(VoteAction::parse("up_vote"), Some(VoteAction::UpVote));
    assert_eq!(VoteAction::parse("down_vote"), Some(VoteAction::DownVote));
    assert_eq!(VoteAction::parse("flag_outdated"), Some(VoteAction::FlagOutdated));
    assert_eq!(VoteAction::parse("flag_incorrect"), Some(VoteAction::FlagIncorrect));
    assert_eq!(VoteAction::parse("upvote"), None);
    assert_eq!(VoteAction::parse(" up_vote"), None);
    assert_eq!(VoteAction::UpVote.name().as_str(), "up_vote");
    assert_eq!(VoteAction::DownVote.name().as_str(), "down_vote");
    assert_eq!(VoteAction::FlagOutdated.name().as_str(), "flag_outdated");
    assert_eq!(VoteAction::FlagIncorrect.name().as_str(), "flag_incorrect");
}
