//! Core data model: accounts, enumerations and request/response shapes.

use vstd::prelude::*;

verus! {

/// Role of an account.
#[derive(Copy, Clone, Debug, PartialEq, Eq, Structural)]
pub enum UserRole {
    Normal,
    Vtuber,
}

/// Structural kind of a question.
#[derive(Copy, Clone, Debug, PartialEq, Eq, Structural)]
pub enum QuestionType {
    TrueFalse,
    MultiChoice,
    MultiAnswer,
}

/// One of the four recognized vote actions.
#[derive(Copy, Clone, Debug, PartialEq, Eq, Structural)]
pub enum VoteAction {
    UpVote,
    DownVote,
    FlagOutdated,
    FlagIncorrect,
}

/// Intended respondent population of a question.
#[derive(Copy, Clone, Debug, PartialEq, Eq, Structural)]
pub enum Audience {
    Vtuber,
    Fan,
    Passenger,
}

impl UserRole {
    /// Wire identifier of the role.
    pub fn name(&self) -> (r: String)
        ensures
            *self is Normal ==> r@ == "normal"@,
            *self is Vtuber ==> r@ == "vtuber"@,
    {
        match self {
            UserRole::Normal => String::from_str("normal"),
            UserRole::Vtuber => String::from_str("vtuber"),
        }
    }
}

impl QuestionType {
    /// Wire identifier of the question type.
    pub fn name(&self) -> (r: String)
        ensures
            *self is TrueFalse ==> r@ == "true_false"@,
            *self is MultiChoice ==> r@ == "multi_choice"@,
            *self is MultiAnswer ==> r@ == "multi_answer"@,
    {
        match self {
            QuestionType::TrueFalse => String::from_str("true_false"),
            QuestionType::MultiChoice => String::from_str("multi_choice"),
            QuestionType::MultiAnswer => String::from_str("multi_answer"),
        }
    }
}

/// The vote action named by a wire identifier, if it is one of the four
/// recognized ones.
pub open spec fn spec_parse_vote_action(s: Seq<char>) -> Option<VoteAction> {
    if s == "up_vote"@ {
        Some(VoteAction::UpVote)
    } else if s == "down_vote"@ {
        Some(VoteAction::DownVote)
    } else if s == "flag_outdated"@ {
        Some(VoteAction::FlagOutdated)
    } else if s == "flag_incorrect"@ {
        Some(VoteAction::FlagIncorrect)
    } else {
        None
    }
}

impl VoteAction {
    /// Wire identifier of the action.
    pub fn name(&self) -> (r: String)
        ensures
            r@ == spec_vote_action_name(*self),
    {
        match self {
            VoteAction::UpVote => String::from_str("up_vote"),
            VoteAction::DownVote => String::from_str("down_vote"),
            VoteAction::FlagOutdated => String::from_str("flag_outdated"),
            VoteAction::FlagIncorrect => String::from_str("flag_incorrect"),
        }
    }

    /// Parses a wire identifier; anything but the four recognized
    /// identifiers is rejected.
    pub fn parse(s: &str) -> (r: Option<VoteAction>)
        ensures
            r == spec_parse_vote_action(s@),
    {
        if crate::text::str_eq(s, "up_vote") {
            Some(VoteAction::UpVote)
        } else if crate::text::str_eq(s, "down_vote") {
            Some(VoteAction::DownVote)
        } else if crate::text::str_eq(s, "flag_outdated") {
            Some(VoteAction::FlagOutdated)
        } else if crate::text::str_eq(s, "flag_incorrect") {
            Some(VoteAction::FlagIncorrect)
        } else {
            None
        }
    }
}

/// Wire identifier of each vote action.
pub open spec fn spec_vote_action_name(a: VoteAction) -> Seq<char> {
    match a {
        VoteAction::UpVote => "up_vote"@,
        VoteAction::DownVote => "down_vote"@,
        VoteAction::FlagOutdated => "flag_outdated"@,
        VoteAction::FlagIncorrect => "flag_incorrect"@,
    }
}

/// Wire identifier of each audience.
pub open spec fn spec_audience_name(a: Audience) -> Seq<char> {
    match a {
        Audience::Vtuber => "vtuber"@,
        Audience::Fan => "fan"@,
        Audience::Passenger => "passenger"@,
    }
}

impl Audience {
    /// Wire identifier of the audience.
    pub fn name(&self) -> (r: String)
        ensures
            r@ == spec_audience_name(*self),
    {
        match self {
            Audience::Vtuber => String::from_str("vtuber"),
            Audience::Fan => String::from_str("fan"),
            Audience::Passenger => String::from_str("passenger"),
        }
    }
}

/// The wire identifiers of a list of audiences, in order.
pub fn audience_names(list: &Vec<Audience>) -> (r: Vec<String>)
    ensures
        r.deep_view() == list@.map_values(|a: Audience| spec_audience_name(a)),
{
    let mut r: Vec<String> = Vec::new();
    let mut i: usize = 0;
    while i < list.len()
        invariant
            i <= list@.len(),
            r@.len() == i,
            forall|k: int| 0 <= k < i ==> r@[k]@ == spec_audience_name(list@[k]),
        decreases list@.len() - i,
    {
        r.push(list[i].name());
        i = i + 1;
    }
    assert(r.deep_view() =~= list@.map_values(|a: Audience| spec_audience_name(a)));
    r
}

/// An account. Timestamps are milliseconds since the Unix epoch.
#[derive(Debug)]
pub struct User {
    pub id: i32,
    pub username: String,
    /// Encoded password hash; never shown to callers.
    pub password: String,
    /// Pending verification code, globally unique when present.
    pub challenge: Option<String>,
    pub role: UserRole,
    pub blocked: bool,
    pub reputation: i32,
    pub created: i64,
    pub updated: i64,
}

impl Clone for User {
    /// Field-for-field copy.
    fn clone(&self) -> (r: Self)
        ensures
            r == *self,
    {
        User {
            id: self.id,
            username: self.username.clone(),
            password: self.password.clone(),
            challenge: match &self.challenge {
                Some(c) => Some(c.clone()),
                None => None,
            },
            role: self.role,
            blocked: self.blocked,
            reputation: self.reputation,
            created: self.created,
            updated: self.updated,
        }
    }
}

/// Registration request body.
#[derive(Clone, Debug)]
pub struct RegRequest {
    pub username: String,
    pub password: String,
}

/// Login request body.
#[derive(Clone, Debug)]
pub struct LoginRequest {
    pub password: String,
}

/// Follow request body.
#[derive(Copy, Clone, Debug)]
pub struct FollowRequest {
    pub private: bool,
}

/// Serde-style default for the `private` flag of a follow request.
pub fn default_false() -> (r: bool)
    ensures
        r == false,
{
    false
}

/// What challenge issuance hands back: the fresh code plus caller-facing
/// message templates (informational only).
#[derive(Clone, Debug)]
pub struct ChallengeResponse {
    pub code: String,
    pub templates: Vec<String>,
}

impl ChallengeResponse {
    /// Bundles a fresh code with the caller-facing message templates; the
    /// templates are informational only.
    pub fn new(code: &str) -> (r: ChallengeResponse)
        ensures
            r.code@ == code@,
            r.templates@.len() == 2,
    {
        let mut templates: Vec<String> = Vec::new();
        templates.push(
            String::from_str(
                "我正在使用vtuber粉丝力测试，点下方的链接看看我创建的题目吧\nhttps://quiz.virtio.com.cn/v/{}",
            ),
        );
        templates.push(
            String::from_str(
                "我正在使用vtuber粉丝力测试，点下方的链接测试一下你的粉丝力吧\nhttps://quiz.virtio.com.cn/v/{}",
            ),
        );
        ChallengeResponse { code: code.to_owned(), templates }
    }
}

} // verus!
