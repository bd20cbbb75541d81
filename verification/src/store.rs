//! A verified in-memory store standing for the persistent storage engine.
//!
//! The storage engine is the sole arbiter of consistency: uniqueness of
//! usernames, of pending challenge codes and of follow pairs is enforced
//! here, not by application-level locks. `wf` states those invariants;
//! every mutating operation preserves them.

use vstd::prelude::*;

use crate::credential;
use crate::error::Error;
use crate::models::{spec_audience_name, spec_parse_vote_action, User, UserRole, VoteAction};
use crate::question::{
    clone_ints, clone_strings, lemma_content_builds_valid_question, spec_answers_fit,
    spec_content_answer, spec_content_choices, spec_content_description, spec_content_ty,
    spec_content_valid, spec_merged, spec_valid_parts, spec_valid_question, Question,
    QuestionCreationRequest,
};
use crate::text::str_eq;

verus! {

/// A persisted follow relationship: an ordered pair of account ids plus a
/// private flag. The pair is unique.
#[derive(Copy, Clone, Debug, PartialEq, Eq, Structural)]
pub struct Follow {
    pub follower: i32,
    pub followee: i32,
    pub private: bool,
}

/// A recorded vote. Repeated identical votes are recorded again: this
/// store deliberately does not deduplicate them.
#[derive(Copy, Clone, Debug, PartialEq, Eq, Structural)]
pub struct Vote {
    pub voter: i32,
    pub question: i32,
    pub action: VoteAction,
}

/// A question applied to a vtuber's profile. The pair is unique.
#[derive(Copy, Clone, Debug, PartialEq, Eq, Structural)]
pub struct Application {
    pub question: i32,
    pub vtuber: i32,
}

/// The pending challenge code of an account, as a character sequence.
pub open spec fn spec_challenge(u: User) -> Option<Seq<char>> {
    match u.challenge {
        Some(c) => Some(c@),
        None => None,
    }
}

/// The identifying pair of a follow relationship.
pub open spec fn follow_key(f: Follow) -> (int, int) {
    (f.follower as int, f.followee as int)
}

/// The pair occurs in the follow table.
pub open spec fn seq_has_follow(fs: Seq<Follow>, from: i32, to: i32) -> bool {
    exists|i: int| 0 <= i < fs.len() && follow_key(#[trigger] fs[i]) == (from as int, to as int)
}

/// What one `follow` call persists: nothing if the pair already exists
/// (idempotence), otherwise the new pair.
pub open spec fn spec_follow(fs: Seq<Follow>, from: i32, to: i32, private: bool) -> Seq<Follow> {
    if seq_has_follow(fs, from, to) {
        fs
    } else {
        fs.push(Follow { follower: from, followee: to, private })
    }
}

/// `b` is `a` with its pending challenge code replaced by `code` and
/// everything else kept.
pub open spec fn with_challenge(a: User, b: User, code: Seq<char>) -> bool {
    &&& b.id == a.id
    &&& b.username == a.username
    &&& b.password == a.password
    &&& spec_challenge(b) == Some(code)
    &&& b.role == a.role
    &&& b.blocked == a.blocked
    &&& b.reputation == a.reputation
    &&& b.created == a.created
    &&& b.updated == a.updated
}

/// `b` is `a` with its role replaced and everything else kept.
pub open spec fn with_role(a: User, b: User, role: UserRole) -> bool {
    &&& b.id == a.id
    &&& b.username == a.username
    &&& b.password == a.password
    &&& spec_challenge(b) == spec_challenge(a)
    &&& b.role == role
    &&& b.blocked == a.blocked
    &&& b.reputation == a.reputation
    &&& b.created == a.created
    &&& b.updated == a.updated
}

/// The pair occurs in the application table.
pub open spec fn seq_has_app(aps: Seq<Application>, qid: i32, uid: i32) -> bool {
    exists|i: int| 0 <= i < aps.len() && app_key(#[trigger] aps[i]) == (qid as int, uid as int)
}

/// What one application call persists: nothing if the pair already exists,
/// otherwise the new pair.
pub open spec fn spec_apply(aps: Seq<Application>, qid: i32, uid: i32) -> Seq<Application> {
    if seq_has_app(aps, qid, uid) {
        aps
    } else {
        aps.push(Application { question: qid, vtuber: uid })
    }
}

/// `b` is `a` soft-deleted: every field kept, the deleted flag set.
pub open spec fn spec_soft_deleted(a: Question, b: Question) -> bool {
    &&& b.id == a.id
    &&& b.creator == a.creator
    &&& b.description@ == a.description@
    &&& b.choices.deep_view() == a.choices.deep_view()
    &&& b.answer@ == a.answer@
    &&& b.question_type == a.question_type
    &&& b.audiences.deep_view() == a.audiences.deep_view()
    &&& b.draft == a.draft
    &&& b.deleted == true
    &&& b.created == a.created
    &&& b.updated == a.updated
}

/// Outcome of one attempt to persist a challenge code.
#[derive(Copy, Clone, Debug, PartialEq, Eq, Structural)]
pub enum ChallengeAttempt {
    /// The code is now the account's pending challenge.
    Persisted,
    /// Another account already holds this code: the transient
    /// unique-violation outcome; the caller draws a new code and retries.
    CodeTaken,
}

/// The identifying pair of an application.
pub open spec fn app_key(a: Application) -> (int, int) {
    (a.question as int, a.vtuber as int)
}

/// Accounts table invariant: ids positive, below the running bound, and
/// unique; usernames unique; pending challenge codes unique when present.
pub open spec fn users_wf(users: Seq<User>, bound: int) -> bool {
    &&& 1 <= bound <= i32::MAX
    &&& forall|i: int| 0 <= i < users.len() ==> 1 <= (#[trigger] users[i]).id < bound
    &&& forall|i: int, j: int|
        0 <= i < j < users.len() ==> (#[trigger] users[i]).id != (#[trigger] users[j]).id
    &&& forall|i: int, j: int|
        0 <= i < j < users.len() ==> (#[trigger] users[i]).username@
            != (#[trigger] users[j]).username@
    &&& forall|i: int, j: int|
        0 <= i < users.len() && 0 <= j < users.len() && i != j && spec_challenge(
            #[trigger] users[i],
        ) is Some && spec_challenge(#[trigger] users[j]) is Some ==> spec_challenge(users[i])
            != spec_challenge(users[j])
}

/// Questions table invariant: ids positive, below the running bound, and
/// unique; every persisted record satisfies its per-type validity rules.
pub open spec fn questions_wf(qs: Seq<Question>, bound: int) -> bool {
    &&& 1 <= bound <= i32::MAX
    &&& forall|i: int| 0 <= i < qs.len() ==> 1 <= (#[trigger] qs[i]).id < bound
    &&& forall|i: int, j: int|
        0 <= i < j < qs.len() ==> (#[trigger] qs[i]).id != (#[trigger] qs[j]).id
    &&& forall|i: int| 0 <= i < qs.len() ==> spec_valid_question(#[trigger] qs[i])
}

/// Follow table invariant: the (follower, followee) pair is unique.
pub open spec fn follows_wf(fs: Seq<Follow>) -> bool {
    forall|i: int, j: int|
        0 <= i < j < fs.len() ==> follow_key(#[trigger] fs[i]) != follow_key(#[trigger] fs[j])
}

/// Application table invariant: the (question, vtuber) pair is unique.
pub open spec fn applications_wf(aps: Seq<Application>) -> bool {
    forall|i: int, j: int|
        0 <= i < j < aps.len() ==> app_key(#[trigger] aps[i]) != app_key(#[trigger] aps[j])
}

/// The in-memory store.
pub struct Store {
    users: Vec<User>,
    questions: Vec<Question>,
    follows: Vec<Follow>,
    votes: Vec<Vote>,
    applications: Vec<Application>,
    next_user_id: i32,
    next_question_id: i32,
}

impl Store {
    /// The accounts, in insertion order.
    pub closed spec fn users(self) -> Seq<User> {
        self.users@
    }

    /// The questions, in insertion order.
    pub closed spec fn questions(self) -> Seq<Question> {
        self.questions@
    }

    /// The follow relationships, in insertion order.
    pub closed spec fn follows(self) -> Seq<Follow> {
        self.follows@
    }

    /// The recorded votes, in insertion order.
    pub closed spec fn votes(self) -> Seq<Vote> {
        self.votes@
    }

    /// The question-to-vtuber applications, in insertion order.
    pub closed spec fn applications(self) -> Seq<Application> {
        self.applications@
    }

    /// The next account id the store will assign.
    pub closed spec fn user_id_bound(self) -> int {
        self.next_user_id as int
    }

    /// The next question id the store will assign.
    pub closed spec fn question_id_bound(self) -> int {
        self.next_question_id as int
    }

    /// The consistency guarantees the store arbitrates: ids are assigned
    /// below the running bounds and are unique; usernames are unique;
    /// pending challenge codes, when present, are unique; follow pairs and
    /// application pairs are unique; every persisted question satisfies
    /// its per-type validity rules.
    pub open spec fn wf(self) -> bool {
        &&& users_wf(self.users(), self.user_id_bound())
        &&& questions_wf(self.questions(), self.question_id_bound())
        &&& follows_wf(self.follows())
        &&& applications_wf(self.applications())
    }

    /// An account with this username exists.
    pub open spec fn has_username(self, name: Seq<char>) -> bool {
        exists|i: int| 0 <= i < self.users().len() && self.users()[i].username@ == name
    }

    /// An account with this id exists.
    pub open spec fn has_user_id(self, id: i32) -> bool {
        exists|i: int| 0 <= i < self.users().len() && self.users()[i].id == id
    }

    /// A question with this id exists.
    pub open spec fn has_question_id(self, id: i32) -> bool {
        exists|i: int| 0 <= i < self.questions().len() && self.questions()[i].id == id
    }

    /// This follow pair is persisted.
    pub open spec fn has_follow(self, from: i32, to: i32) -> bool {
        seq_has_follow(self.follows(), from, to)
    }

    /// This application pair is persisted.
    pub open spec fn has_application(self, qid: i32, uid: i32) -> bool {
        seq_has_app(self.applications(), qid, uid)
    }

    /// Some other account (not `id`) already holds this challenge code.
    pub open spec fn code_held_by_other(self, id: i32, code: Seq<char>) -> bool {
        exists|i: int|
            0 <= i < self.users().len() && (#[trigger] self.users()[i]).id != id && spec_challenge(
                self.users()[i],
            ) == Some(code)
    }

    /// An empty store.
    pub fn new() -> (r: Store)
        ensures
            r.wf(),
            r.users() =~= Seq::<User>::empty(),
            r.questions() =~= Seq::<Question>::empty(),
            r.follows() =~= Seq::<Follow>::empty(),
            r.votes() =~= Seq::<Vote>::empty(),
            r.applications() =~= Seq::<Application>::empty(),
    {
        Store {
            users: Vec::new(),
            questions: Vec::new(),
            follows: Vec::new(),
            votes: Vec::new(),
            applications: Vec::new(),
            next_user_id: 1,
            next_question_id: 1,
        }
    }

    /// Index of the account with this username, if any.
    fn find_user_by_name(&self, name: &str) -> (r: Option<usize>)
        ensures
            r matches Some(i) ==> 0 <= i < self.users().len() && self.users()[i as int].username@
                == name@,
            r is None ==> forall|i: int|
                0 <= i < self.users().len() ==> (#[trigger] self.users()[i]).username@ != name@,
    {
        let mut i: usize = 0;
        while i < self.users.len()
            invariant
                i <= self.users().len(),
                forall|k: int| 0 <= k < i ==> (#[trigger] self.users()[k]).username@ != name@,
            decreases self.users().len() - i,
        {
            if str_eq(self.users[i].username.as_str(), name) {
                return Some(i);
            }
            i = i + 1;
        }
        None
    }

    /// Index of the account with this id, if any.
    fn find_user_by_id(&self, id: i32) -> (r: Option<usize>)
        ensures
            r matches Some(i) ==> 0 <= i < self.users().len() && self.users()[i as int].id == id,
            r is None ==> forall|i: int|
                0 <= i < self.users().len() ==> (#[trigger] self.users()[i]).id != id,
    {
        let mut i: usize = 0;
        while i < self.users.len()
            invariant
                i <= self.users().len(),
                forall|k: int| 0 <= k < i ==> (#[trigger] self.users()[k]).id != id,
            decreases self.users().len() - i,
        {
            if self.users[i].id == id {
                return Some(i);
            }
            i = i + 1;
        }
        None
    }

    /// Creates an account under an already-derived password hash. The
    /// username must be free: a taken username is a conflict, reported as
    /// such and nothing else; the store is the arbiter of that race.
    pub fn create_user(&mut self, username: &str, password_hash: String, now: i64) -> (r: Result<
        i32,
        Error,
    >)
        requires
            old(self).wf(),
        ensures
            final(self).wf(),
            old(self).has_username(username@) ==> r == Err::<i32, Error>(Error::ConflictUsername)
                && *final(self) == *old(self),
            !old(self).has_username(username@) && old(self).user_id_bound() == i32::MAX ==> r
                == Err::<i32, Error>(Error::StorageFailure) && *final(self) == *old(self),
            !old(self).has_username(username@) && old(self).user_id_bound() < i32::MAX ==> {
                &&& r matches Ok(id) && id == old(self).user_id_bound()
                &&& final(self).users().len() == old(self).users().len() + 1
                &&& final(self).users().drop_last() =~= old(self).users()
                &&& {
                    let u = final(self).users().last();
                    &&& u.id == old(self).user_id_bound()
                    &&& u.username@ == username@
                    &&& u.password == password_hash
                    &&& u.challenge is None
                    &&& u.role == UserRole::Normal
                    &&& u.blocked == false
                    &&& u.reputation == 0
                    &&& u.created == now
                    &&& u.updated == now
                }
            },
            final(self).questions() == old(self).questions(),
            final(self).follows() == old(self).follows(),
            final(self).votes() == old(self).votes(),
            final(self).applications() == old(self).applications(),
    {
        if self.find_user_by_name(username).is_some() {
            return Err(Error::ConflictUsername);
        }
        if self.next_user_id == i32::MAX {
            return Err(Error::StorageFailure);
        }
        let id = self.next_user_id;
        let user = User {
            id,
            username: username.to_owned(),
            password: password_hash,
            challenge: None,
            role: UserRole::Normal,
            blocked: false,
            reputation: 0,
            created: now,
            updated: now,
        };
        let ghost gu = user;
        self.users.push(user);
        self.next_user_id = id + 1;
        proof {
            let olds = old(self).users();
            let news = self.users();
            assert(news == olds.push(gu));
            assert(forall|i: int| 0 <= i < olds.len() ==> news[i] == olds[i]);
            assert(news[news.len() - 1] == gu);
            assert forall|i: int, j: int| 0 <= i < j < news.len() implies news[i].username@
                != news[j].username@ by {
                if j == news.len() - 1 {
                    assert(news[i].username@ != username@);
                }
            }
            assert forall|i: int, j: int| 0 <= i < j < news.len() implies news[i].id
                != news[j].id by {
                if j == news.len() - 1 {
                    assert(1 <= news[i].id < old(self).user_id_bound());
                }
            }
            assert forall|i: int, j: int|
                0 <= i < news.len() && 0 <= j < news.len() && i != j && spec_challenge(
                    news[i],
                ) is Some && spec_challenge(news[j]) is Some implies spec_challenge(news[i])
                != spec_challenge(news[j]) by {
                assert(spec_challenge(gu) is None);
            }
        }
        Ok(id)
    }

    /// The account with this username; a missing row is a plain not-found
    /// here (login has its own rule).
    pub fn get_user_by_username(&self, username: &str) -> (r: Result<&User, Error>)
        ensures
            r matches Ok(u) ==> exists|i: int|
                0 <= i < self.users().len() && *u == self.users()[i] && u.username@ == username@,
            r is Err <==> !self.has_username(username@),
            r is Err ==> r == Err::<&User, Error>(Error::NotFound),
    {
        match self.find_user_by_name(username) {
            Some(i) => Ok(&self.users[i]),
            None => Err(Error::NotFound),
        }
    }

    /// The account with this id; a missing row is a plain not-found.
    pub fn get_user_by_id(&self, id: i32) -> (r: Result<&User, Error>)
        ensures
            r matches Ok(u) ==> exists|i: int|
                0 <= i < self.users().len() && *u == self.users()[i] && u.id == id,
            r is Err <==> !self.has_user_id(id),
            r is Err ==> r == Err::<&User, Error>(Error::NotFound),
    {
        match self.find_user_by_id(id) {
            Some(i) => Ok(&self.users[i]),
            None => Err(Error::NotFound),
        }
    }

    /// Registration: hashes the password under a fresh salt and creates
    /// the account. A taken username is a conflict; the hash never leaves
    /// the credential store except inside the account record.
    pub fn register(&mut self, username: &str, password: &[u8], now: i64) -> (r: Result<i32, Error>)
        requires
            old(self).wf(),
            password@.len() < 0x1_0000_0000,
        ensures
            final(self).wf(),
            old(self).has_username(username@) ==> r == Err::<i32, Error>(Error::ConflictUsername)
                && *final(self) == *old(self),
            !old(self).has_username(username@) && old(self).user_id_bound() < i32::MAX ==> r is Ok,
            r matches Ok(id) ==> {
                &&& !old(self).has_username(username@)
                &&& final(self).users().len() == old(self).users().len() + 1
                &&& final(self).users().drop_last() =~= old(self).users()
                &&& {
                    let u = final(self).users().last();
                    &&& u.id == id
                    &&& u.username@ == username@
                    &&& credential::credential_matches(u.password@, password@)
                    &&& u.role == UserRole::Normal
                    &&& u.created == now
                }
            },
            final(self).questions() == old(self).questions(),
            final(self).follows() == old(self).follows(),
            final(self).votes() == old(self).votes(),
            final(self).applications() == old(self).applications(),
    {
        let hashed = credential::hash(password);
        self.create_user(username, hashed, now)
    }

    /// Login. A missing username and a wrong password yield the identical
    /// invalid-credential outcome: the caller cannot tell which happened.
    pub fn login(&self, username: &str, password: &[u8]) -> (r: Result<User, Error>)
        requires
            self.wf(),
        ensures
            r matches Ok(u) ==> exists|i: int|
                {
                    &&& 0 <= i < self.users().len()
                    &&& u == self.users()[i]
                    &&& u.username@ == username@
                    &&& credential::credential_matches(u.password@, password@)
                },
            r is Err ==> r == Err::<User, Error>(Error::InvalidCredential),
            r is Err <==> !(exists|i: int|
                0 <= i < self.users().len() && (#[trigger] self.users()[i]).username@ == username@
                    && credential::credential_matches(self.users()[i].password@, password@)),
    {
        match self.find_user_by_name(username) {
            Some(i) => {
                if credential::verify(self.users[i].password.as_str(), password) {
                    let u = self.users[i].clone();
                    Ok(u)
                } else {
                    proof {
                        assert forall|j: int|
                            0 <= j < self.users().len() && (#[trigger] self.users()[j]).username@
                                == username@ implies !credential::credential_matches(
                            self.users()[j].password@,
                            password@,
                        ) by {
                            if j != i as int {
                                assert(self.users()[j].username@ != self.users()[i as int].username@);
                            }
                        }
                    }
                    Err(Error::InvalidCredential)
                }
            },
            None => Err(Error::InvalidCredential),
        }
    }

    /// Sets an account's role; a missing account is a plain not-found.
    pub fn set_role(&mut self, id: i32, role: UserRole) -> (r: Result<(), Error>)
        requires
            old(self).wf(),
        ensures
            final(self).wf(),
            r is Err <==> !old(self).has_user_id(id),
            r is Err ==> r == Err::<(), Error>(Error::NotFound) && *final(self) == *old(self),
            r is Ok ==> {
                &&& final(self).users().len() == old(self).users().len()
                &&& forall|i: int|
                    0 <= i < old(self).users().len() && (#[trigger] old(self).users()[i]).id != id
                        ==> final(self).users()[i] == old(self).users()[i]
                &&& forall|i: int|
                    0 <= i < old(self).users().len() && (#[trigger] old(self).users()[i]).id == id
                        ==> with_role(old(self).users()[i], final(self).users()[i], role)
            },
            final(self).questions() == old(self).questions(),
            final(self).follows() == old(self).follows(),
            final(self).votes() == old(self).votes(),
            final(self).applications() == old(self).applications(),
    {
        match self.find_user_by_id(id) {
            None => Err(Error::NotFound),
            Some(i) => {
                let u = &self.users[i];
                let updated = User {
                    id: u.id,
                    username: u.username.clone(),
                    password: u.password.clone(),
                    challenge: match &u.challenge {
                        Some(c) => Some(c.clone()),
                        None => None,
                    },
                    role,
                    blocked: u.blocked,
                    reputation: u.reputation,
                    created: u.created,
                    updated: u.updated,
                };
                self.users.set(i, updated);
                proof {
                    let olds = old(self).users();
                    let news = self.users();
                    assert forall|a: int, b: int| 0 <= a < b < news.len() implies news[a].username@
                        != news[b].username@ by {
                        assert(olds[a].username@ != olds[b].username@);
                        assert(news[a].username@ == olds[a].username@);
                        assert(news[b].username@ == olds[b].username@);
                    }
                    assert forall|a: int, b: int| 0 <= a < b < news.len() implies news[a].id
                        != news[b].id by {
                        assert(olds[a].id != olds[b].id);
                    }
                    assert forall|a: int|
                        0 <= a < news.len() implies 1 <= (#[trigger] news[a]).id
                        < self.user_id_bound() by {
                        assert(1 <= olds[a].id < old(self).user_id_bound());
                    }
                    assert forall|a: int, b: int|
                        0 <= a < news.len() && 0 <= b < news.len() && a != b && spec_challenge(
                            #[trigger] news[a],
                        ) is Some && spec_challenge(#[trigger] news[b]) is Some implies
                        spec_challenge(news[a]) != spec_challenge(news[b]) by {
                        assert(spec_challenge(news[i as int]) == spec_challenge(olds[i as int]));
                        assert(spec_challenge(olds[a]) != spec_challenge(olds[b]) || !(
                        spec_challenge(olds[a]) is Some) || !(spec_challenge(olds[b]) is Some));
                    }
                }
                Ok(())
            },
        }
    }

    /// Index of an account other than `id` that holds `code` as its
    /// pending challenge, if any.
    fn find_code_holder(&self, id: i32, code: &str) -> (r: Option<usize>)
        ensures
            r matches Some(i) ==> 0 <= i < self.users().len() && self.users()[i as int].id != id
                && spec_challenge(self.users()[i as int]) == Some(code@),
            r is None ==> !self.code_held_by_other(id, code@),
    {
        let mut i: usize = 0;
        while i < self.users.len()
            invariant
                i <= self.users().len(),
                forall|k: int|
                    0 <= k < i ==> !((#[trigger] self.users()[k]).id != id && spec_challenge(
                        self.users()[k],
                    ) == Some(code@)),
            decreases self.users().len() - i,
        {
            if self.users[i].id != id {
                match &self.users[i].challenge {
                    Some(c) => {
                        if str_eq(c.as_str(), code) {
                            return Some(i);
                        }
                    },
                    None => {},
                }
            }
            i = i + 1;
        }
        None
    }

    /// One attempt to persist `code` as the pending challenge of account
    /// `id`. A code held by another account is the transient conflict the
    /// caller retries on; the uniqueness of persisted codes is preserved
    /// either way. An unknown account id is silently absorbed, as an
    /// update of zero rows would be.
    pub fn create_or_replace_challenge(&mut self, id: i32, code: &str) -> (r: ChallengeAttempt)
        requires
            old(self).wf(),
        ensures
            final(self).wf(),
            r == ChallengeAttempt::CodeTaken <==> old(self).code_held_by_other(id, code@),
            r == ChallengeAttempt::CodeTaken ==> *final(self) == *old(self),
            r == ChallengeAttempt::Persisted ==> {
                &&& final(self).users().len() == old(self).users().len()
                &&& forall|i: int|
                    0 <= i < old(self).users().len() && (#[trigger] old(self).users()[i]).id != id
                        ==> final(self).users()[i] == old(self).users()[i]
                &&& forall|i: int|
                    0 <= i < old(self).users().len() && (#[trigger] old(self).users()[i]).id == id
                        ==> with_challenge(old(self).users()[i], final(self).users()[i], code@)
            },
            final(self).questions() == old(self).questions(),
            final(self).follows() == old(self).follows(),
            final(self).votes() == old(self).votes(),
            final(self).applications() == old(self).applications(),
    {
        if self.find_code_holder(id, code).is_some() {
            return ChallengeAttempt::CodeTaken;
        }
        let target = self.find_user_by_id(id);
        match target {
            None => ChallengeAttempt::Persisted,
            Some(i) => {
                let u = &self.users[i];
                let updated = User {
                    id: u.id,
                    username: u.username.clone(),
                    password: u.password.clone(),
                    challenge: Some(code.to_owned()),
                    role: u.role,
                    blocked: u.blocked,
                    reputation: u.reputation,
                    created: u.created,
                    updated: u.updated,
                };
                self.users.set(i, updated);
                proof {
                    let olds = old(self).users();
                    let news = self.users();
                    assert forall|a: int, b: int| 0 <= a < b < news.len() implies news[a].username@
                        != news[b].username@ by {
                        assert(olds[a].username@ != olds[b].username@);
                        assert(news[a].username@ == olds[a].username@);
                        assert(news[b].username@ == olds[b].username@);
                    }
                    assert forall|a: int, b: int| 0 <= a < b < news.len() implies news[a].id
                        != news[b].id by {
                        assert(olds[a].id != olds[b].id);
                    }
                    assert forall|a: int|
                        0 <= a < news.len() implies 1 <= (#[trigger] news[a]).id < self.user_id_bound() by {
                        assert(1 <= olds[a].id < old(self).user_id_bound());
                    }
                    assert forall|a: int, b: int|
                        0 <= a < news.len() && 0 <= b < news.len() && a != b && spec_challenge(
                            #[trigger] news[a],
                        ) is Some && spec_challenge(#[trigger] news[b]) is Some implies
                        spec_challenge(news[a]) != spec_challenge(news[b]) by {
                        if a == i as int {
                            assert(olds[b].id != olds[a].id);
                            assert(!(olds[b].id != id && spec_challenge(olds[b]) == Some(code@)));
                        } else if b == i as int {
                            assert(olds[a].id != olds[b].id);
                            assert(!(olds[a].id != id && spec_challenge(olds[a]) == Some(code@)));
                        }
                    }
                }
                ChallengeAttempt::Persisted
            },
        }
    }

    /// Index of the question with this id, if any.
    fn find_question(&self, qid: i32) -> (r: Option<usize>)
        ensures
            r matches Some(i) ==> 0 <= i < self.questions().len() && self.questions()[i as int].id
                == qid,
            r is None ==> forall|i: int|
                0 <= i < self.questions().len() ==> (#[trigger] self.questions()[i]).id != qid,
    {
        let mut i: usize = 0;
        while i < self.questions.len()
            invariant
                i <= self.questions().len(),
                forall|k: int| 0 <= k < i ==> (#[trigger] self.questions()[k]).id != qid,
            decreases self.questions().len() - i,
        {
            if self.questions[i].id == qid {
                return Some(i);
            }
            i = i + 1;
        }
        None
    }

    /// Creates a question from validated content. Invalid content, and
    /// content whose answer indices do not fit the persisted 32-bit
    /// representation, is a validation failure; only a valid record is
    /// ever persisted.
    pub fn create_question(&mut self, creator: i32, req: &QuestionCreationRequest, now: i64) -> (r:
        Result<i32, Error>)
        requires
            old(self).wf(),
        ensures
            final(self).wf(),
            !(spec_content_valid(req.content) && spec_answers_fit(req.content)) ==> r == Err::<
                i32,
                Error,
            >(Error::ValidationFailure) && *final(self) == *old(self),
            spec_content_valid(req.content) && spec_answers_fit(req.content) && old(self).question_id_bound() == i32::MAX ==> r == Err::<i32, Error>(Error::StorageFailure)
                && *final(self) == *old(self),
            spec_content_valid(req.content) && spec_answers_fit(req.content) && old(self).question_id_bound() < i32::MAX ==> {
                &&& r matches Ok(id) && id == old(self).question_id_bound()
                &&& final(self).questions().len() == old(self).questions().len() + 1
                &&& final(self).questions().drop_last() =~= old(self).questions()
                &&& {
                    let q = final(self).questions().last();
                    &&& q.id == old(self).question_id_bound()
                    &&& q.creator == creator
                    &&& q.description@ == spec_content_description(req.content)
                    &&& q.choices.deep_view() == spec_content_choices(req.content)
                    &&& q.answer@.map_values(|v: i32| v as int) == spec_content_answer(req.content)
                    &&& q.question_type == spec_content_ty(req.content)
                    &&& q.audiences.deep_view() == req.audiences@.map_values(
                        |a: crate::models::Audience| spec_audience_name(a),
                    )
                    &&& q.draft == req.draft
                    &&& q.deleted == false
                    &&& q.created == now
                    &&& q.updated == now
                    &&& spec_valid_question(q)
                }
            },
            final(self).users() == old(self).users(),
            final(self).follows() == old(self).follows(),
            final(self).votes() == old(self).votes(),
            final(self).applications() == old(self).applications(),
    {
        if !(req.content.content_is_valid() && req.content.answers_fit()) {
            return Err(Error::ValidationFailure);
        }
        if self.next_question_id == i32::MAX {
            return Err(Error::StorageFailure);
        }
        let id = self.next_question_id;
        let q = Question {
            id,
            creator,
            description: req.content.description().to_owned(),
            choices: req.content.choices(),
            answer: req.content.answer(),
            question_type: req.content.ty(),
            audiences: crate::models::audience_names(&req.audiences),
            draft: req.draft,
            deleted: false,
            created: now,
            updated: now,
        };
        let ghost gq = q;
        proof {
            lemma_content_builds_valid_question(req.content, gq);
        }
        self.questions.push(q);
        self.next_question_id = id + 1;
        proof {
            let olds = old(self).questions();
            let news = self.questions();
            assert(news == olds.push(gq));
            assert(forall|i: int| 0 <= i < olds.len() ==> news[i] == olds[i]);
            assert forall|i: int, j: int| 0 <= i < j < news.len() implies (
            #[trigger] news[i]).id != (#[trigger] news[j]).id by {
                if j == news.len() - 1 {
                    assert(1 <= news[i].id < old(self).question_id_bound());
                }
            }
        }
        Ok(id)
    }

    /// The question with this id, deleted or not; a missing row is a plain
    /// not-found.
    pub fn get_question(&self, qid: i32) -> (r: Result<&Question, Error>)
        ensures
            r matches Ok(q) ==> exists|i: int|
                0 <= i < self.questions().len() && *q == self.questions()[i] && q.id == qid,
            r is Err <==> !self.has_question_id(qid),
            r is Err ==> r == Err::<&Question, Error>(Error::NotFound),
    {
        match self.find_question(qid) {
            Some(i) => Ok(&self.questions[i]),
            None => Err(Error::NotFound),
        }
    }

    /// The question as a reader other than its owner sees it: a deleted
    /// question and a question that never existed are indistinguishable,
    /// both not-found.
    pub fn get_question_visible(&self, qid: i32) -> (r: Result<&Question, Error>)
        requires
            self.wf(),
        ensures
            r matches Ok(q) ==> exists|i: int|
                0 <= i < self.questions().len() && *q == self.questions()[i] && q.id == qid
                    && !q.deleted,
            r is Err <==> !(exists|i: int|
                0 <= i < self.questions().len() && (#[trigger] self.questions()[i]).id == qid && !self.questions()[i].deleted),
            r is Err ==> r == Err::<&Question, Error>(Error::NotFound),
    {
        match self.find_question(qid) {
            Some(i) => {
                if self.questions[i].deleted {
                    proof {
                        assert forall|j: int|
                            0 <= j < self.questions().len() && (#[trigger] self.questions()[j]).id
                                == qid implies self.questions()[j].deleted by {
                            if j != i as int {
                                assert(self.questions()[j].id != self.questions()[i as int].id);
                            }
                        }
                    }
                    Err(Error::NotFound)
                } else {
                    Ok(&self.questions[i])
                }
            },
            None => Err(Error::NotFound),
        }
    }

    /// Soft-deletes a question. Only the creator may delete; any other
    /// caller is turned away with an unauthorized outcome, not a
    /// not-found.
    pub fn delete_question(&mut self, qid: i32, caller: i32) -> (r: Result<(), Error>)
        requires
            old(self).wf(),
        ensures
            final(self).wf(),
            !old(self).has_question_id(qid) ==> r == Err::<(), Error>(Error::NotFound) && *final(self) == *old(self),
            forall|i: int|
                0 <= i < old(self).questions().len() && (#[trigger] old(self).questions()[i]).id
                    == qid ==> {
                    &&& (old(self).questions()[i].creator != caller ==> r == Err::<(), Error>(
                        Error::Unauthorized,
                    ) && *final(self) == *old(self))
                    &&& (old(self).questions()[i].creator == caller ==> {
                        &&& r is Ok
                        &&& final(self).questions().len() == old(self).questions().len()
                        &&& (forall|j: int|
                            0 <= j < old(self).questions().len() && j != i ==> final(self).questions()[j] == old(self).questions()[j])
                        &&& spec_soft_deleted(old(self).questions()[i], final(self).questions()[i])
                    })
                },
            final(self).users() == old(self).users(),
            final(self).follows() == old(self).follows(),
            final(self).votes() == old(self).votes(),
            final(self).applications() == old(self).applications(),
    {
        match self.find_question(qid) {
            None => Err(Error::NotFound),
            Some(i) => {
                if self.questions[i].creator != caller {
                    return Err(Error::Unauthorized);
                }
                let q = &self.questions[i];
                let updated = Question {
                    id: q.id,
                    creator: q.creator,
                    description: q.description.clone(),
                    choices: clone_strings(&q.choices),
                    answer: clone_ints(&q.answer),
                    question_type: q.question_type,
                    audiences: clone_strings(&q.audiences),
                    draft: q.draft,
                    deleted: true,
                    created: q.created,
                    updated: q.updated,
                };
                self.questions.set(i, updated);
                proof {
                    self.lemma_questions_replaced(*old(self), i as int);
                }
                Ok(())
            },
        }
    }

    /// After one record of the questions table was replaced by one with
    /// the same id, the same validity, and the table is otherwise
    /// unchanged, the table invariant still holds.
    proof fn lemma_questions_replaced(self, prev: Store, i: int)
        requires
            questions_wf(prev.questions(), prev.question_id_bound()),
            self.question_id_bound() == prev.question_id_bound(),
            self.questions().len() == prev.questions().len(),
            0 <= i < prev.questions().len(),
            forall|j: int|
                0 <= j < prev.questions().len() && j != i ==> self.questions()[j]
                    == prev.questions()[j],
            self.questions()[i].id == prev.questions()[i].id,
            spec_valid_question(self.questions()[i]),
        ensures
            questions_wf(self.questions(), self.question_id_bound()),
    {
        let olds = prev.questions();
        let news = self.questions();
        assert forall|a: int| 0 <= a < news.len() implies 1 <= (#[trigger] news[a]).id
            < self.question_id_bound() by {
            assert(1 <= olds[a].id < prev.question_id_bound());
        }
        assert forall|a: int, b: int| 0 <= a < b < news.len() implies (#[trigger] news[a]).id != (
        #[trigger] news[b]).id by {
            assert(olds[a].id != olds[b].id);
        }
        assert forall|a: int| 0 <= a < news.len() implies spec_valid_question(
            #[trigger] news[a],
        ) by {
            if a != i {
                assert(news[a] == olds[a]);
                assert(spec_valid_question(olds[a]));
            }
        }
    }

    /// Index of the follow pair, if persisted.
    fn find_follow(&self, from: i32, to: i32) -> (r: Option<usize>)
        ensures
            r matches Some(i) ==> 0 <= i < self.follows().len() && follow_key(
                self.follows()[i as int],
            ) == (from as int, to as int),
            r is None ==> !self.has_follow(from, to),
    {
        let mut i: usize = 0;
        while i < self.follows.len()
            invariant
                i <= self.follows().len(),
                forall|k: int|
                    0 <= k < i ==> follow_key(#[trigger] self.follows()[k]) != (
                        from as int,
                        to as int,
                    ),
            decreases self.follows().len() - i,
        {
            if self.follows[i].follower == from && self.follows[i].followee == to {
                return Some(i);
            }
            i = i + 1;
        }
        None
    }

    /// Inserts a follow pair. A pair that already exists is left as it is
    /// and the call succeeds silently: insertion is idempotent, a repeated
    /// call is not an error.
    pub fn follow(&mut self, from: i32, to: i32, private: bool) -> (r: Result<(), Error>)
        requires
            old(self).wf(),
        ensures
            final(self).wf(),
            r is Ok,
            final(self).follows() == spec_follow(old(self).follows(), from, to, private),
            old(self).has_follow(from, to) ==> *final(self) == *old(self),
            final(self).has_follow(from, to),
            final(self).users() == old(self).users(),
            final(self).questions() == old(self).questions(),
            final(self).votes() == old(self).votes(),
            final(self).applications() == old(self).applications(),
    {
        let pair = Follow { follower: from, followee: to, private };
        if self.find_follow(from, to).is_some() {
            return Ok(());
        }
        self.follows.push(pair);
        proof {
            let news = self.follows();
            assert(follow_key(news[news.len() - 1]) == (from as int, to as int));
            assert forall|a: int, b: int| 0 <= a < b < news.len() implies follow_key(
                #[trigger] news[a],
            ) != follow_key(#[trigger] news[b]) by {
                if b == news.len() - 1 {
                    assert(follow_key(old(self).follows()[a]) != (from as int, to as int));
                }
            }
        }
        Ok(())
    }

    /// Deletes a follow pair if present; the absence of the pair is not an
    /// error.
    pub fn unfollow(&mut self, from: i32, to: i32) -> (r: Result<(), Error>)
        requires
            old(self).wf(),
        ensures
            final(self).wf(),
            r is Ok,
            !old(self).has_follow(from, to) ==> *final(self) == *old(self),
            old(self).has_follow(from, to) ==> exists|k: int|
                {
                    &&& 0 <= k < old(self).follows().len()
                    &&& follow_key(#[trigger] old(self).follows()[k]) == (from as int, to as int)
                    &&& final(self).follows() == old(self).follows().remove(k)
                },
            !final(self).has_follow(from, to),
            final(self).users() == old(self).users(),
            final(self).questions() == old(self).questions(),
            final(self).votes() == old(self).votes(),
            final(self).applications() == old(self).applications(),
    {
        match self.find_follow(from, to) {
            None => Ok(()),
            Some(k) => {
                self.follows.remove(k);
                proof {
                    let olds = old(self).follows();
                    let news = self.follows();
                    assert forall|a: int, b: int| 0 <= a < b < news.len() implies follow_key(
                        #[trigger] news[a],
                    ) != follow_key(#[trigger] news[b]) by {
                        let oa: int = if a < k as int { a } else { a + 1 };
                        let ob: int = if b < k as int { b } else { b + 1 };
                        assert(news[a] == olds[oa]);
                        assert(news[b] == olds[ob]);
                        assert(follow_key(olds[oa]) != follow_key(olds[ob]));
                    }
                    assert forall|a: int| 0 <= a < news.len() implies follow_key(
                        #[trigger] news[a],
                    ) != (from as int, to as int) by {
                        let oa: int = if a < k as int { a } else { a + 1 };
                        assert(news[a] == olds[oa]);
                        if oa < k as int {
                            assert(follow_key(olds[oa]) != follow_key(olds[k as int]));
                        } else {
                            assert(follow_key(olds[k as int]) != follow_key(olds[oa]));
                        }
                    }
                }
                Ok(())
            },
        }
    }

    /// Whether the pair is persisted.
    pub fn is_following(&self, from: i32, to: i32) -> (r: bool)
        ensures
            r == self.has_follow(from, to),
    {
        match self.find_follow(from, to) {
            Some(i) => {
                proof {
                    assert(follow_key(self.follows()[i as int]) == (from as int, to as int));
                }
                true
            },
            None => false,
        }
    }

    /// Number of persisted follow relationships.
    pub fn follow_count(&self) -> (r: usize)
        ensures
            r == self.follows().len(),
    {
        self.follows.len()
    }

    /// Number of recorded votes.
    pub fn vote_count(&self) -> (r: usize)
        ensures
            r == self.votes().len(),
    {
        self.votes.len()
    }

    /// Number of accounts.
    pub fn user_count(&self) -> (r: usize)
        ensures
            r == self.users().len(),
    {
        self.users.len()
    }

    /// Number of questions, soft-deleted ones included.
    pub fn question_count(&self) -> (r: usize)
        ensures
            r == self.questions().len(),
    {
        self.questions.len()
    }

    /// Updates a question. The caller's record must carry the addressed id
    /// and be valid in itself; only the creator may update; and only the
    /// caller-mutable fields are taken over — under the stored type the
    /// merged record must still be valid, since only valid records are
    /// persisted. The update timestamp is always server-set.
    pub fn update_question(&mut self, qid: i32, submitted: &Question, caller: i32, now: i64) -> (r:
        Result<(), Error>)
        requires
            old(self).wf(),
        ensures
            final(self).wf(),
            qid != submitted.id || !spec_valid_question(*submitted) ==> r == Err::<(), Error>(
                Error::ValidationFailure,
            ) && *final(self) == *old(self),
            qid == submitted.id && spec_valid_question(*submitted) && !old(self).has_question_id(
                qid,
            ) ==> r == Err::<(), Error>(Error::NotFound) && *final(self) == *old(self),
            qid == submitted.id && spec_valid_question(*submitted) ==> forall|i: int|
                0 <= i < old(self).questions().len() && (#[trigger] old(self).questions()[i]).id
                    == qid ==> {
                    let orig = old(self).questions()[i];
                    &&& (orig.creator != caller ==> r == Err::<(), Error>(Error::Unauthorized)
                        && *final(self) == *old(self))
                    &&& (orig.creator == caller && !spec_valid_parts(
                        orig.question_type,
                        submitted.choices.deep_view(),
                        submitted.answer@.map_values(|v: i32| v as int),
                    ) ==> r == Err::<(), Error>(Error::ValidationFailure) && *final(self) == *old(self))
                    &&& (orig.creator == caller && spec_valid_parts(
                        orig.question_type,
                        submitted.choices.deep_view(),
                        submitted.answer@.map_values(|v: i32| v as int),
                    ) ==> {
                        &&& r is Ok
                        &&& final(self).questions().len() == old(self).questions().len()
                        &&& (forall|j: int|
                            0 <= j < old(self).questions().len() && j != i ==> final(self).questions()[j] == old(self).questions()[j])
                        &&& spec_merged(orig, *submitted, now, final(self).questions()[i])
                    })
                },
            final(self).users() == old(self).users(),
            final(self).follows() == old(self).follows(),
            final(self).votes() == old(self).votes(),
            final(self).applications() == old(self).applications(),
    {
        if qid != submitted.id || !submitted.is_valid() {
            return Err(Error::ValidationFailure);
        }
        match self.find_question(qid) {
            None => Err(Error::NotFound),
            Some(i) => {
                if self.questions[i].creator != caller {
                    return Err(Error::Unauthorized);
                }
                let merged = self.questions[i].apply_update(submitted, now);
                if !merged.is_valid() {
                    return Err(Error::ValidationFailure);
                }
                self.questions.set(i, merged);
                proof {
                    self.lemma_questions_replaced(*old(self), i as int);
                }
                Ok(())
            },
        }
    }

    /// Records a vote. The question must exist; the creator may not vote
    /// on their own question; a draft or soft-deleted question takes no
    /// votes; the action must be one of the four recognized identifiers —
    /// each a validation failure, not a generic one. Repeated identical
    /// votes are recorded again, deliberately: deduplication is left to
    /// the storage layer.
    pub fn vote_to_question(&mut self, voter: i32, qid: i32, action: &str) -> (r: Result<(), Error>)
        requires
            old(self).wf(),
        ensures
            final(self).wf(),
            !old(self).has_question_id(qid) ==> r == Err::<(), Error>(Error::NotFound) && *final(self) == *old(self),
            forall|i: int|
                0 <= i < old(self).questions().len() && (#[trigger] old(self).questions()[i]).id
                    == qid ==> {
                    let q = old(self).questions()[i];
                    &&& (q.creator == voter || q.draft || q.deleted ==> r == Err::<(), Error>(
                        Error::ValidationFailure,
                    ) && *final(self) == *old(self))
                    &&& (!(q.creator == voter || q.draft || q.deleted)
                        && spec_parse_vote_action(action@) is None ==> r == Err::<(), Error>(
                        Error::ValidationFailure,
                    ) && *final(self) == *old(self))
                    &&& (!(q.creator == voter || q.draft || q.deleted) ==> (spec_parse_vote_action(
                        action@,
                    ) matches Some(a) ==> {
                        &&& r is Ok
                        &&& final(self).votes() == old(self).votes().push(
                            Vote { voter, question: qid, action: a },
                        )
                    }))
                },
            final(self).users() == old(self).users(),
            final(self).questions() == old(self).questions(),
            final(self).follows() == old(self).follows(),
            final(self).applications() == old(self).applications(),
    {
        match self.find_question(qid) {
            None => Err(Error::NotFound),
            Some(i) => {
                let q = &self.questions[i];
                if q.creator == voter || q.draft || q.deleted {
                    return Err(Error::ValidationFailure);
                }
                match VoteAction::parse(action) {
                    None => Err(Error::ValidationFailure),
                    Some(a) => {
                        self.votes.push(Vote { voter, question: qid, action: a });
                        Ok(())
                    },
                }
            },
        }
    }

    /// Index of the application pair, if persisted.
    fn find_application(&self, qid: i32, uid: i32) -> (r: Option<usize>)
        ensures
            r matches Some(i) ==> 0 <= i < self.applications().len() && app_key(
                self.applications()[i as int],
            ) == (qid as int, uid as int),
            r is None ==> !self.has_application(qid, uid),
    {
        let mut i: usize = 0;
        while i < self.applications.len()
            invariant
                i <= self.applications().len(),
                forall|k: int|
                    0 <= k < i ==> app_key(#[trigger] self.applications()[k]) != (
                        qid as int,
                        uid as int,
                    ),
            decreases self.applications().len() - i,
        {
            if self.applications[i].question == qid && self.applications[i].vtuber == uid {
                return Some(i);
            }
            i = i + 1;
        }
        None
    }

    /// Applies a question to a vtuber's profile. Only the creator may
    /// apply their question; the target account must exist and carry the
    /// vtuber role; an already-persisted pair is left as it is.
    pub fn apply_question_to_vtuber(&mut self, qid: i32, uid: i32, caller: i32) -> (r: Result<
        (),
        Error,
    >)
        requires
            old(self).wf(),
        ensures
            final(self).wf(),
            !old(self).has_question_id(qid) ==> r == Err::<(), Error>(Error::NotFound) && *final(self) == *old(self),
            forall|i: int|
                0 <= i < old(self).questions().len() && (#[trigger] old(self).questions()[i]).id
                    == qid ==> {
                    let q = old(self).questions()[i];
                    &&& (q.creator != caller ==> r == Err::<(), Error>(Error::Unauthorized)
                        && *final(self) == *old(self))
                    &&& (q.creator == caller && !old(self).has_user_id(uid) ==> r == Err::<
                        (),
                        Error,
                    >(Error::NotFound) && *final(self) == *old(self))
                    &&& (q.creator == caller ==> forall|j: int|
                        0 <= j < old(self).users().len() && (#[trigger] old(self).users()[j]).id
                            == uid ==> {
                            let u = old(self).users()[j];
                            &&& (u.role != UserRole::Vtuber ==> r == Err::<(), Error>(
                                Error::ValidationFailure,
                            ) && *final(self) == *old(self))
                            &&& (u.role == UserRole::Vtuber ==> {
                                &&& r is Ok
                                &&& final(self).applications() == spec_apply(
                                    old(self).applications(),
                                    qid,
                                    uid,
                                )
                                &&& final(self).has_application(qid, uid)
                            })
                        })
                },
            final(self).users() == old(self).users(),
            final(self).questions() == old(self).questions(),
            final(self).follows() == old(self).follows(),
            final(self).votes() == old(self).votes(),
    {
        if self.find_question(qid).is_none() {
            return Err(Error::NotFound);
        }
        let qi = self.find_question(qid).unwrap();
        if self.questions[qi].creator != caller {
            return Err(Error::Unauthorized);
        }
        match self.find_user_by_id(uid) {
            None => Err(Error::NotFound),
            Some(ui) => {
                if !matches!(self.users[ui].role, UserRole::Vtuber) {
                    return Err(Error::ValidationFailure);
                }
                if self.find_application(qid, uid).is_some() {
                    return Ok(());
                }
                self.applications.push(Application { question: qid, vtuber: uid });
                proof {
                    let news = self.applications();
                    assert(app_key(news[news.len() - 1]) == (qid as int, uid as int));
                    assert forall|a: int, b: int| 0 <= a < b < news.len() implies app_key(
                        #[trigger] news[a],
                    ) != app_key(#[trigger] news[b]) by {
                        if b == news.len() - 1 {
                            assert(app_key(old(self).applications()[a]) != (qid as int, uid as int));
                        }
                    }
                }
                Ok(())
            },
        }
    }

    /// Removes an applied question from a vtuber's profile, under the same
    /// authorization rules as applying; the absence of the pair is not an
    /// error.
    pub fn remove_question_to_vtuber(&mut self, qid: i32, uid: i32, caller: i32) -> (r: Result<
        (),
        Error,
    >)
        requires
            old(self).wf(),
        ensures
            final(self).wf(),
            !old(self).has_question_id(qid) ==> r == Err::<(), Error>(Error::NotFound) && *final(self) == *old(self),
            forall|i: int|
                0 <= i < old(self).questions().len() && (#[trigger] old(self).questions()[i]).id
                    == qid ==> {
                    let q = old(self).questions()[i];
                    &&& (q.creator != caller ==> r == Err::<(), Error>(Error::Unauthorized)
                        && *final(self) == *old(self))
                    &&& (q.creator == caller && !old(self).has_user_id(uid) ==> r == Err::<
                        (),
                        Error,
                    >(Error::NotFound) && *final(self) == *old(self))
                    &&& (q.creator == caller ==> forall|j: int|
                        0 <= j < old(self).users().len() && (#[trigger] old(self).users()[j]).id
                            == uid ==> {
                            let u = old(self).users()[j];
                            &&& (u.role != UserRole::Vtuber ==> r == Err::<(), Error>(
                                Error::ValidationFailure,
                            ) && *final(self) == *old(self))
                            &&& (u.role == UserRole::Vtuber ==> {
                                &&& r is Ok
                                &&& !final(self).has_application(qid, uid)
                                &&& (!old(self).has_application(qid, uid) ==> *final(self) == *old(self))
                            })
                        })
                },
            final(self).users() == old(self).users(),
            final(self).questions() == old(self).questions(),
            final(self).follows() == old(self).follows(),
            final(self).votes() == old(self).votes(),
    {
        if self.find_question(qid).is_none() {
            return Err(Error::NotFound);
        }
        let qi = self.find_question(qid).unwrap();
        if self.questions[qi].creator != caller {
            return Err(Error::Unauthorized);
        }
        match self.find_user_by_id(uid) {
            None => Err(Error::NotFound),
            Some(ui) => {
                if !matches!(self.users[ui].role, UserRole::Vtuber) {
                    return Err(Error::ValidationFailure);
                }
                match self.find_application(qid, uid) {
                    None => Ok(()),
                    Some(k) => {
                        self.applications.remove(k);
                        proof {
                            let olds = old(self).applications();
                            let news = self.applications();
                            assert forall|a: int, b: int| 0 <= a < b < news.len() implies app_key(
                                #[trigger] news[a],
                            ) != app_key(#[trigger] news[b]) by {
                                let oa: int = if a < k as int { a } else { a + 1 };
                                let ob: int = if b < k as int { b } else { b + 1 };
                                assert(news[a] == olds[oa]);
                                assert(news[b] == olds[ob]);
                                assert(app_key(olds[oa]) != app_key(olds[ob]));
                            }
                            assert forall|a: int| 0 <= a < news.len() implies app_key(
                                #[trigger] news[a],
                            ) != (qid as int, uid as int) by {
                                let oa: int = if a < k as int { a } else { a + 1 };
                                assert(news[a] == olds[oa]);
                                if oa < k as int {
                                    assert(app_key(olds[oa]) != app_key(olds[k as int]));
                                } else {
                                    assert(app_key(olds[k as int]) != app_key(olds[oa]));
                                }
                            }
                        }
                        Ok(())
                    },
                }
            },
        }
    }

    /// The vtubers a question is applied to. A draft or deleted question,
    /// like a missing one, surfaces as not-found.
    pub fn get_question_applied(&self, qid: i32) -> (r: Result<Vec<i32>, Error>)
        requires
            self.wf(),
        ensures
            !self.has_question_id(qid) ==> r == Err::<Vec<i32>, Error>(Error::NotFound),
            forall|i: int|
                0 <= i < self.questions().len() && (#[trigger] self.questions()[i]).id == qid ==> {
                    let q = self.questions()[i];
                    &&& (q.draft || q.deleted ==> r == Err::<Vec<i32>, Error>(Error::NotFound))
                    &&& (!(q.draft || q.deleted) ==> r is Ok)
                },
            r matches Ok(v) ==> {
                &&& forall|k: int|
                    0 <= k < v@.len() ==> self.has_application(qid, #[trigger] v@[k])
                &&& forall|j: int|
                    0 <= j < self.applications().len() && (#[trigger] self.applications()[j]).question
                        == qid ==> v@.contains(self.applications()[j].vtuber)
                &&& forall|k1: int, k2: int| 0 <= k1 < k2 < v@.len() ==> v@[k1] != v@[k2]
            },
    {
        match self.find_question(qid) {
            None => Err(Error::NotFound),
            Some(i) => {
                if self.questions[i].draft || self.questions[i].deleted {
                    return Err(Error::NotFound);
                }
                let mut v: Vec<i32> = Vec::new();
                let ghost mut srcs: Seq<int> = Seq::empty();
                let mut j: usize = 0;
                while j < self.applications.len()
                    invariant
                        self.wf(),
                        j <= self.applications().len(),
                        srcs.len() == v@.len(),
                        forall|k: int|
                            0 <= k < v@.len() ==> {
                                let t = #[trigger] srcs[k];
                                &&& 0 <= t < j
                                &&& app_key(self.applications()[t]) == (
                                    qid as int,
                                    v@[k] as int,
                                )
                            },
                        forall|t: int|
                            0 <= t < j && (#[trigger] self.applications()[t]).question == qid
                                ==> v@.contains(self.applications()[t].vtuber),
                        forall|k1: int, k2: int| 0 <= k1 < k2 < v@.len() ==> v@[k1] != v@[k2],
                    decreases self.applications().len() - j,
                {
                    if self.applications[j].question == qid {
                        let ghost prev = v@;
                        v.push(self.applications[j].vtuber);
                        proof {
                            let fresh = self.applications()[j as int].vtuber;
                            assert(app_key(self.applications()[j as int]) == (
                                qid as int,
                                fresh as int,
                            ));
                            assert(v@ == prev.push(fresh));
                            srcs = srcs.push(j as int);
                            assert forall|t: int|
                                0 <= t <= j && (#[trigger] self.applications()[t]).question == qid
                                    implies v@.contains(self.applications()[t].vtuber) by {
                                if t < j {
                                    let w = choose|w: int|
                                        0 <= w < prev.len() && prev[w] == self.applications()[t].vtuber;
                                    assert(v@[w] == self.applications()[t].vtuber);
                                } else {
                                    assert(v@[v@.len() - 1] == self.applications()[t].vtuber);
                                }
                            }
                            assert forall|k1: int, k2: int|
                                0 <= k1 < k2 < v@.len() implies v@[k1] != v@[k2] by {
                                if k2 == v@.len() - 1 {
                                    // a repeat of an earlier element would be a second
                                    // application with the same pair
                                    let t = srcs[k1];
                                    assert(app_key(self.applications()[t]) != app_key(
                                        self.applications()[j as int],
                                    ));
                                }
                            }
                        }
                    }
                    j = j + 1;
                }
                proof {
                    assert forall|k: int|
                        0 <= k < v@.len() implies self.has_application(qid, #[trigger] v@[k]) by {
                        let t = srcs[k];
                        assert(app_key(self.applications()[t]) == (qid as int, v@[k] as int));
                    }
                }
                Ok(v)
            },
        }
    }
}

/// Law: in a well-formed store no two accounts hold the same pending
/// challenge code. Every operation preserves well-formedness, so issuing
/// any number of codes never persists a duplicate, even under forced
/// collision retries.
pub proof fn lemma_challenge_codes_unique(s: Store, i: int, j: int)
    requires
        s.wf(),
        0 <= i < s.users().len(),
        0 <= j < s.users().len(),
        i != j,
        spec_challenge(s.users()[i]) is Some,
        spec_challenge(s.users()[j]) is Some,
    ensures
        spec_challenge(s.users()[i]) != spec_challenge(s.users()[j]),
{
}

/// No element of the table carries the key, so the filter by that key is
/// empty.
proof fn lemma_no_match_filter_empty(fs: Seq<Follow>, key: (int, int))
    requires
        forall|i: int| 0 <= i < fs.len() ==> follow_key(#[trigger] fs[i]) != key,
    ensures
        fs.filter(|f: Follow| follow_key(f) == key).len() == 0,
    decreases fs.len(),
{
    reveal(Seq::filter);
    if fs.len() > 0 {
        assert(forall|i: int|
            0 <= i < fs.drop_last().len() ==> follow_key(#[trigger] fs.drop_last()[i]) != key);
        lemma_no_match_filter_empty(fs.drop_last(), key);
    }
}

/// Law: however often the same pair was followed, a well-formed store
/// holds exactly one relationship with that pair once it is persisted.
pub proof fn lemma_exactly_one_follow(s: Store, from: i32, to: i32)
    requires
        s.wf(),
        s.has_follow(from, to),
    ensures
        s.follows().exactly_one(|f: Follow| follow_key(f) == (from as int, to as int)),
{
    lemma_unique_key_filter(s.follows(), from, to);
}

/// In a table of unique keys that contains the key, the filter by that key
/// has exactly one element.
proof fn lemma_unique_key_filter(fs: Seq<Follow>, from: i32, to: i32)
    requires
        follows_wf(fs),
        seq_has_follow(fs, from, to),
    ensures
        fs.filter(|f: Follow| follow_key(f) == (from as int, to as int)).len() == 1,
    decreases fs.len(),
{
    reveal(Seq::filter);
    let key = (from as int, to as int);
    let w = choose|i: int| 0 <= i < fs.len() && follow_key(#[trigger] fs[i]) == key;
    assert(forall|i: int|
        0 <= i < fs.drop_last().len() ==> #[trigger] fs.drop_last()[i] == fs[i]);
    if w == fs.len() - 1 {
        assert(forall|i: int|
            0 <= i < fs.drop_last().len() ==> follow_key(#[trigger] fs.drop_last()[i]) != key);
        lemma_no_match_filter_empty(fs.drop_last(), key);
    } else {
        assert(follow_key(fs.last()) != key) by {
            assert(follow_key(fs[w]) != follow_key(fs[fs.len() - 1]));
        }
        assert(follows_wf(fs.drop_last()));
        assert(seq_has_follow(fs.drop_last(), from, to)) by {
            assert(follow_key(fs.drop_last()[w]) == key);
        }
        lemma_unique_key_filter(fs.drop_last(), from, to);
    }
}

/// Law: following is idempotent. Once a pair is persisted, persisting the
/// same pair again changes nothing, whatever the private flags: two
/// `follow` calls leave exactly the one relationship.
pub proof fn lemma_follow_idempotent(fs: Seq<Follow>, from: i32, to: i32, p1: bool, p2: bool)
    ensures
        spec_follow(spec_follow(fs, from, to, p1), from, to, p2) == spec_follow(fs, from, to, p1),
{
    let once = spec_follow(fs, from, to, p1);
    if seq_has_follow(fs, from, to) {
        assert(seq_has_follow(once, from, to));
    } else {
        assert(follow_key(once[once.len() - 1]) == (from as int, to as int));
        assert(seq_has_follow(once, from, to));
    }
}

} // verus!
