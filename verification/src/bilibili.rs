//! Decoding of the external account service's answers: the twice-nested
//! post-detail envelope and the account-profile envelope. The network call
//! itself is the caller's concern; this component reports content and
//! identity, it does not itself decide that a binding is authorized.

use vstd::prelude::*;

use crate::json::{
    doc_field, field_i64, field_str, field_u64, json_as_i64, json_get, json_of, json_parse,
    json_view, read_string_field, read_u64_field, JsonDoc,
};
use crate::text::contains_seq;
use crate::text::contains_str;

verus! {

/// The external service's generic envelope: a status code, a message, and
/// the payload when the status reports success.
#[derive(Clone, Debug)]
pub struct Response<T> {
    pub code: i64,
    pub message: String,
    pub data: Option<T>,
}

/// An explicit failure status of the external service, as it reported it.
#[derive(Clone, Debug, PartialEq)]
pub struct BilbiliError {
    pub code: i64,
    pub message: String,
}

/// The failure kinds of the external verifier, kept distinct so a caller
/// can tell a retryable transport failure from permanent malformed data.
#[derive(Clone, Debug, PartialEq)]
pub enum Error {
    /// The service answered with a non-success status code.
    Bilbili(BilbiliError),
    /// The service could not be reached, or the call timed out: retryable.
    Transport,
    /// The first decode stage failed: the envelope itself is missing a
    /// field or malformed.
    MalformedResponse,
    /// The second decode stage failed: the JSON-encoded `card` string
    /// inside the envelope cannot be decoded or is missing a field.
    MalformedCard,
}

/// The public face of an external account, as the profile endpoint
/// reports it; the upstream 0/1 silenced marker is normalized to a
/// boolean.
#[derive(Clone, Debug, PartialEq)]
pub struct AccountInfo {
    pub uid: u64,
    pub name: String,
    pub sex: String,
    pub face: String,
    pub level: u8,
    pub silence: bool,
}

/// A post with its sender's profile.
#[derive(Clone, Debug, PartialEq)]
pub struct PostInfo {
    pub rid: u64,
    pub sender: AccountInfo,
    pub content: String,
}

/// What the post-detail endpoint yields before the sender's profile is
/// fetched: the sender's numeric id, the post's own id, and its text.
#[derive(Clone, Debug, PartialEq)]
pub struct PostStub {
    pub uid: u64,
    pub rid: u64,
    pub content: String,
}

impl<T> Response<T> {
    /// The envelope reports success.
    pub fn success(&self) -> (r: bool)
        ensures
            r == (self.code == 0),
    {
        self.code == 0
    }

    /// The envelope's status, read as the failure it reports.
    pub fn into_error(self) -> (r: BilbiliError)
        ensures
            r.code == self.code,
            r.message == self.message,
    {
        BilbiliError { code: self.code, message: self.message }
    }
}

impl Error {
    /// The upstream failure, or the value itself when it is none.
    pub fn unwrap_bilibili(self) -> (r: Result<BilbiliError, Error>)
        ensures
            self is Bilbili <==> r is Ok,
            self matches Error::Bilbili(b) ==> r == Ok::<BilbiliError, Error>(b),
            !(self is Bilbili) ==> r == Err::<BilbiliError, Error>(self),
    {
        if let Error::Bilbili(b) = self {
            Ok(b)
        } else {
            Err(self)
        }
    }

    /// The domain outcome of each failure kind: an explicit upstream
    /// status, a transport failure, or malformed data.
    pub fn to_domain(&self) -> (r: crate::error::Error)
        ensures
            *self is Bilbili ==> r == crate::error::Error::UpstreamError,
            *self is Transport ==> r == crate::error::Error::UpstreamTransport,
            *self is MalformedResponse || *self is MalformedCard ==> r
                == crate::error::Error::UpstreamMalformed,
    {
        match self {
            Error::Bilbili(_) => crate::error::Error::UpstreamError,
            Error::Transport => crate::error::Error::UpstreamTransport,
            Error::MalformedResponse => crate::error::Error::UpstreamMalformed,
            Error::MalformedCard => crate::error::Error::UpstreamMalformed,
        }
    }
}

/// Normalizes the upstream 0/1 marker to a boolean.
pub fn from_u8(v: u64) -> (b: bool)
    ensures
        b == (v != 0),
{
    v != 0
}

/// The profile as the decoded document determines it, over plain values.
pub struct SpecAccount {
    pub uid: u64,
    pub name: Seq<char>,
    pub sex: Seq<char>,
    pub face: Seq<char>,
    pub level: u64,
    pub silence: bool,
}

/// The post stub as the twice-decoded document determines it.
pub struct SpecPost {
    pub uid: u64,
    pub rid: u64,
    pub content: Seq<char>,
}

/// The failure a decode determines: the upstream's own status, or the
/// stage at which the data was malformed.
pub enum SpecFailure {
    Upstream(i64, Seq<char>),
    MalformedResponse,
    MalformedCard,
}

/// The message an envelope carries; absent means empty.
pub open spec fn spec_message(d: JsonDoc) -> Seq<char> {
    match field_str(d, "message"@) {
        Some(m) => m,
        None => Seq::empty(),
    }
}

/// What the envelope's status fields decide: a missing or non-integer
/// status is malformed; a non-zero status is the upstream's own failure,
/// carried with its message; zero is success.
pub open spec fn spec_envelope(d: JsonDoc) -> Result<(), SpecFailure> {
    match field_i64(d, "code"@) {
        None => Err(SpecFailure::MalformedResponse),
        Some(code) => if code != 0 {
            Err(SpecFailure::Upstream(code, spec_message(d)))
        } else {
            Ok(())
        },
    }
}

/// The profile the account endpoint's `data` object determines: every
/// field must be present and of the right kind, the level must fit 8
/// bits, and the 0/1 silenced marker becomes a boolean.
pub open spec fn spec_account_fields(data: JsonDoc) -> Result<SpecAccount, SpecFailure> {
    match field_u64(data, "mid"@) {
        None => Err(SpecFailure::MalformedResponse),
        Some(uid) => match field_str(data, "name"@) {
            None => Err(SpecFailure::MalformedResponse),
            Some(name) => match field_str(data, "sex"@) {
                None => Err(SpecFailure::MalformedResponse),
                Some(sex) => match field_str(data, "face"@) {
                    None => Err(SpecFailure::MalformedResponse),
                    Some(face) => match field_u64(data, "level"@) {
                        None => Err(SpecFailure::MalformedResponse),
                        Some(level) => match field_u64(data, "silence"@) {
                            None => Err(SpecFailure::MalformedResponse),
                            Some(silence_raw) => if level > 255 {
                                Err(SpecFailure::MalformedResponse)
                            } else {
                                Ok(
                                    SpecAccount {
                                        uid,
                                        name,
                                        sex,
                                        face,
                                        level,
                                        silence: silence_raw != 0,
                                    },
                                )
                            },
                        },
                    },
                },
            },
        },
    }
}

/// What the account-profile decode returns, as a function of the document
/// the body text denotes.
pub open spec fn spec_account_of(parsed: Option<JsonDoc>) -> Result<SpecAccount, SpecFailure> {
    match parsed {
        None => Err(SpecFailure::MalformedResponse),
        Some(d) => match spec_envelope(d) {
            Err(f) => Err(f),
            Ok(_) => match doc_field(d, "data"@) {
                None => Err(SpecFailure::MalformedResponse),
                Some(data) => spec_account_fields(data),
            },
        },
    }
}

/// The stub the twice-decoded card determines: sender id, post id and
/// text; a missing field at this stage is malformed at the second stage.
pub open spec fn spec_post_fields(card: JsonDoc) -> Result<SpecPost, SpecFailure> {
    match doc_field(card, "user"@) {
        None => Err(SpecFailure::MalformedCard),
        Some(user) => match field_u64(user, "uid"@) {
            None => Err(SpecFailure::MalformedCard),
            Some(uid) => match doc_field(card, "item"@) {
                None => Err(SpecFailure::MalformedCard),
                Some(item) => match field_u64(item, "rp_id"@) {
                    None => Err(SpecFailure::MalformedCard),
                    Some(rid) => match field_str(item, "content"@) {
                        None => Err(SpecFailure::MalformedCard),
                        Some(content) => Ok(SpecPost { uid, rid, content }),
                    },
                },
            },
        },
    }
}

/// What the post-detail decode returns, as a function of the document the
/// body text denotes: the envelope is decoded, `data.card.card` must be a
/// string, that string is decoded a second time, and the stub is read from
/// the second document; the two decode stages fail distinctly.
pub open spec fn spec_post_of(parsed: Option<JsonDoc>) -> Result<SpecPost, SpecFailure> {
    match parsed {
        None => Err(SpecFailure::MalformedResponse),
        Some(d) => match spec_envelope(d) {
            Err(f) => Err(f),
            Ok(_) => match doc_field(d, "data"@) {
                None => Err(SpecFailure::MalformedResponse),
                Some(data) => match doc_field(data, "card"@) {
                    None => Err(SpecFailure::MalformedResponse),
                    Some(card_outer) => match field_str(card_outer, "card"@) {
                        None => Err(SpecFailure::MalformedResponse),
                        Some(card_text) => match json_of(card_text) {
                            None => Err(SpecFailure::MalformedCard),
                            Some(card) => spec_post_fields(card),
                        },
                    },
                },
            },
        },
    }
}

/// The executable profile carries the determined plain values.
pub open spec fn account_matches(a: AccountInfo, s: SpecAccount) -> bool {
    &&& a.uid == s.uid
    &&& a.name@ == s.name
    &&& a.sex@ == s.sex
    &&& a.face@ == s.face
    &&& a.level == s.level
    &&& a.silence == s.silence
}

/// The executable stub carries the determined plain values.
pub open spec fn post_matches(p: PostStub, s: SpecPost) -> bool {
    &&& p.uid == s.uid
    &&& p.rid == s.rid
    &&& p.content@ == s.content
}

/// The executable failure carries the determined failure.
pub open spec fn failure_matches(e: Error, f: SpecFailure) -> bool {
    match e {
        Error::Bilbili(b) => f == SpecFailure::Upstream(b.code, b.message@),
        Error::Transport => false,
        Error::MalformedResponse => f == SpecFailure::MalformedResponse,
        Error::MalformedCard => f == SpecFailure::MalformedCard,
    }
}

/// The decision on an envelope's status fields: status 0 is success,
/// anything else the upstream's own failure, reported with its code and
/// message.
pub fn envelope_outcome(code: i64, message: String) -> (r: Result<(), Error>)
    ensures
        code == 0 <==> r is Ok,
        code != 0 ==> (r matches Err(e) && e matches Error::Bilbili(b) && b.code == code
            && b.message == message),
{
    if code != 0 {
        return Err(Error::Bilbili(BilbiliError { code, message }));
    }
    Ok(())
}

/// Assembles an account's profile from the decoded plain fields: the level
/// must fit its 8-bit representation, and the 0/1 silenced marker is
/// normalized to a boolean.
pub fn account_from_fields(
    uid: u64,
    name: String,
    sex: String,
    face: String,
    level_raw: u64,
    silence_raw: u64,
) -> (r: Result<AccountInfo, Error>)
    ensures
        level_raw > 255 <==> r == Err::<AccountInfo, Error>(Error::MalformedResponse),
        level_raw <= 255 ==> (r matches Ok(a) && {
            &&& a.uid == uid
            &&& a.name == name
            &&& a.sex == sex
            &&& a.face == face
            &&& a.level == level_raw
            &&& a.silence == (silence_raw != 0)
        }),
{
    if level_raw > 255 {
        return Err(Error::MalformedResponse);
    }
    Ok(AccountInfo { uid, name, sex, face, level: level_raw as u8, silence: from_u8(silence_raw) })
}

/// Decodes the envelope of an answer: its status code and message. A
/// non-success status is the upstream's own failure; a missing field is
/// malformed data.
fn read_envelope(v: &serde_json::Value) -> (r: Result<(), Error>)
    ensures
        ({
            let expected = spec_envelope(json_view(*v));
            match r {
                Ok(_) => expected is Ok,
                Err(e) => expected matches Err(f) && failure_matches(e, f),
            }
        }),
{
    let code = match json_get(v, "code") {
        Some(c) => match json_as_i64(c) {
            Some(c) => c,
            None => {
                return Err(Error::MalformedResponse);
            },
        },
        None => {
            return Err(Error::MalformedResponse);
        },
    };
    let message = match read_string_field(v, "message") {
        Some(m) => m,
        None => String::new(),
    };
    envelope_outcome(code, message)
}

/// Decodes the account-profile answer: the envelope, then the profile
/// fields, with the 0/1 silenced marker normalized to a boolean. The
/// result is exactly what the document denoted by the body determines.
pub fn parse_account_response(body: &str) -> (r: Result<AccountInfo, Error>)
    ensures
        ({
            let expected = spec_account_of(json_of(body@));
            match r {
                Ok(a) => expected matches Ok(sa) && account_matches(a, sa),
                Err(e) => expected matches Err(f) && failure_matches(e, f),
            }
        }),
{
    let v = match json_parse(body) {
        Some(v) => v,
        None => {
            return Err(Error::MalformedResponse);
        },
    };
    read_envelope(&v)?;
    let data = match json_get(&v, "data") {
        Some(d) => d,
        None => {
            return Err(Error::MalformedResponse);
        },
    };
    let uid = match read_u64_field(data, "mid") {
        Some(u) => u,
        None => {
            return Err(Error::MalformedResponse);
        },
    };
    let name = match read_string_field(data, "name") {
        Some(s) => s,
        None => {
            return Err(Error::MalformedResponse);
        },
    };
    let sex = match read_string_field(data, "sex") {
        Some(s) => s,
        None => {
            return Err(Error::MalformedResponse);
        },
    };
    let face = match read_string_field(data, "face") {
        Some(s) => s,
        None => {
            return Err(Error::MalformedResponse);
        },
    };
    let level_raw = match read_u64_field(data, "level") {
        Some(u) => u,
        None => {
            return Err(Error::MalformedResponse);
        },
    };
    let silence_raw = match read_u64_field(data, "silence") {
        Some(u) => u,
        None => {
            return Err(Error::MalformedResponse);
        },
    };
    account_from_fields(uid, name, sex, face, level_raw, silence_raw)
}

/// Decodes the post-detail answer. The envelope's `data.card.card` field
/// is itself a JSON-encoded string that is decoded a second time to reach
/// the sender's id, the post's own id and its text; the two decode stages
/// fail distinctly. The result is exactly what the documents denoted by
/// the body and by the nested card text determine.
pub fn parse_post_response(body: &str) -> (r: Result<PostStub, Error>)
    ensures
        ({
            let expected = spec_post_of(json_of(body@));
            match r {
                Ok(p) => expected matches Ok(sp) && post_matches(p, sp),
                Err(e) => expected matches Err(f) && failure_matches(e, f),
            }
        }),
{
    let v = match json_parse(body) {
        Some(v) => v,
        None => {
            return Err(Error::MalformedResponse);
        },
    };
    read_envelope(&v)?;
    let data = match json_get(&v, "data") {
        Some(d) => d,
        None => {
            return Err(Error::MalformedResponse);
        },
    };
    let card_outer = match json_get(data, "card") {
        Some(c) => c,
        None => {
            return Err(Error::MalformedResponse);
        },
    };
    let card_text = match read_string_field(card_outer, "card") {
        Some(s) => s,
        None => {
            return Err(Error::MalformedResponse);
        },
    };
    let card = match json_parse(card_text.as_str()) {
        Some(c) => c,
        None => {
            return Err(Error::MalformedCard);
        },
    };
    let user = match json_get(&card, "user") {
        Some(u) => u,
        None => {
            return Err(Error::MalformedCard);
        },
    };
    let uid = match read_u64_field(user, "uid") {
        Some(u) => u,
        None => {
            return Err(Error::MalformedCard);
        },
    };
    let item = match json_get(&card, "item") {
        Some(i) => i,
        None => {
            return Err(Error::MalformedCard);
        },
    };
    let rid = match read_u64_field(item, "rp_id") {
        Some(u) => u,
        None => {
            return Err(Error::MalformedCard);
        },
    };
    let content = match read_string_field(item, "content") {
        Some(s) => s,
        None => {
            return Err(Error::MalformedCard);
        },
    };
    Ok(PostStub { uid, rid, content })
}

impl PostInfo {
    /// The caller's authorization check on a fetched post: the expected
    /// challenge code appears in the post's text.
    pub fn contains_code(&self, code: &str) -> (r: bool)
        ensures
            r == contains_seq(self.content@, code@),
    {
        contains_str(self.content.as_str(), code)
    }
}

impl PostStub {
    /// The same check before the sender's profile has been fetched.
    pub fn contains_code(&self, code: &str) -> (r: bool)
        ensures
            r == contains_seq(self.content@, code@),
    {
        contains_str(self.content.as_str(), code)
    }
}

} // verus!
