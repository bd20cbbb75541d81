//! Decoding the external service's answers, against real serde_json.

use vtuber_quiz::bilibili::{
    from_u8, parse_account_response, parse_post_response, AccountInfo, Error, PostInfo, Response,
};
use vtuber_quiz::error::Error as Domain;

fn profile_body(silence: u64) -> String {
    format!(
        r#"{{"code":0,"message":"0","data":{{"mid":546195,"name":"老番茄","sex":"男","face":"https://example.invalid/face.jpg","level":6,"silence":{}}}}}"#,
        silence
    )
}

#[test]
fn account_profile_decodes() {
    let info = parse_account_response(profile_body(0).as_str()).unwrap();
    assert_eq!(info.uid, 546195);
    assert_eq!(info.name.as_str(), "老番茄");
    assert_eq!(info.level, 6);
    assert!(!info.silence);
}

#[test]
fn silenced_marker_is_normalized_to_bool() {
    assert!(parse_account_response(profile_body(1).as_str()).unwrap().silence);
    assert!(!parse_account_response(profile_body(0).as_str()).unwrap().silence);
    assert!(from_u8(7));
    assert!(!from_u8(0));
}

#[test]
fn upstream_failure_status_is_reported_as_such() {
    let body = r#"{"code":-404,"message":"啥都木有","data":null}"#;
    let err = parse_account_response(body).unwrap_err().unwrap_bilibili().unwrap();
    assert_eq!(err.code, -404);
    assert_eq!(err.message.as_str(), "啥都木有");
}

#[test]
fn malformed_envelope_is_the_first_stage_failure() {
    assert_eq!(parse_account_response("not json"), Err(Error::MalformedResponse));
    assert_eq!(parse_account_response(r#"{"message":"x"}"#), Err(Error::MalformedResponse));
    assert_eq!(
        parse_account_response(r#"{"code":0,"message":"0"}"#),
        Err(Error::MalformedResponse)
    );
    // level out of the 8-bit range
    let body = r#"{"code":0,"message":"0","data":{"mid":1,"name":"n","sex":"s","face":"f","level":300,"silence":0}}"#;
    assert_eq!(parse_account_response(body), Err(Error::MalformedResponse));
}

fn post_body(card: &str) -> String {
    let card_encoded = serde_json::to_string(card).unwrap();
    format!(
        r#"{{"code":0,"message":"0","ttl":1,"data":{{"card":{{"card":{}}}}}}}"#,
        card_encoded
    )
}

#[test]
fn post_detail_decodes_the_twice_nested_card() {
    let card = r#"{"user":{"uid":2},"item":{"rp_id":85387458833966060,"content":"挑战码 Ab3dEf9 在此"}}"#;
    let stub = parse_post_response(post_body(card).as_str()).unwrap();
    assert_eq!(stub.uid, 2);
    assert_eq!(stub.rid, 85387458833966060);
    assert!(!stub.content.is_empty());
    assert!(stub.contains_code("Ab3dEf9"));
    assert!(!stub.contains_code("Zzzzzzz"));
}

#[test]
fn broken_card_is_the_second_stage_failure() {
    // the envelope is fine, the nested card is not JSON
    assert_eq!(
        parse_post_response(post_body("not json").as_str()),
        Err(Error::MalformedCard)
    );
    // the nested card is JSON but misses a field
    assert_eq!(
        parse_post_response(post_body(r#"{"user":{"uid":2},"item":{}}"#).as_str()),
        Err(Error::MalformedCard)
    );
    // the envelope itself misses the card
    assert_eq!(
        parse_post_response(r#"{"code":0,"message":"0","data":{}}"#),
        Err(Error::MalformedResponse)
    );
}

#[test]
fn post_detail_upstream_failure() {
    let body = r#"{"code":500,"message":"boom","ttl":1}"#;
    let err = parse_post_response(body).unwrap_err();
    let upstream = err.unwrap_bilibili().unwrap();
    assert_eq!(upstream.code, 500);
    assert_eq!(upstream.message.as_str(), "boom");
}

#[test]
fn envelope_success_and_error_conversion() {
    let ok: Response<u64> = Response { code: 0, message: "0".to_string(), data: Some(1) };
    assert!(ok.success());
    let bad: Response<u64> = Response { code: -404, message: "gone".to_string(), data: None };
    assert!(!bad.success());
    let e = bad.into_error();
    assert_eq!(e.code, -404);
    assert_eq!(e.message.as_str(), "gone");
}

#[test]
fn unwrap_bilibili_mismatch_is_a_typed_error() {
    assert_eq!(
        Error::Transport.unwrap_bilibili(),
        Err(Error::Transport)
    );
    assert_eq!(
        Error::MalformedCard.unwrap_bilibili(),
        Err(Error::MalformedCard)
    );
}

#[test]
fn failure_kinds_map_to_distinct_domain_outcomes() {
    let upstream = Error::Bilbili(vtuber_quiz::bilibili::BilbiliError {
        code: 1,
        message: String::new(),
    });
    assert_eq!(upstream.to_domain(), Domain::UpstreamError);
    assert_eq!(Error::Transport.to_domain(), Domain::UpstreamTransport);
    assert_eq!(Error::MalformedResponse.to_domain(), Domain::UpstreamMalformed);
    assert_eq!(Error::MalformedCard.to_domain(), Domain::UpstreamMalformed);
}

#[test]
fn post_info_checks_the_challenge_code_in_content() {
    let post = PostInfo {
        rid: 1,
        sender: AccountInfo {
            uid: 2,
            name: "n".to_string(),
            sex: "s".to_string(),
            face: "f".to_string(),
            level: 1,
            silence: false,
        },
        content: "我正在使用vtuber粉丝力测试 XyZ1234 了".to_string(),
    };
    assert!(post.contains_code("XyZ1234"));
    assert!(!post.contains_code("XyZ1235"));
    assert!(post.contains_code(""));
}
