use authgate::session::{begin_session, end_session, flash, is_authenticated, take_flash, Jar};
use authgate::token::is_uuid_v4_token;

fn empty_jar() -> Jar {
    Jar { session: None, msg: None }
}

#[test]
fn anonymous_jar_is_not_authenticated() {
    let jar = empty_jar();
    assert!(!is_authenticated(&jar));
}

#[test]
fn any_session_cookie_authenticates() {
    let jar = Jar { session: Some("not-even-a-uuid".to_string()), msg: None };
    assert!(is_authenticated(&jar));
}

#[test]
fn begin_session_sets_a_uuid_v4_token() {
    let mut jar = empty_jar();
    begin_session(&mut jar);
    let token = jar.session.clone().expect("session cookie must be set");
    assert!(is_uuid_v4_token(&token));
    assert_eq!(jar.msg, None);
}

#[test]
fn begin_session_tokens_are_unpredictable() {
    let mut a = empty_jar();
    let mut b = empty_jar();
    begin_session(&mut a);
    begin_session(&mut b);
    assert_ne!(a.session, b.session);
}

#[test]
fn end_session_removes_the_cookie_and_keeps_the_flash() {
    let mut jar = Jar { session: Some("tok".to_string()), msg: Some("hello".to_string()) };
    end_session(&mut jar);
    assert_eq!(jar.session, None);
    assert_eq!(jar.msg, Some("hello".to_string()));
}

#[test]
fn flash_overwrites_any_prior_message() {
    let mut jar = Jar { session: Some("tok".to_string()), msg: Some("old".to_string()) };
    flash(&mut jar, "new".to_string());
    assert_eq!(jar.msg, Some("new".to_string()));
    assert_eq!(jar.session, Some("tok".to_string()));
}

#[test]
fn take_flash_reads_and_removes_the_message() {
    let mut jar = Jar { session: None, msg: Some("hello".to_string()) };
    let text = take_flash(&mut jar);
    assert_eq!(text, "hello".to_string());
    assert_eq!(jar.msg, None);
}

#[test]
fn take_flash_is_one_shot() {
    let mut jar = Jar { session: None, msg: Some("only once".to_string()) };
    let first = take_flash(&mut jar);
    let second = take_flash(&mut jar);
    assert_eq!(first, "only once".to_string());
    assert_eq!(second, "".to_string());
    assert_eq!(jar.msg, None);
}

#[test]
fn uuid_v4_checker_accepts_the_canonical_shape() {
    assert!(is_uuid_v4_token("123e4567-e89b-42d3-a456-426614174000"));
}

#[test]
fn uuid_v4_checker_rejects_wrong_shapes() {
    assert!(!is_uuid_v4_token(""));
    assert!(!is_uuid_v4_token("123e4567-e89b-42d3-a456-42661417400"));
    assert!(!is_uuid_v4_token("123e4567-e89b-12d3-a456-426614174000"));
    assert!(!is_uuid_v4_token("123e4567-e89b-42d3-c456-426614174000"));
    assert!(!is_uuid_v4_token("123E4567-E89B-42D3-A456-426614174000"));
    assert!(!is_uuid_v4_token("123e4567ye89by42d3ya456y426614174000"));
}
