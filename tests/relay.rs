use bbs_discord_bot::board::CredentialError;
use bbs_discord_bot::{
    classify, cookie_header, finish_post, form_body, post_url, prepare_post, relay_text,
    remove_mentions, reply_text, Board, PostError, PostOutcome,
};

const PAGE: &str = r#"<html><body><iframe id="community-bbs" src="https://x.example/y?abc=HASHVALUE&other=1"></iframe></body></html>"#;

#[test]
fn test_remove_mentions() {
    assert_eq!(remove_mentions("<@123> foo"), " foo");
    assert_eq!(remove_mentions("<@123> <@456> foo"), "  foo");
}

#[test]
fn remove_mentions_keeps_other_markup() {
    assert_eq!(remove_mentions("<@abc> x <@> y"), "<@abc> x <@> y");
}

#[test]
fn credential_is_first_query_value() {
    assert_eq!(Board::parse_top_bbs_html(PAGE), Ok("HASHVALUE".to_string()));
}

#[test]
fn credential_is_decoded() {
    let page = r#"<iframe id="community-bbs" src="https://x.example/y?k=a%20b"></iframe>"#;
    assert_eq!(Board::parse_top_bbs_html(page), Ok("a b".to_string()));
}

#[test]
fn derive_twice_same_credential() {
    let mut b = Board::new("https://x.example/bbs", "ch1");
    let first = b.get_hash_key(Some(PAGE));
    let second = b.get_hash_key(Some(PAGE));
    assert_eq!(first, second);
    assert_eq!(b.hash_key, Some("HASHVALUE".to_string()));
}

#[test]
fn missing_element() {
    let page = "<html><body><iframe id=\"other\" src=\"https://x.example/y?a=1\"></iframe></body></html>";
    assert_eq!(Board::parse_top_bbs_html(page), Err(CredentialError::ElementNotFound));
}

#[test]
fn missing_src_is_malformed() {
    let page = "<iframe id=\"community-bbs\"></iframe>";
    assert_eq!(Board::parse_top_bbs_html(page), Err(CredentialError::MalformedUrl));
}

#[test]
fn relative_src_is_malformed() {
    let page = "<iframe id=\"community-bbs\" src=\"/y?a=1\"></iframe>";
    assert_eq!(Board::parse_top_bbs_html(page), Err(CredentialError::MalformedUrl));
}

#[test]
fn no_query_is_missing_credential() {
    let page = "<iframe id=\"community-bbs\" src=\"https://x.example/y\"></iframe>";
    assert_eq!(Board::parse_top_bbs_html(page), Err(CredentialError::MissingCredential));
}

#[test]
fn failed_fetch_clears_credential() {
    let mut b = Board::new("https://x.example/bbs", "ch1");
    assert!(b.get_hash_key(Some(PAGE)).is_ok());
    assert_eq!(b.get_hash_key(None), Err(CredentialError::FetchFailed));
    assert_eq!(b.hash_key, None);
}

#[test]
fn rate_limit_wins() {
    let body = "<p>投稿を受け付けました</p><p>投稿間隔が短すぎです</p><p>投稿内容が長すぎです</p>";
    assert_eq!(classify(body), PostOutcome::RateLimited);
}

#[test]
fn success_marker_only() {
    assert_eq!(classify("<html>投稿を受け付けました</html>"), PostOutcome::Success);
}

#[test]
fn too_long_and_line_too_long() {
    assert_eq!(classify("投稿内容が長すぎです"), PostOutcome::TooLong);
    assert_eq!(classify("x投稿内容に長すぎる行がありますy"), PostOutcome::LineTooLong);
}

#[test]
fn no_marker_unknown() {
    assert_eq!(classify("<html>something else</html>"), PostOutcome::UnknownFailure);
    assert_eq!(classify(""), PostOutcome::UnknownFailure);
}

#[test]
fn cookie_header_shape() {
    assert_eq!(cookie_header("H", "S=v"), "hash_key=H;S=v");
}

#[test]
fn post_url_shape() {
    assert_eq!(post_url("ch2598430"), "https://dic.nicovideo.jp/b/c/ch2598430/p");
}

#[test]
fn form_body_is_encoded() {
    assert_eq!(form_body("a b", "x&y=z"), "FROM=a+b&MESSAGE=x%26y%3Dz&magic=dummy");
}

#[test]
fn prepare_post_builds_request() {
    let mut b = Board::new("https://x.example/bbs", "ch1");
    let req = prepare_post(&mut b, "S=v", "me", "hi", Some(PAGE)).ok().unwrap();
    assert_eq!(req.url, "https://dic.nicovideo.jp/b/c/ch1/p");
    assert_eq!(req.cookie, "hash_key=HASHVALUE;S=v");
    assert_eq!(req.content_type, "application/x-www-form-urlencoded");
    assert_eq!(req.body, "FROM=me&MESSAGE=hi&magic=dummy");
}

#[test]
fn prepare_post_credential_error() {
    let mut b = Board::new("https://x.example/bbs", "ch1");
    let r = prepare_post(&mut b, "S=v", "me", "hi", Some("<html></html>"));
    assert!(matches!(r, Err(PostError::Credential(CredentialError::ElementNotFound))));
}

#[test]
fn finish_post_cases() {
    assert_eq!(finish_post(None), Err(PostError::Transport));
    assert_eq!(finish_post(Some("投稿を受け付けました")), Ok(PostOutcome::Success));
}

#[test]
fn relay_text_trims_and_tags() {
    assert_eq!(relay_text("<@1>  hello \n", "10", "20"), "hello\n\nmessage_id: 10\nuser_id: 20");
}

#[test]
fn reply_texts() {
    assert_eq!(reply_text(&Ok(PostOutcome::Success)), "投稿を受け付けました！");
    assert_eq!(reply_text(&Ok(PostOutcome::RateLimited)), "投稿間隔が短すぎです。300秒待ってください。");
    assert_eq!(reply_text(&Err(PostError::Transport)), "投稿できませんでした。");
}
