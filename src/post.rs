use vstd::prelude::*;
use crate::board::{after_derive, derivation_of, page_view, Board, CredentialError};

verus! {

/// Whether `needle` occurs in `hay` as a contiguous run.
pub open spec fn contains_seq(hay: Seq<char>, needle: Seq<char>) -> bool {
    exists|i: int| 0 <= i && i + needle.len() <= hay.len() && #[trigger] hay.subrange(i, i + needle.len()) == needle
}

/// Relies on `str::contains`: true when `needle` is a substring of `hay`.
#[verifier::external_body]
fn str_contains(hay: &str, needle: &str) -> (r: bool)
    ensures
        r == contains_seq(hay@, needle@),
{
    hay.contains(needle)
}

/// `application/x-www-form-urlencoded` encoding of a value.
pub uninterp spec fn form_encoded(s: Seq<char>) -> Seq<char>;

/// Relies on `url::form_urlencoded::byte_serialize`, the form encoding that
/// the HTTP client uses for query strings.
#[verifier::external_body]
fn form_encode(s: &str) -> (r: String)
    ensures
        r@ == form_encoded(s@),
{
    url::form_urlencoded::byte_serialize(s.as_bytes()).collect::<String>()
}

/// What the board's reply says of a post.
#[derive(Debug, Clone, Copy, PartialEq, Eq, Structural)]
pub enum PostOutcome {
    RateLimited,
    TooLong,
    LineTooLong,
    Success,
    UnknownFailure,
}

/// Why a post could not be made.
#[derive(Debug, Clone, Copy, PartialEq, Eq, Structural)]
pub enum PostError {
    /// No credential could be derived.
    Credential(CredentialError),
    /// The post request failed at the network layer.
    Transport,
}

/// The outcome that a reply body means, by its marker phrases in order of priority.
pub open spec fn outcome_of(body: Seq<char>) -> PostOutcome {
    if contains_seq(body, "投稿間隔が短すぎです"@) {
        PostOutcome::RateLimited
    } else if contains_seq(body, "投稿内容が長すぎです"@) {
        PostOutcome::TooLong
    } else if contains_seq(body, "投稿内容に長すぎる行があります"@) {
        PostOutcome::LineTooLong
    } else if contains_seq(body, "投稿を受け付けました"@) {
        PostOutcome::Success
    } else {
        PostOutcome::UnknownFailure
    }
}

/// Classifies the body of the board's reply to a post.
pub fn classify(body: &str) -> (r: PostOutcome)
    ensures
        r == outcome_of(body@),
{
    if str_contains(body, "投稿間隔が短すぎです") {
        PostOutcome::RateLimited
    } else if str_contains(body, "投稿内容が長すぎです") {
        PostOutcome::TooLong
    } else if str_contains(body, "投稿内容に長すぎる行があります") {
        PostOutcome::LineTooLong
    } else if str_contains(body, "投稿を受け付けました") {
        PostOutcome::Success
    } else {
        PostOutcome::UnknownFailure
    }
}

/// A reply that holds the rate-limit marker means `RateLimited`, whatever else it holds.
pub proof fn lemma_rate_limit_wins(body: Seq<char>)
    requires
        contains_seq(body, "投稿間隔が短すぎです"@),
    ensures
        outcome_of(body) == PostOutcome::RateLimited,
{
}

/// A reply that holds none of the four markers means `UnknownFailure`.
pub proof fn lemma_no_marker_unknown(body: Seq<char>)
    requires
        !contains_seq(body, "投稿間隔が短すぎです"@),
        !contains_seq(body, "投稿内容が長すぎです"@),
        !contains_seq(body, "投稿内容に長すぎる行があります"@),
        !contains_seq(body, "投稿を受け付けました"@),
    ensures
        outcome_of(body) == PostOutcome::UnknownFailure,
{
}

pub open spec fn cookie_of(hash_key: Seq<char>, user_session: Seq<char>) -> Seq<char> {
    "hash_key="@ + hash_key + ";"@ + user_session
}

/// The cookie header of a post: `hash_key=<credential>;<session cookie>`.
pub fn cookie_header(hash_key: &str, user_session: &str) -> (r: String)
    ensures
        r@ == cookie_of(hash_key@, user_session@),
{
    String::from_str("hash_key=").concat(hash_key).concat(";").concat(user_session)
}

pub open spec fn post_url_of(bbs_id: Seq<char>) -> Seq<char> {
    "https://dic.nicovideo.jp/b/c/"@ + bbs_id + "/p"@
}

/// The URL that posts to the board `bbs_id` go to.
pub fn post_url(bbs_id: &str) -> (r: String)
    ensures
        r@ == post_url_of(bbs_id@),
{
    String::from_str("https://dic.nicovideo.jp/b/c/").concat(bbs_id).concat("/p")
}

pub open spec fn body_of(from: Seq<char>, message: Seq<char>) -> Seq<char> {
    "FROM="@ + form_encoded(from) + "&MESSAGE="@ + form_encoded(message) + "&magic=dummy"@
}

/// The form body of a post from `from` with text `message`.
pub fn form_body(from: &str, message: &str) -> (r: String)
    ensures
        r@ == body_of(from@, message@),
{
    let f = form_encode(from);
    let m = form_encode(message);
    String::from_str("FROM=").concat(f.as_str()).concat("&MESSAGE=").concat(m.as_str()).concat("&magic=dummy")
}

/// An HTTP POST for the caller to send.
pub struct PostRequest {
    pub url: String,
    pub cookie: String,
    pub content_type: String,
    pub body: String,
}

/// Whether `req` is the post of `message` from `from` to the board `bbs_id`
/// with credential `hash_key` and session cookie `user_session`.
pub open spec fn is_post_request(
    req: PostRequest,
    bbs_id: Seq<char>,
    hash_key: Seq<char>,
    user_session: Seq<char>,
    from: Seq<char>,
    message: Seq<char>,
) -> bool {
    &&& req.url@ == post_url_of(bbs_id)
    &&& req.cookie@ == cookie_of(hash_key, user_session)
    &&& req.content_type@ == "application/x-www-form-urlencoded"@
    &&& req.body@ == body_of(from, message)
}

/// Derives the credential from the fetched landing page (`None` when the
/// fetch failed), stores it on the board, and builds the post request.
pub fn prepare_post(board: &mut Board, user_session: &str, from: &str, message: &str, page: Option<&str>)
    -> (r: Result<PostRequest, PostError>)
    ensures
        final(board)@ == after_derive(old(board)@, page_view(page)),
        match derivation_of(page_view(page)) {
            Err(e) => r == Err::<PostRequest, PostError>(PostError::Credential(e)),
            Ok(k) => r.is_ok() && is_post_request(
                r.unwrap(), old(board)@.bbs_id, k, user_session@, from@, message@),
        },
{
    match board.get_hash_key(page) {
        Err(e) => Err(PostError::Credential(e)),
        Ok(k) => Ok(PostRequest {
            url: post_url(board.bbs_id.as_str()),
            cookie: cookie_header(k.as_str(), user_session),
            content_type: String::from_str("application/x-www-form-urlencoded"),
            body: form_body(from, message),
        }),
    }
}

/// The result of a post, given the reply body (`None` when the request failed).
pub fn finish_post(response: Option<&str>) -> (r: Result<PostOutcome, PostError>)
    ensures
        match response {
            None => r == Err::<PostOutcome, PostError>(PostError::Transport),
            Some(b) => r == Ok::<PostOutcome, PostError>(outcome_of(b@)),
        },
{
    match response {
        None => Err(PostError::Transport),
        Some(b) => Ok(classify(b)),
    }
}

} // verus!
