use vstd::prelude::*;
use crate::post::{PostError, PostOutcome};

verus! {

/// What replacing every match of the regular expression `pattern` in `input`
/// with `rep` gives, or `None` when `pattern` does not compile.
pub uninterp spec fn regex_replaced(pattern: Seq<char>, input: Seq<char>, rep: Seq<char>) -> Option<Seq<char>>;

/// Relies on `regex::Regex::new` and `Regex::replace_all`.
#[verifier::external_body]
fn replace_all(pattern: &str, input: &str, rep: &str) -> (r: Option<String>)
    ensures
        match r {
            None => regex_replaced(pattern@, input@, rep@).is_none(),
            Some(s) => regex_replaced(pattern@, input@, rep@) == Some(s@),
        },
{
    let re = regex::Regex::new(pattern).ok()?;
    Some(re.replace_all(input, rep).into_owned())
}

/// `s` without leading and trailing Unicode white space.
pub uninterp spec fn trimmed(s: Seq<char>) -> Seq<char>;

/// Relies on `str::trim`.
#[verifier::external_body]
fn trim(s: &str) -> (r: String)
    ensures
        r@ == trimmed(s@),
{
    s.trim().to_string()
}

/// `input` with every chat mention `<@digits>` removed; the text around stays as it was.
pub open spec fn mentions_removed(input: Seq<char>) -> Seq<char> {
    match regex_replaced("<@\\d+>"@, input, ""@) {
        Some(s) => s,
        None => input,
    }
}

/// Removes every chat mention `<@digits>` from `input`.
pub fn remove_mentions(input: &str) -> (r: String)
    ensures
        r@ == mentions_removed(input@),
{
    match replace_all("<@\\d+>", input, "") {
        Some(s) => s,
        None => String::from_str(input),
    }
}

pub open spec fn relay_text_of(content: Seq<char>, message_id: Seq<char>, user_id: Seq<char>) -> Seq<char> {
    trimmed(mentions_removed(content)) + "\n\nmessage_id: "@ + message_id + "\nuser_id: "@ + user_id
}

/// The text to post for a chat message: its content without mentions and
/// surrounding white space, followed by the message and author ids.
pub fn relay_text(content: &str, message_id: &str, user_id: &str) -> (r: String)
    ensures
        r@ == relay_text_of(content@, message_id@, user_id@),
{
    let stripped = remove_mentions(content);
    let t = trim(stripped.as_str());
    t.concat("\n\nmessage_id: ").concat(message_id).concat("\nuser_id: ").concat(user_id)
}

pub open spec fn outcome_text(o: PostOutcome) -> Seq<char> {
    match o {
        PostOutcome::RateLimited => "投稿間隔が短すぎです。300秒待ってください。"@,
        PostOutcome::TooLong => "投稿内容が長すぎです。1024文字に収めてください。"@,
        PostOutcome::LineTooLong => "投稿内容に長すぎる行があります。1行は192文字に収めてください。"@,
        PostOutcome::Success => "投稿を受け付けました！"@,
        PostOutcome::UnknownFailure => "投稿に失敗しました。"@,
    }
}

pub open spec fn error_text(e: PostError) -> Seq<char> {
    "投稿できませんでした。"@
}

impl PostOutcome {
    /// The message shown to the user for this outcome.
    pub fn message(&self) -> (r: String)
        ensures
            r@ == outcome_text(*self),
    {
        match self {
            PostOutcome::RateLimited => String::from_str("投稿間隔が短すぎです。300秒待ってください。"),
            PostOutcome::TooLong => String::from_str("投稿内容が長すぎです。1024文字に収めてください。"),
            PostOutcome::LineTooLong => String::from_str("投稿内容に長すぎる行があります。1行は192文字に収めてください。"),
            PostOutcome::Success => String::from_str("投稿を受け付けました！"),
            PostOutcome::UnknownFailure => String::from_str("投稿に失敗しました。"),
        }
    }
}

impl PostError {
    /// The message shown to the user when a post could not be made.
    pub fn message(&self) -> (r: String)
        ensures
            r@ == error_text(*self),
    {
        String::from_str("投稿できませんでした。")
    }
}

/// The reply to send back to the chat for the result of a post.
pub fn reply_text(result: &Result<PostOutcome, PostError>) -> (r: String)
    ensures
        r@ == match result {
            Ok(o) => outcome_text(*o),
            Err(e) => error_text(*e),
        },
{
    match result {
        Ok(o) => o.message(),
        Err(e) => e.message(),
    }
}

} // verus!
