use vstd::prelude::*;

verus! {

/// What the HTML parser finds for `selector` in `html`: `None` when no element
/// matches, `Some(None)` when the first match has no `src` attribute, and
/// `Some(Some(src))` otherwise.
pub uninterp spec fn first_match_src(html: Seq<char>, selector: Seq<char>) -> Option<Option<Seq<char>>>;

/// What the URL parser finds in `url`: `None` when it is not a valid absolute
/// URL, `Some(None)` when it has no query pairs, and `Some(Some(v))` with the
/// decoded value of its first query pair.
pub uninterp spec fn first_query_value(url: Seq<char>) -> Option<Option<Seq<char>>>;

pub open spec fn nested_view(o: Option<Option<String>>) -> Option<Option<Seq<char>>> {
    match o {
        None => None,
        Some(None) => Some(None),
        Some(Some(s)) => Some(Some(s@)),
    }
}

/// Relies on scraper: `Selector::parse`, `Html::parse_document`, `select`, and
/// `attr("src")` of the first element that matches (`None` also when the
/// selector does not parse).
#[verifier::external_body]
fn select_src(html: &str, selector: &str) -> (r: Option<Option<String>>)
    ensures
        nested_view(r) == first_match_src(html@, selector@),
{
    let sel = scraper::Selector::parse(selector).ok()?;
    let doc = scraper::Html::parse_document(html);
    let first = doc.select(&sel).next();
    first.map(|e| e.value().attr("src").map(|s| s.to_string()))
}

/// Relies on `reqwest::Url::parse` and `Url::query_pairs`: the decoded value
/// of the first query pair of a URL.
#[verifier::external_body]
fn query_value(url: &str) -> (r: Option<Option<String>>)
    ensures
        nested_view(r) == first_query_value(url@),
{
    let parsed = reqwest::Url::parse(url).ok()?;
    let first = parsed.query_pairs().next();
    Some(first.map(|(_, v)| v.into_owned()))
}

/// Why no credential could be derived.
#[derive(Debug, Clone, Copy, PartialEq, Eq, Structural)]
pub enum CredentialError {
    /// The landing page could not be fetched.
    FetchFailed,
    /// The landing page holds no element with the expected id.
    ElementNotFound,
    /// The element has no `src`, or it is not a URL.
    MalformedUrl,
    /// The URL has no query parameters.
    MissingCredential,
}

/// The credential that a landing page yields, or why it yields none.
pub open spec fn credential_of(html: Seq<char>) -> Result<Seq<char>, CredentialError> {
    match first_match_src(html, "#community-bbs"@) {
        None => Err(CredentialError::ElementNotFound),
        Some(None) => Err(CredentialError::MalformedUrl),
        Some(Some(src)) => match first_query_value(src) {
            None => Err(CredentialError::MalformedUrl),
            Some(None) => Err(CredentialError::MissingCredential),
            Some(Some(v)) => Ok(v),
        },
    }
}

/// What fetching the landing page yields: `None` when the fetch failed.
pub open spec fn derivation_of(page: Option<Seq<char>>) -> Result<Seq<char>, CredentialError> {
    match page {
        None => Err(CredentialError::FetchFailed),
        Some(html) => credential_of(html),
    }
}

pub open spec fn result_view(r: Result<String, CredentialError>) -> Result<Seq<char>, CredentialError> {
    match r {
        Ok(s) => Ok(s@),
        Err(e) => Err(e),
    }
}

/// A board: where its landing page is, its id, and the last credential derived.
#[derive(Debug, Clone)]
pub struct Board {
    pub top_bbs_url: String,
    pub bbs_id: String,
    pub hash_key: Option<String>,
}

/// The board's identity and credential as plain values.
pub struct BoardView {
    pub top_bbs_url: Seq<char>,
    pub bbs_id: Seq<char>,
    pub hash_key: Option<Seq<char>>,
}

impl View for Board {
    type V = BoardView;

    open spec fn view(&self) -> BoardView {
        BoardView {
            top_bbs_url: self.top_bbs_url@,
            bbs_id: self.bbs_id@,
            hash_key: match self.hash_key {
                Some(k) => Some(k@),
                None => None,
            },
        }
    }
}

/// The board after a derivation from `page`: a credential that was derived
/// replaces the stored one; on failure no credential is kept.
pub open spec fn after_derive(b: BoardView, page: Option<Seq<char>>) -> BoardView {
    BoardView {
        top_bbs_url: b.top_bbs_url,
        bbs_id: b.bbs_id,
        hash_key: match derivation_of(page) {
            Ok(k) => Some(k),
            Err(_) => None,
        },
    }
}

pub open spec fn page_view(page: Option<&str>) -> Option<Seq<char>> {
    match page {
        None => None,
        Some(p) => Some(p@),
    }
}

impl Board {
    /// A board with the given identity and no credential yet.
    pub fn new(top_bbs_url: &str, bbs_id: &str) -> (b: Board)
        ensures
            b@.top_bbs_url == top_bbs_url@,
            b@.bbs_id == bbs_id@,
            b@.hash_key.is_none(),
    {
        Board {
            top_bbs_url: String::from_str(top_bbs_url),
            bbs_id: String::from_str(bbs_id),
            hash_key: None,
        }
    }

    /// Reads the credential out of the landing page's HTML: the value of the
    /// first query parameter of the `src` of the element `#community-bbs`.
    pub fn parse_top_bbs_html(html: &str) -> (r: Result<String, CredentialError>)
        ensures
            result_view(r) == credential_of(html@),
    {
        match select_src(html, "#community-bbs") {
            None => Err(CredentialError::ElementNotFound),
            Some(None) => Err(CredentialError::MalformedUrl),
            Some(Some(src)) => match query_value(src.as_str()) {
                None => Err(CredentialError::MalformedUrl),
                Some(None) => Err(CredentialError::MissingCredential),
                Some(Some(v)) => Ok(v),
            },
        }
    }

    /// Derives the credential from the landing page fetched with the session
    /// cookie (`None` when that fetch failed) and stores it on the board.
    pub fn get_hash_key(&mut self, page: Option<&str>) -> (r: Result<String, CredentialError>)
        ensures
            result_view(r) == derivation_of(page_view(page)),
            final(self)@ == after_derive(old(self)@, page_view(page)),
    {
        let r = match page {
            None => Err(CredentialError::FetchFailed),
            Some(html) => Board::parse_top_bbs_html(html),
        };
        match &r {
            Ok(k) => { self.hash_key = Some(k.clone()); },
            Err(_) => { self.hash_key = None; },
        }
        r
    }
}

/// Deriving from the same page yields the same credential whatever the boards
/// held before, and deriving twice leaves a board as deriving once does.
pub proof fn lemma_derive_idempotent(b1: BoardView, b2: BoardView, page: Option<Seq<char>>)
    ensures
        after_derive(b1, page).hash_key == after_derive(b2, page).hash_key,
        after_derive(after_derive(b1, page), page) == after_derive(b1, page),
{
}

/// What the relay keeps between messages: the user's session cookie and the board.
pub struct HandlerData {
    pub user_session: String,
    pub board: Board,
}

} // verus!
