//! A client for posting chat messages to a web bulletin board.
//!
//! Posting takes two steps. The first derives a session-scoped credential
//! from the board's landing page. The second submits a form-encoded post and
//! classifies the server's reply. The network calls are left to the caller:
//! this library decides what to send and what the replies mean.

pub mod board;
pub mod post;
pub mod relay;

pub use board::{Board, CredentialError, HandlerData};
pub use post::{classify, cookie_header, finish_post, form_body, post_url, prepare_post, PostError, PostOutcome, PostRequest};
pub use relay::{relay_text, remove_mentions, reply_text};
