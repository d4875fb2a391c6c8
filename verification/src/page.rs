//! The page that shows a paste, and the answer that carries it.

use crate::clock::{in_chrono_range, Moment};
use crate::state::{text_of, AppState};
use vstd::prelude::*;
use vstd::string::*;

verus! {

/// Status of an answer that carries the page.
pub const STATUS_OK: u16 = 200;

/// Status of the answer when the page could not be rendered.
pub const STATUS_INTERNAL_SERVER_ERROR: u16 = 500;

/// What the answer says before the renderer's own words when the page could
/// not be rendered.
pub const RENDER_FAILURE: &'static str = "Failed to render template. Error: ";

/// What the page template is filled with.
#[derive(Debug, Clone, PartialEq, Eq)]
pub struct IndexPage {
    /// A session identifier, new for every page.
    pub uuid: String,
    /// The paste to show; empty where there is none.
    pub content: String,
    /// Whether this is the page of the paste that never lapses.
    pub persistent: bool,
}

/// An answer to a request for a page.
#[derive(Debug, Clone, PartialEq, Eq)]
pub struct Reply {
    /// The HTTP status code.
    pub status: u16,
    /// Whether the body is HTML; plain text otherwise.
    pub html: bool,
    /// The body.
    pub body: String,
}

/// Whether `c` is a hexadecimal digit in lower case.
pub open spec fn is_lower_hex(c: char) -> bool {
    ('0' <= c <= '9') || ('a' <= c <= 'f')
}

/// Whether `s` is a random (version 4) UUID in hyphenated lower-case form:
/// 36 characters in groups of 8, 4, 4, 4 and 12 hexadecimal digits, the third
/// group starting with `4` and the fourth with `8`, `9`, `a` or `b`.
pub open spec fn is_session_id(s: Seq<char>) -> bool {
    &&& s.len() == 36
    &&& forall|i: int|
        0 <= i < 36 ==> if i == 8 || i == 13 || i == 18 || i == 23 {
            #[trigger] s[i] == '-'
        } else {
            is_lower_hex(s[i])
        }
    &&& s[14] == '4'
    &&& (s[19] == '8' || s[19] == '9' || s[19] == 'a' || s[19] == 'b')
}

/// The text that a page shows for a stored paste: empty where there is none.
pub open spec fn shown(stored: Option<Seq<char>>) -> Seq<char> {
    match stored {
        Some(text) => text,
        None => Seq::empty(),
    }
}

/// `uuid::Uuid::new_v4`, written out by its `Display`.
///
/// Trusted: `new_v4` sets the version to 4 and the variant to RFC 9562
/// whatever the random bits are, and `Display` writes the hyphenated form
/// with lower-case digits.
#[verifier::external_body]
fn random_uuid() -> (r: String)
    ensures
        is_session_id(r@),
{
    uuid::Uuid::new_v4().to_string()
}

/// The page for a stored paste, with the session identifier `uuid`.
pub fn page_for(stored: &Option<String>, persistent: bool, uuid: String) -> (page: IndexPage)
    ensures
        page.uuid == uuid,
        page.content@ == shown(text_of(*stored)),
        page.persistent == persistent,
{
    let content = match stored {
        Some(text) => text.clone(),
        None => String::new(),
    };
    IndexPage { uuid, content, persistent }
}

/// The page of the current paste as a reader finds it at `now`, with the
/// session identifier `uuid`. A paste whose expiry has come is dropped from
/// the board first.
pub fn index_at(state: &mut AppState, now: Moment, uuid: String) -> (page: IndexPage)
    ensures
        final(state)@ == old(state)@.lapsed(now@),
        page.uuid == uuid,
        page.content@ == shown(final(state)@.content),
        !page.persistent,
{
    state.expire_at(now);
    page_for(&state.content, false, uuid)
}

/// The page of the current paste as a reader finds it now, by the system
/// clock, with a new session identifier. A paste whose expiry has come is
/// dropped from the board first.
pub fn index(state: &mut AppState) -> (page: IndexPage)
    ensures
        exists|now: int| in_chrono_range(now) && final(state)@ == #[trigger] old(state)@.lapsed(now),
        is_session_id(page.uuid@),
        page.content@ == shown(final(state)@.content),
        !page.persistent,
{
    state.expire();
    page_for(&state.content, false, random_uuid())
}

/// The page of the paste that never lapses, with the session identifier
/// `uuid`.
pub fn persistent_with(state: &AppState, uuid: String) -> (page: IndexPage)
    ensures
        page.uuid == uuid,
        page.content@ == shown(state@.persistent_content),
        page.persistent,
{
    page_for(&state.persistent_content, true, uuid)
}

/// The page of the paste that never lapses, with a new session identifier.
pub fn persistent(state: &AppState) -> (page: IndexPage)
    ensures
        is_session_id(page.uuid@),
        page.content@ == shown(state@.persistent_content),
        page.persistent,
{
    persistent_with(state, random_uuid())
}

/// The answer for a page that was handed to the renderer: the page as HTML
/// where it rendered, and else a plain notice that ends in the renderer's
/// error.
pub fn into_response(rendered: Result<String, String>) -> (reply: Reply)
    ensures
        (match rendered {
            Ok(html) => reply.status == STATUS_OK && reply.html && reply.body == html,
            Err(error) => reply.status == STATUS_INTERNAL_SERVER_ERROR && !reply.html && reply.body@
                == RENDER_FAILURE@ + error@,
        }),
{
    match rendered {
        Ok(html) => Reply { status: STATUS_OK, html: true, body: html },
        Err(error) => {
            let notice = RENDER_FAILURE.to_owned().concat(error.as_str());
            Reply { status: STATUS_INTERNAL_SERVER_ERROR, html: false, body: notice }
        },
    }
}

} // verus!
