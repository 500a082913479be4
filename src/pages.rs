//! The root page and the fallback for unknown routes.
use vstd::prelude::*;

use crate::response::{ContentKind, Response, STATUS_INTERNAL_SERVER_ERROR, STATUS_NOT_FOUND, STATUS_OK};

verus! {

/// Where the root page is read from, relative to the working directory.
pub const ROOT_PATH: &'static str = "src/index.html";

/// Text that opens the body of a failed read of the root page.
pub const ROOT_ERROR_PREFIX: &'static str = "Internal Server Error: Unable to find file '";

/// Text between the path and the reason in a failed read of the root page.
pub const ROOT_ERROR_SEPARATOR: &'static str = "': ";

/// Text that opens the body of a not-found answer.
pub const NOT_FOUND_PREFIX: &'static str = "Unable to find route '";

/// Text that closes the body of a not-found answer.
pub const NOT_FOUND_SUFFIX: &'static str = "'";

/// The body of the answer when the root page could not be read for `reason`:
/// it names the path and then the reason.
pub open spec fn root_error_body(reason: Seq<char>) -> Seq<char> {
    ROOT_ERROR_PREFIX@ + ROOT_PATH@ + ROOT_ERROR_SEPARATOR@ + reason
}

/// The body of the answer to a request for the unknown route `uri`.
pub open spec fn not_found_body(uri: Seq<char>) -> Seq<char> {
    NOT_FOUND_PREFIX@ + uri + NOT_FOUND_SUFFIX@
}

/// `part` occurs in `text` as a run of consecutive characters.
pub open spec fn occurs_in(part: Seq<char>, text: Seq<char>) -> bool {
    exists|i: int|
        0 <= i && i + part.len() <= text.len() && #[trigger] text.subrange(i, i + part.len())
            == part
}

/// A failed read of the root page is reported with a body that names the
/// page's path and ends with the reason the read failed.
pub proof fn lemma_root_error_names_path_and_reason(reason: Seq<char>)
    ensures
        occurs_in(ROOT_PATH@, root_error_body(reason)),
        root_error_body(reason).subrange(
            root_error_body(reason).len() - reason.len(),
            root_error_body(reason).len() as int,
        ) == reason,
{
    let body = root_error_body(reason);
    let start = ROOT_ERROR_PREFIX@.len() as int;
    assert(body.subrange(start, start + ROOT_PATH@.len()) =~= ROOT_PATH@);
    assert(body.subrange(body.len() - reason.len(), body.len() as int) =~= reason);
}

/// The answer to `GET /`, given the outcome of reading [`ROOT_PATH`] as text:
/// the page itself as HTML, or a server error that names the path and the
/// reason the read failed.
pub fn root_get(read: Result<String, String>) -> (r: Response)
    ensures
        match read {
            Ok(content) => r.status == STATUS_OK && r.content == ContentKind::Html
                && r.body@ == content@,
            Err(reason) => r.status == STATUS_INTERNAL_SERVER_ERROR
                && r.content == ContentKind::PlainText && r.body@ == root_error_body(reason@),
        },
{
    match read {
        Ok(content) => Response::new(STATUS_OK, ContentKind::Html, content),
        Err(reason) => {
            let body = String::from_str(ROOT_ERROR_PREFIX).concat(ROOT_PATH).concat(
                ROOT_ERROR_SEPARATOR,
            ).concat(reason.as_str());
            Response::new(STATUS_INTERNAL_SERVER_ERROR, ContentKind::PlainText, body)
        },
    }
}

/// The answer to a request that no route matched: not found, naming the
/// requested `uri`.
pub fn fallback(uri: &str) -> (r: Response)
    ensures
        r.status == STATUS_NOT_FOUND,
        r.content == ContentKind::PlainText,
        r.body@ == not_found_body(uri@),
{
    let body = String::from_str(NOT_FOUND_PREFIX).concat(uri).concat(NOT_FOUND_SUFFIX);
    Response::new(STATUS_NOT_FOUND, ContentKind::PlainText, body)
}

} // verus!
