//! Formatting of the outbound message: the truncation rule for the free-text
//! body and the fixed template the notification is rendered into.

use vstd::prelude::*;
use vstd::string::{StrSliceExecFns, StringExecFns};
use vstd::utf8::encode_utf8;

verus! {

/// Most characters of a discussion body that are kept in the message.
pub const BODY_CHAR_LIMIT: usize = 200;

/// The kept prefix of the body: the whole body when it stays within the
/// limit, its first `BODY_CHAR_LIMIT` characters otherwise.
pub open spec fn spec_truncated(body: Seq<char>) -> Seq<char> {
    if body.len() <= BODY_CHAR_LIMIT {
        body
    } else {
        body.subrange(0, BODY_CHAR_LIMIT as int)
    }
}

/// The mark appended after the kept text. The decision goes by the UTF-8
/// byte length of the whole body, while the kept text is counted in
/// characters: a body of more than `BODY_CHAR_LIMIT` bytes but no more than
/// that many characters is kept whole and still gets the mark.
pub open spec fn spec_ellipsis(body: Seq<char>) -> Seq<char> {
    if encode_utf8(body).len() > BODY_CHAR_LIMIT {
        "..."@
    } else {
        Seq::<char>::empty()
    }
}

/// The body segment of the outbound message: kept text plus ellipsis mark.
pub open spec fn spec_body_segment(body: Seq<char>) -> Seq<char> {
    spec_truncated(body) + spec_ellipsis(body)
}

/// The outbound message for an extracted (author, title, body, link) tuple.
pub open spec fn spec_message(
    author: Seq<char>,
    title: Seq<char>,
    body: Seq<char>,
    link: Seq<char>,
) -> Seq<char> {
    "New Discussion Created by _"@ + author + "_:\n*"@ + title + "*\n"@
        + spec_body_segment(body) + "\n\nopen: "@ + link
}

/// Kept text of the body plus the ellipsis mark when the body was shortened.
pub fn body_segment(body: &str) -> (r: String)
    ensures
        r@ == spec_body_segment(body@),
{
    let chars = body.unicode_len();
    let mut seg: String = if chars <= BODY_CHAR_LIMIT {
        body.to_owned()
    } else {
        body.substring_char(0, BODY_CHAR_LIMIT).to_owned()
    };
    let bytes = body.as_bytes();
    proof {
        assert(bytes@ == encode_utf8(body@));
    }
    if bytes.len() > BODY_CHAR_LIMIT {
        seg.append("...");
    }
    proof {
        assert(seg@ =~= spec_body_segment(body@));
    }
    seg
}

/// Render the message template with the extracted values substituted.
pub fn format_message(author: &str, title: &str, body: &str, link: &str) -> (r: String)
    ensures
        r@ == spec_message(author@, title@, body@, link@),
{
    let mut m: String = "New Discussion Created by _".to_owned();
    m.append(author);
    m.append("_:\n*");
    m.append(title);
    m.append("*\n");
    let seg = body_segment(body);
    m.append(seg.as_str());
    m.append("\n\nopen: ");
    m.append(link);
    proof {
        assert(m@ =~= spec_message(author@, title@, body@, link@));
    }
    m
}

} // verus!
