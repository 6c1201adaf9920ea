//! The guarantees the handler gives, stated once over all inputs: which events
//! are skipped, which abort, when a message is owed, and what the truncation
//! rule does to short and to long bodies.

use vstd::prelude::*;
use vstd::utf8::{encode_utf8, is_ascii_chars, is_ascii_chars_encode_utf8};
use crate::handler::{
    spec_actionable, spec_author, spec_body_text, spec_discussion, spec_handle, ExtractError,
    Verdict,
};
use crate::message::{spec_body_segment, BODY_CHAR_LIMIT};
use crate::value::{spec_field, spec_text, Json};

verus! {

/// An event whose `action` field is present and is not the text "created"
/// yields no message.
pub proof fn lemma_foreign_action_sends_nothing(p: Json)
    requires
        spec_field(p, "action"@) is Some,
        spec_text(p, "action"@) != Some("created"@),
    ensures
        spec_handle(p) == Verdict::NotActionable,
{
}

/// An edit to a discussion, in particular, is never announced.
pub proof fn lemma_edited_action_sends_nothing(p: Json)
    requires
        spec_text(p, "action"@) == Some("edited"@),
    ensures
        spec_handle(p) == Verdict::NotActionable,
{
    reveal_strlit("edited");
    reveal_strlit("created");
    assert("edited"@.len() == 6);
    assert("created"@.len() == 7);
    lemma_foreign_action_sends_nothing(p);
}

/// A payload without an `action` field is handled exactly like one whose
/// `action` says "created" and that agrees with it on the `discussion` field.
pub proof fn lemma_absent_action_like_created(p: Json, q: Json)
    requires
        spec_field(p, "action"@) is None,
        spec_text(q, "action"@) == Some("created"@),
        spec_field(p, "discussion"@) == spec_field(q, "discussion"@),
    ensures
        spec_handle(p) == spec_handle(q),
{
}

/// When the `discussion` field is absent, null, or not a record, no message
/// is sent.
pub proof fn lemma_no_discussion_sends_nothing(p: Json)
    requires
        !(spec_field(p, "discussion"@) matches Some(Json::Record(_))),
    ensures
        !(spec_handle(p) matches Verdict::Send(_)),
{
}

/// An actionable event whose discussion lacks a `title` aborts the handling
/// of that one event: nothing is sent.
pub proof fn lemma_missing_title_aborts(p: Json, d: Json)
    requires
        spec_discussion(p) == Some(d),
        spec_text(d, "title"@) is None,
    ensures
        !(spec_handle(p) matches Verdict::Send(_)),
        spec_actionable(p) ==> spec_handle(p) == Verdict::Abort(ExtractError::MissingTitle),
{
}

/// A message is owed exactly for an actionable event whose discussion is a
/// record carrying all three mandatory fields.
pub proof fn lemma_send_iff_valid(p: Json)
    ensures
        (spec_handle(p) matches Verdict::Send(_)) <==> ({
            &&& spec_actionable(p)
            &&& spec_discussion(p) matches Some(d)
            &&& spec_text(d, "title"@) is Some
            &&& spec_text(d, "html_url"@) is Some
            &&& spec_author(d) is Some
        }),
{
}

/// A body within the limit both in characters and in UTF-8 bytes appears in
/// the message verbatim, with no ellipsis mark.
pub proof fn lemma_short_body_verbatim(body: Seq<char>)
    requires
        body.len() <= BODY_CHAR_LIMIT,
        encode_utf8(body).len() <= BODY_CHAR_LIMIT,
    ensures
        spec_body_segment(body) == body,
{
    assert(spec_body_segment(body) =~= body);
}

/// A body over the limit in UTF-8 bytes and at least the limit in characters
/// is cut to its first `BODY_CHAR_LIMIT` characters and marked with an
/// ellipsis.
pub proof fn lemma_long_body_truncated(body: Seq<char>)
    requires
        encode_utf8(body).len() > BODY_CHAR_LIMIT,
        body.len() >= BODY_CHAR_LIMIT,
    ensures
        spec_body_segment(body) == body.subrange(0, BODY_CHAR_LIMIT as int) + "..."@,
{
    assert(spec_body_segment(body) =~= body.subrange(0, BODY_CHAR_LIMIT as int) + "..."@);
}

/// When a discussion carries no body text, the body segment of the message is
/// exactly the placeholder.
pub proof fn lemma_absent_body_placeholder(dis: Json)
    requires
        spec_text(dis, "body"@) is None,
    ensures
        spec_body_segment(spec_body_text(dis)) == "<empty body>"@,
{
    reveal_strlit("<empty body>");
    assert(is_ascii_chars("<empty body>"@));
    is_ascii_chars_encode_utf8("<empty body>"@);
    assert(spec_body_segment(spec_body_text(dis)) =~= "<empty body>"@);
}

} // verus!
