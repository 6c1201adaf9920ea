//! The per-event decision: classify the inbound payload, extract the fields a
//! notification needs, and either produce the message text or say why none is
//! produced. Delivery itself belongs to the caller.

use vstd::prelude::*;
use crate::message::{format_message, spec_message};
use crate::value::{spec_field, spec_text, FieldState, Json};

verus! {

/// The mandatory discussion field whose absence (or wrong type) aborts the
/// handling of the one event it occurs in.
#[derive(Clone, Copy, Debug, PartialEq, Eq)]
pub enum ExtractError {
    MissingTitle,
    MissingLink,
    MissingAuthor,
}

/// Fields a notification needs, pulled out of a discussion record. A missing
/// body is already replaced by the placeholder text here.
pub struct Extraction {
    pub author: String,
    pub title: String,
    pub body: String,
    pub link: String,
}

/// What handling one event yields, with the message stated as a character
/// sequence: the mathematical counterpart of [`Outcome`].
pub enum Verdict {
    Send(Seq<char>),
    NotActionable,
    NotDiscussion,
    Abort(ExtractError),
}

/// What the handler decided for one event.
#[derive(Debug)]
pub enum Outcome {
    /// Deliver this text to the message sink.
    Send(String),
    /// The `action` tag is present and does not say "created": skip silently.
    NotActionable,
    /// The `discussion` field is absent or not a record: skip silently.
    NotDiscussion,
    /// A mandatory field is missing: abort this event, send nothing.
    Abort(ExtractError),
}

/// An event warrants a notification only when its `action` tag is absent or
/// is the text "created".
pub open spec fn spec_actionable(p: Json) -> bool {
    match spec_field(p, "action"@) {
        Some(a) => a matches Json::Text(s) && s@ == "created"@,
        None => true,
    }
}

/// The discussion record of the payload, if the `discussion` field holds one.
pub open spec fn spec_discussion(p: Json) -> Option<Json> {
    match spec_field(p, "discussion"@) {
        Some(d) => if d matches Json::Record(_) {
            Some(d)
        } else {
            None
        },
        None => None,
    }
}

/// The author handle of a discussion: the `login` field of its `user` record.
pub open spec fn spec_author(dis: Json) -> Option<Seq<char>> {
    match spec_field(dis, "user"@) {
        Some(u) => spec_text(u, "login"@),
        None => None,
    }
}

/// The body text of a discussion, with the placeholder substituted when the
/// field is absent or not text.
pub open spec fn spec_body_text(dis: Json) -> Seq<char> {
    match spec_text(dis, "body"@) {
        Some(b) => b,
        None => "<empty body>"@,
    }
}

/// The decision owed for payload `p`: skip events that are not actionable or
/// carry no discussion record, abort on a missing mandatory field, and
/// otherwise send the formatted message.
pub open spec fn spec_handle(p: Json) -> Verdict {
    if !spec_actionable(p) {
        Verdict::NotActionable
    } else {
        match spec_discussion(p) {
            None => Verdict::NotDiscussion,
            Some(d) => match spec_text(d, "title"@) {
                None => Verdict::Abort(ExtractError::MissingTitle),
                Some(title) => match spec_text(d, "html_url"@) {
                    None => Verdict::Abort(ExtractError::MissingLink),
                    Some(link) => match spec_author(d) {
                        None => Verdict::Abort(ExtractError::MissingAuthor),
                        Some(author) => Verdict::Send(
                            spec_message(author, title, spec_body_text(d), link),
                        ),
                    },
                },
            },
        }
    }
}

/// Pull the notification fields out of a discussion record, enforcing which
/// are mandatory: `title`, `html_url` and `user.login` must be present text,
/// while a missing `body` falls back to the placeholder.
pub fn extract_discussion(dis: &Json) -> (r: Result<Extraction, ExtractError>)
    ensures
        match r {
            Ok(e) => {
                &&& spec_text(*dis, "title"@) == Some(e.title@)
                &&& spec_text(*dis, "html_url"@) == Some(e.link@)
                &&& spec_author(*dis) == Some(e.author@)
                &&& e.body@ == spec_body_text(*dis)
            },
            Err(err) => match err {
                ExtractError::MissingTitle => spec_text(*dis, "title"@) is None,
                ExtractError::MissingLink => spec_text(*dis, "title"@) is Some
                    && spec_text(*dis, "html_url"@) is None,
                ExtractError::MissingAuthor => spec_text(*dis, "title"@) is Some
                    && spec_text(*dis, "html_url"@) is Some && spec_author(*dis) is None,
            },
        },
{
    let title = match dis.text_field("title") {
        FieldState::Value(t) => t,
        _ => {
            return Err(ExtractError::MissingTitle);
        },
    };
    let link = match dis.text_field("html_url") {
        FieldState::Value(u) => u,
        _ => {
            return Err(ExtractError::MissingLink);
        },
    };
    let author = match dis.get("user") {
        Some(user) => match user.text_field("login") {
            FieldState::Value(l) => l,
            _ => {
                return Err(ExtractError::MissingAuthor);
            },
        },
        None => {
            return Err(ExtractError::MissingAuthor);
        },
    };
    let body = match dis.text_field("body") {
        FieldState::Value(b) => b,
        _ => "<empty body>",
    };
    Ok(
        Extraction {
            author: author.to_owned(),
            title: title.to_owned(),
            body: body.to_owned(),
            link: link.to_owned(),
        },
    )
}

/// Handle one inbound event: decide whether it warrants a notification and,
/// if so, produce the message text. The caller owns the delivery; it is owed
/// to the sink exactly when the outcome says `Send`.
pub fn handle(payload: &Json) -> (r: Outcome)
    ensures
        match r {
            Outcome::Send(m) => spec_handle(*payload) == Verdict::Send(m@),
            Outcome::NotActionable => spec_handle(*payload) == Verdict::NotActionable,
            Outcome::NotDiscussion => spec_handle(*payload) == Verdict::NotDiscussion,
            Outcome::Abort(e) => spec_handle(*payload) == Verdict::Abort(e),
        },
{
    match payload.text_field("action") {
        FieldState::Value(act) => {
            let tag: String = act.to_owned();
            let created: String = "created".to_owned();
            if !(tag == created) {
                return Outcome::NotActionable;
            }
        },
        FieldState::Mismatch => {
            return Outcome::NotActionable;
        },
        FieldState::Absent => {},
    }
    let dis = match payload.get("discussion") {
        Some(d) => {
            if d.is_record() {
                d
            } else {
                return Outcome::NotDiscussion;
            }
        },
        None => {
            return Outcome::NotDiscussion;
        },
    };
    match extract_discussion(dis) {
        Ok(e) => Outcome::Send(
            format_message(e.author.as_str(), e.title.as_str(), e.body.as_str(), e.link.as_str()),
        ),
        Err(err) => Outcome::Abort(err),
    }
}

} // verus!
