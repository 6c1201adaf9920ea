//! Startup configuration: the names of the watched repository and of the chat
//! destination, each with a fixed fallback used when the surrounding program
//! supplies no value.

use vstd::prelude::*;

verus! {

/// Values read once at startup and passed into the event handler's
/// surroundings; none of them changes while events are handled.
pub struct Config {
    /// Owner of the watched repository.
    pub owner: String,
    /// Name of the watched repository.
    pub repo: String,
    /// Team the message is delivered to.
    pub team: String,
    /// Channel the message is delivered to.
    pub channel: String,
    /// Login override; `None` selects the platform's default identity.
    pub login: Option<String>,
}

impl Config {
    /// Build the configuration from optional overrides, falling back to the
    /// documented defaults where none is given.
    pub fn from_overrides(
        owner: Option<String>,
        repo: Option<String>,
        team: Option<String>,
        channel: Option<String>,
        login: Option<String>,
    ) -> (c: Config)
        ensures
            c.owner@ == (match owner {
                Some(o) => o@,
                None => "jetjinser"@,
            }),
            c.repo@ == (match repo {
                Some(v) => v@,
                None => "fot"@,
            }),
            c.team@ == (match team {
                Some(t) => t@,
                None => "ham-5b68442"@,
            }),
            c.channel@ == (match channel {
                Some(v) => v@,
                None => "general"@,
            }),
            c.login == login,
    {
        Config {
            owner: match owner {
                Some(o) => o,
                None => "jetjinser".to_owned(),
            },
            repo: match repo {
                Some(v) => v,
                None => "fot".to_owned(),
            },
            team: match team {
                Some(t) => t,
                None => "ham-5b68442".to_owned(),
            },
            channel: match channel {
                Some(v) => v,
                None => "general".to_owned(),
            },
            login,
        }
    }
}

} // verus!
