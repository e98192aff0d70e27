//! Playback-event notifier for a media-server control surface.
//!
//! Each playback event is translated into one JSON-RPC command and described
//! as a single HTTP POST ([`NotifyRequest`]). The notifier never performs the
//! send itself: the surrounding event loop dispatches the request
//! fire-and-forget and discards any response or error, so a notification can
//! never block or fail the orchestrator.

use vstd::prelude::*;

use crate::digits::dec_rep;
use crate::digits::push_decimal;
use crate::event::PlayerEvent;

verus! {

/// Abstract content of the notifier configuration: the full target URL, the
/// identifier (MAC address) of the player to control, and the optional
/// credential for the control surface.
#[verifier::ext_equal]
pub ghost struct LmsView {
    pub base_url: Option<Seq<char>>,
    pub player_mac: Option<Seq<char>>,
    pub auth: Option<Seq<char>>,
}

/// One outbound notification: a POST of `body` to `url`, with an optional
/// `Authorization` header value.
pub struct NotifyRequest {
    pub url: String,
    pub auth: Option<String>,
    pub body: String,
}

/// Abstract content of a [`NotifyRequest`].
#[verifier::ext_equal]
pub ghost struct RequestView {
    pub url: Seq<char>,
    pub auth: Option<Seq<char>>,
    pub body: Seq<char>,
}

impl View for NotifyRequest {
    type V = RequestView;

    closed spec fn view(&self) -> RequestView {
        RequestView {
            url: self.url@,
            auth: match self.auth {
                Some(a) => Some(a@),
                None => None,
            },
            body: self.body@,
        }
    }
}

/// The full target URL built from a host-and-port string.
pub open spec fn url_chars(host: Seq<char>) -> Seq<char> {
    "http://"@ + host + "/jsonrpc.js"@
}

/// The JSON command array sent for `event`.
///
/// A seek deliberately reuses the bare change command with no position: the
/// control surface re-reads player state itself rather than trusting a
/// position payload. A stop likewise carries no track identifier.
pub open spec fn command_chars(event: PlayerEvent) -> Seq<char> {
    match event {
        PlayerEvent::Changed { old_track_id, new_track_id } => "[\"spottyconnect\",\"change\",\""@
            + new_track_id@ + "\",\""@ + old_track_id@ + "\"]"@,
        PlayerEvent::Started { track_id } => "[\"spottyconnect\",\"start\",\""@ + track_id@
            + "\"]"@,
        PlayerEvent::Stopped { .. } => "[\"spottyconnect\",\"stop\"]"@,
        PlayerEvent::Volume { volume } => "[\"spottyconnect\",\"volume\","@ + dec_rep(
            volume as nat,
        ) + "]"@,
        PlayerEvent::Seek { .. } => "[\"spottyconnect\",\"change\"]"@,
    }
}

/// The JSON-RPC body that carries `command` addressed to player `mac`.
pub open spec fn body_chars(mac: Seq<char>, command: Seq<char>) -> Seq<char> {
    "{\"id\": 1,\"method\":\"slim.request\",\"params\":[\""@ + mac + "\","@ + command + "]}"@
}

/// The request (if any) that a notifier with configuration `n` issues for
/// `event`: exactly one when both the target URL and the player identifier
/// are present, none otherwise.
pub open spec fn spec_notify(n: LmsView, event: PlayerEvent) -> Option<RequestView> {
    if n.base_url is Some && n.player_mac is Some {
        Some(
            RequestView {
                url: n.base_url->0,
                auth: match n.auth {
                    Some(a) => Some("Basic "@ + a),
                    None => None,
                },
                body: body_chars(n.player_mac->0, command_chars(event)),
            },
        )
    } else {
        None
    }
}

/// Connection settings for the media-server control surface.
#[derive(Clone)]
pub struct LMS {
    base_url: Option<String>,
    player_mac: Option<String>,
    auth: Option<String>,
}

impl View for LMS {
    type V = LmsView;

    closed spec fn view(&self) -> LmsView {
        LmsView {
            base_url: match self.base_url {
                Some(u) => Some(u@),
                None => None,
            },
            player_mac: match self.player_mac {
                Some(m) => Some(m@),
                None => None,
            },
            auth: match self.auth {
                Some(a) => Some(a@),
                None => None,
            },
        }
    }
}

impl LMS {
    /// Builds the notifier settings. The target host defaults to
    /// `localhost:9000` when none is given, so the URL is always present;
    /// the player identifier and the credential stay as passed.
    pub fn new(base_url: Option<String>, player_mac: Option<String>, auth: Option<String>) -> (r:
        LMS)
        ensures
            r@.base_url matches Some(u) && u =~= url_chars(
                match base_url {
                    Some(h) => h@,
                    None => "localhost:9000"@,
                },
            ),
            r@.player_mac == (match player_mac {
                Some(m) => Some(m@),
                None => None::<Seq<char>>,
            }),
            r@.auth == (match auth {
                Some(a) => Some(a@),
                None => None::<Seq<char>>,
            }),
    {
        let host = match base_url {
            Some(h) => h,
            None => String::from_str("localhost:9000"),
        };
        let mut url = String::from_str("http://");
        url.append(host.as_str());
        url.append("/jsonrpc.js");
        LMS { base_url: Some(url), player_mac, auth }
    }

    /// True iff both a target URL and a player identifier are set. When
    /// false, every notify call is a silent no-op.
    pub fn is_configured(&self) -> (r: bool)
        ensures
            r == (self@.base_url is Some && self@.player_mac is Some),
    {
        if self.base_url.is_some() {
            if self.player_mac.is_some() {
                return true;
            }
        }
        false
    }

    /// Translates `event` into the HTTP request that mirrors it to the
    /// control surface, or `None` when the notifier is not configured.
    pub fn signal_event(&self, event: &PlayerEvent) -> (r: Option<NotifyRequest>)
        ensures
            r is Some <==> (self@.base_url is Some && self@.player_mac is Some),
            r matches Some(req) ==> spec_notify(self@, *event) matches Some(rv) && req@ =~= rv,
    {
        let command = command_string(event);

        if !self.is_configured() {
            return None;
        }
        match (&self.base_url, &self.player_mac) {
            (Some(base_url), Some(player_mac)) => {
                let mut body = String::from_str(
                    "{\"id\": 1,\"method\":\"slim.request\",\"params\":[\"",
                );
                body.append(player_mac.as_str());
                body.append("\",");
                body.append(command.as_str());
                body.append("]}");
                let auth = match &self.auth {
                    Some(a) => {
                        let mut h = String::from_str("Basic ");
                        h.append(a.as_str());
                        Some(h)
                    },
                    None => None,
                };
                Some(NotifyRequest { url: base_url.clone(), auth, body })
            },
            _ => None,
        }
    }
}

/// Builds the JSON command array for `event`.
fn command_string(event: &PlayerEvent) -> (r: String)
    ensures
        r@ == command_chars(*event),
{
    match event {
        PlayerEvent::Changed { old_track_id, new_track_id } => {
            let mut s = String::from_str("[\"spottyconnect\",\"change\",\"");
            s.append(new_track_id.as_str());
            s.append("\",\"");
            s.append(old_track_id.as_str());
            s.append("\"]");
            s
        },
        PlayerEvent::Started { track_id } => {
            let mut s = String::from_str("[\"spottyconnect\",\"start\",\"");
            s.append(track_id.as_str());
            s.append("\"]");
            s
        },
        PlayerEvent::Stopped { .. } => String::from_str("[\"spottyconnect\",\"stop\"]"),
        PlayerEvent::Volume { volume } => {
            let mut s = String::from_str("[\"spottyconnect\",\"volume\",");
            push_decimal(&mut s, *volume as u64);
            s.append("]");
            s
        },
        PlayerEvent::Seek { .. } => String::from_str("[\"spottyconnect\",\"change\"]"),
    }
}

} // verus!
