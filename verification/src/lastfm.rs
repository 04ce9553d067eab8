use vstd::prelude::*;
use url::Url;
use crate::models::{LastFMState, Session};

verus! {

/// The UTF-8 encoding of a character.
pub open spec fn utf8_bytes(c: char) -> Seq<u8> {
    let cp = c as int;
    if cp < 0x80 {
        seq![cp as u8]
    } else if cp < 0x800 {
        seq![(0xC0 + cp / 64) as u8, (0x80 + cp % 64) as u8]
    } else if cp < 0x10000 {
        seq![(0xE0 + cp / 4096) as u8, (0x80 + (cp / 64) % 64) as u8, (0x80 + cp % 64) as u8]
    } else {
        seq![
            (0xF0 + cp / 262144) as u8,
            (0x80 + (cp / 4096) % 64) as u8,
            (0x80 + (cp / 64) % 64) as u8,
            (0x80 + cp % 64) as u8,
        ]
    }
}

/// An uppercase hexadecimal digit.
pub open spec fn hex_digit(d: int) -> char {
    if d < 10 {
        ('0' as int + d) as char
    } else {
        ('A' as int + d - 10) as char
    }
}

/// The bytes that form encoding leaves as they are: ASCII letters and digits and `*-._`.
pub open spec fn form_unchanged(b: u8) -> bool {
    b == 0x2A || b == 0x2D || b == 0x2E || b == 0x5F || (0x30 <= b <= 0x39) || (0x41 <= b
        <= 0x5A) || (0x61 <= b <= 0x7A)
}

/// How `application/x-www-form-urlencoded` writes a byte: as it is, a space as `+`, any
/// other byte as `%` and two uppercase hexadecimal digits.
pub open spec fn form_byte(b: u8) -> Seq<char> {
    if form_unchanged(b) {
        seq![b as char]
    } else if b == 0x20 {
        seq!['+']
    } else {
        seq!['%', hex_digit(b as int / 16), hex_digit(b as int % 16)]
    }
}

pub open spec fn form_bytes(bs: Seq<u8>) -> Seq<char>
    decreases bs.len(),
{
    if bs.len() == 0 {
        Seq::empty()
    } else {
        form_bytes(bs.drop_last()) + form_byte(bs.last())
    }
}

/// A text form-encoded from its UTF-8 bytes.
pub open spec fn form_encoded(s: Seq<char>) -> Seq<char>
    decreases s.len(),
{
    if s.len() == 0 {
        Seq::empty()
    } else {
        form_encoded(s.drop_last()) + form_bytes(utf8_bytes(s.last()))
    }
}

/// The Last.fm page that authorises a token: the authorisation address with the form-encoded
/// `api_key` and `token` query parameters, as `url::Url::parse_with_params` writes it.
pub open spec fn auth_url_spec(key: Seq<char>, token: Seq<char>) -> Seq<char> {
    "http://last.fm/api/auth?api_key="@ + form_encoded(key) + "&token="@ + form_encoded(token)
}

/// `Url::parse_with_params` on the Last.fm authorisation page with the `api_key` and `token`
/// query parameters, written out as a string: the base address, which parses as it is written,
/// then `?` and the pairs as `form_urlencoded::Serializer::append_pair` writes them from UTF-8.
/// The call fails only where its base address does not parse, and this one is a valid absolute
/// address, so it always succeeds.
#[verifier::external_body]
fn parse_auth_url(key: &str, token: &str) -> (r: Option<String>)
    ensures
        r is Some,
        r matches Some(u) ==> u@ == auth_url_spec(key@, token@),
{
    Url::parse_with_params("http://last.fm/api/auth", [("api_key", key), ("token", token)]).ok().map(
        String::from,
    )
}

/// The page the browser opens to authorise a token.
pub fn auth_url(key: &str, token: &str) -> (r: String)
    ensures
        r@ == auth_url_spec(key@, token@),
{
    match parse_auth_url(key, token) {
        Some(u) => u,
        None => String::new(),
    }
}

/// What a click on the Last.fm button does.
#[derive(Clone, Debug)]
pub enum LastFMClick {
    /// Ask for a token and open the authorisation page.
    RequestToken,
    /// Exchange the confirmed token for a session.
    Confirm(String),
    Nothing,
}

pub fn click_action(state: &LastFMState) -> (r: LastFMClick)
    ensures
        match *state {
            LastFMState::Disconnected => r is RequestToken,
            LastFMState::AwaitingFinalization(token) => r matches LastFMClick::Confirm(t) && t
                == token,
            LastFMState::Connected(_) => r is Nothing,
        },
{
    match state {
        LastFMState::Disconnected => LastFMClick::RequestToken,
        LastFMState::AwaitingFinalization(token) => LastFMClick::Confirm(token.clone()),
        LastFMState::Connected(_) => LastFMClick::Nothing,
    }
}

/// The name of the signed-in user.
pub fn connected_name(state: &LastFMState) -> (r: Option<String>)
    ensures
        match *state {
            LastFMState::Connected(s) => r == Some(s.name),
            _ => r is None,
        },
{
    match state {
        LastFMState::Connected(session) => Some(session.name.clone()),
        _ => None,
    }
}

pub open spec fn button_label_spec(state: LastFMState, name: Option<String>) -> Seq<char> {
    match state {
        LastFMState::Disconnected => "Sign in"@,
        LastFMState::AwaitingFinalization(_) => "Click to confirm sign in"@,
        LastFMState::Connected(_) => match name {
            Some(n) => n@,
            None => "Connected"@,
        },
    }
}

/// The text of the Last.fm button, given the remembered user name.
pub fn button_label(state: &LastFMState, name: &Option<String>) -> (r: String)
    ensures
        r@ == button_label_spec(*state, *name),
{
    match state {
        LastFMState::Disconnected => String::from_str("Sign in"),
        LastFMState::AwaitingFinalization(_) => String::from_str("Click to confirm sign in"),
        LastFMState::Connected(_) => match name {
            Some(n) => n.clone(),
            None => String::from_str("Connected"),
        },
    }
}

/// What the Last.fm service answered.
#[derive(Clone, Debug)]
pub enum LastFMReply {
    /// A token to have the user authorise.
    Token(String),
    /// The session that the authorised token was exchanged for.
    Session(Session),
    /// The request failed.
    Failed,
}

/// The state after the service's answer: a token waits for the user to confirm the sign-in, a
/// session signs in, and a failure leaves the state as it was.
pub fn next_lastfm_state(state: LastFMState, reply: LastFMReply) -> (r: LastFMState)
    ensures
        match reply {
            LastFMReply::Token(t) => r == LastFMState::AwaitingFinalization(t),
            LastFMReply::Session(s) => r == LastFMState::Connected(s),
            LastFMReply::Failed => r == state,
        },
{
    match reply {
        LastFMReply::Token(t) => LastFMState::AwaitingFinalization(t),
        LastFMReply::Session(s) => LastFMState::Connected(s),
        LastFMReply::Failed => state,
    }
}

} // verus!
