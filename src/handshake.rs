//! The readiness handshake: classifying one line of sidecar output as a
//! structured announcement, a legacy banner, or ordinary output.

use vstd::prelude::*;

use crate::scan::{chars_of, find_from, find_stop_from, first_from, first_stop_from};
use crate::text::{decimal_digits, decimal_of, push_char, push_str};

verus! {

/// Port announced when a structured handshake leaves it out.
pub const DEFAULT_PORT: u64 = 41242;

/// One top-level member of a JSON object, as the handshake reads it: the
/// key, the value when it is a string, and the value when it is an integer
/// that fits in `u64`.
#[derive(Clone, Debug, PartialEq, Eq)]
pub struct JsonMember {
    pub key: String,
    pub text: Option<String>,
    pub unsigned: Option<u64>,
}

/// What the handshake reads of one member.
pub type MemberView = (Seq<char>, Option<Seq<char>>, Option<u64>);

pub open spec fn member_view(m: JsonMember) -> MemberView {
    (
        m.key@,
        match m.text {
            Some(t) => Some(t@),
            None => None,
        },
        m.unsigned,
    )
}

pub open spec fn members_view(ms: Option<Vec<JsonMember>>) -> Option<Seq<MemberView>> {
    match ms {
        Some(v) => Some(v@.map_values(|m: JsonMember| member_view(m))),
        None => None,
    }
}

/// The top-level members that serde_json reads from `line`, in the order
/// its map yields them, or `None` where the text is not a JSON object.
pub uninterp spec fn json_members_of(line: Seq<char>) -> Option<Seq<MemberView>>;

/// Relies on `serde_json::from_str` to read `line` as a JSON value; the
/// value's own accessors (`as_object`, `as_str`, `as_u64`) only move its
/// top-level members into plain values.
#[verifier::external_body]
fn parse_json_members(line: &str) -> (r: Option<Vec<JsonMember>>)
    ensures
        members_view(r) == json_members_of(line@),
{
    let value: serde_json::Value = serde_json::from_str(line).ok()?;
    let object = value.as_object()?;
    Some(object.iter().map(|(k, v)| JsonMember {
        key: k.clone(),
        text: v.as_str().map(|t| t.to_string()),
        unsigned: v.as_u64(),
    }).collect())
}

/// The outcome of reading one line: connection info, or nothing.
#[derive(Clone, Debug, PartialEq, Eq)]
pub enum Handshake {
    Ready { url: String, token: String },
    NoMatch,
}

impl Handshake {
    pub open spec fn view(self) -> Option<(Seq<char>, Seq<char>)> {
        match self {
            Handshake::Ready { url, token } => Some((url@, token@)),
            Handshake::NoMatch => None,
        }
    }
}

pub open spec fn status_key() -> Seq<char> {
    "terminai_status"@
}

pub open spec fn ready_value() -> Seq<char> {
    "ready"@
}

pub open spec fn port_key() -> Seq<char> {
    "port"@
}

pub open spec fn token_key() -> Seq<char> {
    "token"@
}

pub open spec fn loopback_prefix() -> Seq<char> {
    "http://127.0.0.1:"@
}

pub open spec fn banner_marker() -> Seq<char> {
    "Web Remote"@
}

/// The first member of `ms` whose key is `key`.
pub open spec fn find_member(ms: Seq<MemberView>, key: Seq<char>) -> Option<MemberView>
    decreases ms.len(),
{
    if ms.len() == 0 {
        None
    } else {
        match find_member(ms.drop_last(), key) {
            Some(m) => Some(m),
            None => if ms.last().0 == key {
                Some(ms.last())
            } else {
                None
            },
        }
    }
}

/// The endpoint URL for a loopback port.
pub open spec fn loopback_url(port: nat) -> Seq<char> {
    loopback_prefix() + decimal_of(port)
}

/// The port a structured handshake announces: its integer `port` member,
/// else the default.
pub open spec fn announced_port(ms: Seq<MemberView>) -> u64 {
    match find_member(ms, port_key()) {
        Some(m) => match m.2 {
            Some(p) => p,
            None => DEFAULT_PORT,
        },
        None => DEFAULT_PORT,
    }
}

/// The token a structured handshake announces: its string `token` member,
/// else the bridge's own token.
pub open spec fn announced_token(ms: Seq<MemberView>, own: Seq<char>) -> Seq<char> {
    match find_member(ms, token_key()) {
        Some(m) => match m.1 {
            Some(t) => t,
            None => own,
        },
        None => own,
    }
}

/// Whether the members carry the ready status marker.
pub open spec fn is_ready_status(ms: Seq<MemberView>) -> bool {
    match find_member(ms, status_key()) {
        Some(m) => m.1 == Some(ready_value()),
        None => false,
    }
}

/// The structured handshake: (URL, token) when the line is a JSON object
/// whose status member is the string `ready`.
pub open spec fn structured_spec(members: Option<Seq<MemberView>>, own: Seq<char>) -> Option<
    (Seq<char>, Seq<char>),
> {
    match members {
        Some(ms) => if is_ready_status(ms) {
            Some((loopback_url(announced_port(ms) as nat), announced_token(ms, own)))
        } else {
            None
        },
        None => None,
    }
}

/// The legacy banner: a line holding the banner marker and a loopback URL
/// yields that URL, cut at the first `/` or space after the prefix.
pub open spec fn legacy_url(line: Seq<char>) -> Option<Seq<char>> {
    if first_from(line, banner_marker(), 0) is None {
        None
    } else {
        match first_from(line, loopback_prefix(), 0) {
            Some(s) => match first_stop_from(line, s + loopback_prefix().len()) {
                Some(e) => Some(line.subrange(s, e)),
                None => None,
            },
            None => None,
        }
    }
}

/// The handshake of one line: the structured reading first, and only where
/// it finds nothing, the legacy banner with the bridge's own token.
pub open spec fn classify_spec(members: Option<Seq<MemberView>>, line: Seq<char>, own: Seq<char>) -> Option<
    (Seq<char>, Seq<char>),
> {
    match structured_spec(members, own) {
        Some(r) => Some(r),
        None => match legacy_url(line) {
            Some(u) => Some((u, own)),
            None => None,
        },
    }
}

/// The first member whose key is `key`.
fn find_member_exec(ms: &Vec<JsonMember>, key: &String) -> (r: Option<usize>)
    ensures
        match find_member(ms@.map_values(|m: JsonMember| member_view(m)), key@) {
            Some(m) => r matches Some(i) && i < ms.len() && member_view(ms@[i as int]) == m,
            None => r is None,
        },
{
    let ghost mv = ms@.map_values(|m: JsonMember| member_view(m));
    let mut found: Option<usize> = None;
    let mut i: usize = 0;
    while i < ms.len()
        invariant
            i <= ms.len(),
            mv == ms@.map_values(|m: JsonMember| member_view(m)),
            match find_member(mv.subrange(0, i as int), key@) {
                Some(m) => found matches Some(j) && j < i && member_view(ms@[j as int]) == m,
                None => found is None,
            },
        decreases ms.len() - i,
    {
        assert(mv.subrange(0, i + 1).drop_last() =~= mv.subrange(0, i as int));
        if found.is_none() && ms[i].key == *key {
            found = Some(i);
        }
        i = i + 1;
    }
    assert(mv.subrange(0, ms.len() as int) =~= mv);
    found
}

/// The structured handshake over members already read from a line.
pub fn structured_handshake(members: &Option<Vec<JsonMember>>, own_token: &str) -> (r: Handshake)
    ensures
        r.view() == structured_spec(members_view(*members), own_token@),
{
    let ms = match members {
        Some(ms) => ms,
        None => return Handshake::NoMatch,
    };
    let ghost mv = ms@.map_values(|m: JsonMember| member_view(m));
    let status_at = find_member_exec(ms, &"terminai_status".to_owned());
    let ready = match status_at {
        Some(i) => match &ms[i].text {
            Some(t) => *t == "ready".to_owned(),
            None => false,
        },
        None => false,
    };
    if !ready {
        return Handshake::NoMatch;
    }
    let port: u64 = match find_member_exec(ms, &"port".to_owned()) {
        Some(i) => match ms[i].unsigned {
            Some(p) => p,
            None => DEFAULT_PORT,
        },
        None => DEFAULT_PORT,
    };
    let token: String = match find_member_exec(ms, &"token".to_owned()) {
        Some(i) => match &ms[i].text {
            Some(t) => t.clone(),
            None => own_token.to_owned(),
        },
        None => own_token.to_owned(),
    };
    let mut url = "http://127.0.0.1:".to_owned();
    let digits = decimal_digits(port);
    push_str(&mut url, digits.as_str());
    assert(port == announced_port(mv));
    Handshake::Ready { url, token }
}

/// The URL of a legacy banner line.
pub fn legacy_banner_url(line: &str) -> (r: Option<String>)
    ensures
        match r {
            Some(u) => legacy_url(line@) == Some(u@),
            None => legacy_url(line@) is None,
        },
{
    let cs = chars_of(line);
    let marker = chars_of("Web Remote");
    let prefix = chars_of("http://127.0.0.1:");
    if find_from(&cs, &marker, 0).is_none() {
        return None;
    }
    let start = match find_from(&cs, &prefix, 0) {
        Some(s) => s,
        None => return None,
    };
    assert(start + prefix.len() <= cs.len()) by {
        lemma_first_from_fits(cs@, prefix@, 0);
    }
    let end = match find_stop_from(&cs, start + prefix.len()) {
        Some(e) => e,
        None => return None,
    };
    proof {
        lemma_first_stop_fits(cs@, start + prefix@.len());
    }
    let mut url = String::new();
    let mut k: usize = start;
    while k < end
        invariant
            start <= k <= end,
            end <= cs.len(),
            url@ =~= cs@.subrange(start as int, k as int),
        decreases end - k,
    {
        push_char(&mut url, cs[k]);
        k = k + 1;
    }
    Some(url)
}

/// The handshake of one line of output: the structured reading first, and
/// only where it finds nothing, the legacy banner with `own_token`.
pub fn classify_line(line: &str, own_token: &str) -> (r: Handshake)
    ensures
        r.view() == classify_spec(json_members_of(line@), line@, own_token@),
{
    let members = parse_json_members(line);
    match structured_handshake(&members, own_token) {
        Handshake::Ready { url, token } => Handshake::Ready { url, token },
        Handshake::NoMatch => match legacy_banner_url(line) {
            Some(url) => Handshake::Ready { url, token: own_token.to_owned() },
            None => Handshake::NoMatch,
        },
    }
}

/// A line whose structured reading succeeds yields that reading alone: the
/// legacy banner is never consulted for it.
pub proof fn lemma_structured_takes_priority(
    members: Option<Seq<MemberView>>,
    line: Seq<char>,
    own: Seq<char>,
)
    requires
        structured_spec(members, own) is Some,
    ensures
        classify_spec(members, line, own) == structured_spec(members, own),
{
}

/// A line with no structured handshake but with a legacy banner yields the
/// banner's URL together with the bridge's own token.
pub proof fn lemma_legacy_fallback(members: Option<Seq<MemberView>>, line: Seq<char>, own: Seq<char>)
    requires
        structured_spec(members, own) is None,
        legacy_url(line) is Some,
    ensures
        classify_spec(members, line, own) == Some((legacy_url(line)->0, own)),
{
}

/// A first occurrence lies inside the text.
proof fn lemma_first_from_fits(h: Seq<char>, p: Seq<char>, i: int)
    ensures
        first_from(h, p, i) matches Some(s) ==> i <= s && s + p.len() <= h.len(),
    decreases h.len() + 1 - i,
{
    if i < 0 || i + p.len() > h.len() {
    } else if crate::scan::occurs_at(h, p, i) {
    } else {
        lemma_first_from_fits(h, p, i + 1);
    }
}

/// A first stop character lies inside the text.
proof fn lemma_first_stop_fits(h: Seq<char>, i: int)
    ensures
        first_stop_from(h, i) matches Some(e) ==> i <= e < h.len(),
    decreases h.len() - i,
{
    if i < 0 || i >= h.len() {
    } else if crate::scan::is_url_stop(h[i]) {
    } else {
        lemma_first_stop_fits(h, i + 1);
    }
}

} // verus!
