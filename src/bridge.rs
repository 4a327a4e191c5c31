//! The sidecar bridge: the decisions taken on each event of the companion
//! process's output stream, its launch arguments, and its stop.

use vstd::prelude::*;

use crate::handshake::{classify_line, classify_spec, json_members_of, Handshake};
use crate::text::{hex_char, hex_digit, push_char};

verus! {

/// Number of random bytes in a generated connection token.
pub const TOKEN_BYTES: usize = 32;

/// Where the web UI is looked for when the bundled copy is missing and no
/// override is given.
pub const DEV_UI_PATH: &'static str = "./packages/desktop/dist";

/// Workspace used by the legacy launch when no home directory is known.
pub const FALLBACK_WORKSPACE: &'static str = "/tmp";

/// The readiness notification: where the companion listens, the token it
/// accepts, and the workspace it serves.
#[derive(Clone, Debug, PartialEq, Eq)]
pub struct CliReadyEvent {
    pub url: String,
    pub token: String,
    pub workspace: String,
}

/// One event of the companion's output stream.
#[derive(Clone, Debug, PartialEq, Eq)]
pub enum SidecarEvent {
    Stdout(String),
    Stderr(String),
    Terminated,
    Other,
}

/// What the pump does after one event.
pub struct BridgeStep {
    /// The readiness notification to publish, if any.
    pub ready: Option<CliReadyEvent>,
    /// Whether the pump loop ends.
    pub finished: bool,
}

/// The readiness notification as values.
pub type ReadyView = (Seq<char>, Seq<char>, Seq<char>);

impl BridgeStep {
    pub open spec fn view(self) -> (Option<ReadyView>, bool) {
        (
            match self.ready {
                Some(e) => Some((e.url@, e.token@, e.workspace@)),
                None => None,
            },
            self.finished,
        )
    }
}

/// The bridge's state as values.
pub struct BridgeView {
    pub running: bool,
    pub ready_sent: bool,
    pub token: Seq<char>,
    pub workspace: Seq<char>,
}

/// The bridge's side of one companion process. The process handle itself is
/// held by the caller exactly while `running` holds.
pub struct BridgeControl {
    running: bool,
    ready_sent: bool,
    token: String,
    workspace: String,
}

impl View for BridgeControl {
    type V = BridgeView;

    closed spec fn view(&self) -> BridgeView {
        BridgeView {
            running: self.running,
            ready_sent: self.ready_sent,
            token: self.token@,
            workspace: self.workspace@,
        }
    }
}

/// The effect of one event: the next state, the readiness notification
/// published, and whether the pump loop ends.
pub open spec fn bridge_step(s: BridgeView, ev: SidecarEvent) -> (BridgeView, Option<ReadyView>, bool) {
    if !s.running {
        (s, None, true)
    } else {
        match ev {
            SidecarEvent::Stdout(line) => match classify_spec(json_members_of(line@), line@, s.token) {
                Some(found) => if s.ready_sent {
                    (s, None, false)
                } else {
                    (BridgeView { ready_sent: true, ..s }, Some((found.0, found.1, s.workspace)), false)
                },
                None => (s, None, false),
            },
            SidecarEvent::Terminated => (s, None, true),
            _ => (s, None, false),
        }
    }
}

/// The number of readiness notifications published over a run of events.
pub open spec fn ready_count(s: BridgeView, evs: Seq<SidecarEvent>) -> nat
    decreases evs.len(),
{
    if evs.len() == 0 {
        0
    } else {
        let (next, ready, _) = bridge_step(s, evs[0]);
        (if ready is Some { 1nat } else { 0nat }) + ready_count(next, evs.drop_first())
    }
}

/// Over any run of events, a bridge publishes readiness at most once, and
/// never again once it has.
pub proof fn lemma_ready_at_most_once(s: BridgeView, evs: Seq<SidecarEvent>)
    ensures
        ready_count(s, evs) <= if s.ready_sent { 0nat } else { 1nat },
    decreases evs.len(),
{
    if evs.len() > 0 {
        let (next, ready, _) = bridge_step(s, evs[0]);
        lemma_ready_at_most_once(next, evs.drop_first());
    }
}

impl BridgeControl {
    /// A running bridge that has published nothing yet.
    pub fn new(token: String, workspace: String) -> (r: Self)
        ensures
            r@ == (BridgeView { running: true, ready_sent: false, token: token@, workspace: workspace@ }),
    {
        BridgeControl { running: true, ready_sent: false, token, workspace }
    }

    pub fn is_running(&self) -> (r: bool)
        ensures
            r == self@.running,
    {
        self.running
    }

    pub fn token(&self) -> (r: &String)
        ensures
            r@ == self@.token,
    {
        &self.token
    }

    /// Decides what one event of the output stream leads to.
    pub fn on_event(&mut self, ev: &SidecarEvent) -> (r: BridgeStep)
        ensures
            (final(self)@, r.view().0, r.view().1) == bridge_step(old(self)@, *ev),
    {
        if !self.running {
            return BridgeStep { ready: None, finished: true };
        }
        match ev {
            SidecarEvent::Stdout(line) => {
                match classify_line(line.as_str(), self.token.as_str()) {
                    Handshake::Ready { url, token } => {
                        if self.ready_sent {
                            BridgeStep { ready: None, finished: false }
                        } else {
                            self.ready_sent = true;
                            let workspace = self.workspace.clone();
                            BridgeStep { ready: Some(CliReadyEvent { url, token, workspace }), finished: false }
                        }
                    },
                    Handshake::NoMatch => BridgeStep { ready: None, finished: false },
                }
            },
            SidecarEvent::Terminated => BridgeStep { ready: None, finished: true },
            _ => BridgeStep { ready: None, finished: false },
        }
    }

    /// Marks the bridge stopped; the result says whether the held process
    /// is to be killed now, which is so only on the first call.
    pub fn stop(&mut self) -> (kill: bool)
        ensures
            kill == old(self)@.running,
            final(self)@ == (BridgeView { running: false, ..old(self)@ }),
    {
        let kill = self.running;
        self.running = false;
        kill
    }
}

/// The lowercase hexadecimal text of a byte string, two digits per byte.
pub open spec fn hex_of_bytes(b: Seq<u8>) -> Seq<char>
    decreases b.len(),
{
    if b.len() == 0 {
        Seq::empty()
    } else {
        hex_of_bytes(b.drop_last()) + seq![hex_char((b.last() / 16) as nat), hex_char((b.last() % 16) as nat)]
    }
}

/// The token text for a byte string.
pub fn token_from_bytes(bytes: &Vec<u8>) -> (r: String)
    ensures
        r@ == hex_of_bytes(bytes@),
{
    let mut r = String::new();
    let mut i: usize = 0;
    while i < bytes.len()
        invariant
            i <= bytes.len(),
            r@ == hex_of_bytes(bytes@.subrange(0, i as int)),
        decreases bytes.len() - i,
    {
        let b = bytes[i];
        push_char(&mut r, hex_digit(b / 16));
        push_char(&mut r, hex_digit(b % 16));
        assert(bytes@.subrange(0, i + 1).drop_last() =~= bytes@.subrange(0, i as int));
        assert(r@ =~= hex_of_bytes(bytes@.subrange(0, i + 1)));
        i = i + 1;
    }
    assert(bytes@.subrange(0, bytes.len() as int) =~= bytes@);
    r
}

/// Relies on `rand::random`: one byte drawn from the thread-local generator.
#[verifier::external_body]
fn random_byte() -> u8 {
    rand::random::<u8>()
}

/// Whether `t` is the text of some token of `TOKEN_BYTES` bytes.
pub open spec fn is_generated_token(t: Seq<char>) -> bool {
    exists|b: Seq<u8>| b.len() == TOKEN_BYTES && t == hex_of_bytes(b)
}

/// A fresh connection token: `TOKEN_BYTES` random bytes in hexadecimal.
pub fn generate_token() -> (r: String)
    ensures
        is_generated_token(r@),
{
    let mut bytes: Vec<u8> = Vec::new();
    let mut i: usize = 0;
    while i < TOKEN_BYTES
        invariant
            i <= TOKEN_BYTES,
            bytes.len() == i,
        decreases TOKEN_BYTES - i,
    {
        bytes.push(random_byte());
        i = i + 1;
    }
    let r = token_from_bytes(&bytes);
    assert(bytes@.len() == TOKEN_BYTES && r@ == hex_of_bytes(bytes@));
    r
}

/// The connection token: the override where one is given, else a fresh one.
pub fn resolve_token(override_token: Option<String>) -> (r: String)
    ensures
        match override_token {
            Some(t) => r == t,
            None => is_generated_token(r@),
        },
{
    match override_token {
        Some(t) => t,
        None => generate_token(),
    }
}

/// Where the companion finds its web UI: the bundled path where it exists,
/// else the override, else the development default.
pub fn resolve_web_ui_path(bundled: String, bundled_exists: bool, dev_override: Option<String>) -> (r: String)
    ensures
        bundled_exists ==> r == bundled,
        !bundled_exists ==> match dev_override {
            Some(p) => r == p,
            None => r@ == DEV_UI_PATH@,
        },
{
    if bundled_exists {
        bundled
    } else {
        match dev_override {
            Some(p) => p,
            None => DEV_UI_PATH.to_owned(),
        }
    }
}

/// The workspace of the legacy launch: the home directory, else the user
/// profile directory, else `FALLBACK_WORKSPACE`.
pub fn fallback_workspace(home: Option<String>, user_profile: Option<String>) -> (r: String)
    ensures
        match (home, user_profile) {
            (Some(h), _) => r == h,
            (None, Some(u)) => r == u,
            (None, None) => r@ == FALLBACK_WORKSPACE@,
        },
{
    match home {
        Some(h) => h,
        None => match user_profile {
            Some(u) => u,
            None => FALLBACK_WORKSPACE.to_owned(),
        },
    }
}

/// The companion's launch arguments: remote access on a port it picks
/// itself, the given token, and structured output.
pub fn sidecar_args(token: &str) -> (r: Vec<String>)
    ensures
        r@.map_values(|a: String| a@) == seq![
            "--web-remote"@,
            "--web-remote-port"@,
            "0"@,
            "--web-remote-token"@,
            token@,
            "--output-format"@,
            "json"@,
        ],
{
    let mut r: Vec<String> = Vec::new();
    r.push("--web-remote".to_owned());
    r.push("--web-remote-port".to_owned());
    r.push("0".to_owned());
    r.push("--web-remote-token".to_owned());
    r.push(token.to_owned());
    r.push("--output-format".to_owned());
    r.push("json".to_owned());
    assert(r@.map_values(|a: String| a@) =~= seq![
        "--web-remote"@,
        "--web-remote-port"@,
        "0"@,
        "--web-remote-token"@,
        token@,
        "--output-format"@,
        "json"@,
    ]);
    r
}

} // verus!
