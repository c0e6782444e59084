//! The remote-control dashboard: which request a URL is, and what the bot
//! does for it. The HTTP server and the page itself live in the program
//! around the library.
//!
//! Routes: `/` is the page; `/action?type=W` (and `A`, `S`, `D`) moves the
//! bot one block; `/action?type=AFK` switches anti-AFK stepping on or off;
//! `/cmd?msg=` followed by a percent-encoded text runs it as a command when
//! it starts with `/` and says it in chat otherwise. Any other URL is
//! answered with the bot's status.

use vstd::prelude::*;
use vstd::string::StrSliceExecFns;

use crate::client::{ticking, Client, ConnectionState, ServerboundPacket};

verus! {

/// A movement key of the dashboard.
#[derive(Clone, Copy, Debug, PartialEq, Eq, Structural)]
pub enum MoveKey {
    W,
    A,
    S,
    D,
}

/// Which route a URL takes, before any decoding.
#[derive(Clone, Copy, Debug, PartialEq, Eq, Structural)]
pub enum RouteKind {
    Page,
    Move(MoveKey),
    ToggleAfk,
    Command,
    Status,
}

/// A dashboard request.
#[derive(Clone, Debug, PartialEq, Eq)]
pub enum DashboardRequest {
    /// Serve the dashboard page.
    Page,
    /// Move the bot one block.
    Move(MoveKey),
    /// Switch anti-AFK stepping on or off.
    ToggleAfk,
    /// Run a command or say something in chat.
    Command(String),
    /// A command whose text does not decode.
    Malformed,
    /// Anything else: report that the bot runs.
    Status,
}

/// What the program must do for a dashboard request.
#[derive(Clone, Debug, PartialEq, Eq)]
pub enum DashboardEffect {
    /// Nothing beyond answering the request.
    Nothing,
    /// Move the bot by these whole blocks along x and z and report the new
    /// position to the server.
    Step { dx: i32, dz: i32 },
    /// Anti-AFK stepping is now on (`true`) or off.
    AfkSwitched(bool),
    /// Send this packet.
    Send(ServerboundPacket),
}

/// The text after `/cmd?msg=` as `urlencoding::decode` gives it: `None`
/// when the decoded bytes are not UTF-8.
pub uninterp spec fn url_decoded(text: Seq<char>) -> Option<Seq<char>>;

/// Calls `urlencoding::decode`, which replaces each `%xx` by the byte it
/// stands for and reads the result as UTF-8, keeping `+` as it is; it fails
/// only when the bytes are not UTF-8. The contract names the result, and
/// states what the source shows for a text without `%`: it comes back
/// unchanged.
#[verifier::external_body]
fn url_decode(text: &str) -> (r: Option<String>)
    ensures
        r is Some ==> url_decoded(text@) == Some(r->0@),
        r is None ==> url_decoded(text@) is None,
        !text@.contains('%') ==> r is Some && r->0@ == text@,
{
    match urlencoding::decode(text) {
        Ok(t) => Some(t.into_owned()),
        Err(_) => None,
    }
}

/// The prefix of a command request.
pub open spec fn command_prefix() -> Seq<char> {
    "/cmd?msg="@
}

/// Which route a URL takes; the first match wins.
pub open spec fn route_kind(path: Seq<char>) -> RouteKind {
    if path == "/"@ {
        RouteKind::Page
    } else if path == "/action?type=W"@ {
        RouteKind::Move(MoveKey::W)
    } else if path == "/action?type=A"@ {
        RouteKind::Move(MoveKey::A)
    } else if path == "/action?type=S"@ {
        RouteKind::Move(MoveKey::S)
    } else if path == "/action?type=D"@ {
        RouteKind::Move(MoveKey::D)
    } else if path == "/action?type=AFK"@ {
        RouteKind::ToggleAfk
    } else if command_prefix().len() <= path.len() && path.subrange(0, command_prefix().len() as int)
        == command_prefix() {
        RouteKind::Command
    } else {
        RouteKind::Status
    }
}

/// The request a URL stands for.
pub open spec fn parses_as(path: Seq<char>, r: DashboardRequest) -> bool {
    match route_kind(path) {
        RouteKind::Page => r == DashboardRequest::Page,
        RouteKind::Move(k) => r == DashboardRequest::Move(k),
        RouteKind::ToggleAfk => r == DashboardRequest::ToggleAfk,
        RouteKind::Status => r == DashboardRequest::Status,
        RouteKind::Command => match url_decoded(path.skip(command_prefix().len() as int)) {
            Some(t) => r matches DashboardRequest::Command(s) && s@ == t,
            None => r == DashboardRequest::Malformed,
        },
    }
}

/// The whole blocks a movement key moves the bot along x and z: `W` and `S`
/// forward and back along z, `A` and `D` along x.
pub open spec fn move_offset(k: MoveKey) -> (i32, i32) {
    match k {
        MoveKey::W => (0, 1),
        MoveKey::S => (0, -1i32),
        MoveKey::A => (1, 0),
        MoveKey::D => (-1i32, 0),
    }
}

/// A text from the command bar is a command when it starts with `/` (sent
/// without the slash) and a chat message otherwise.
pub open spec fn is_command_text(text: Seq<char>) -> bool {
    text.len() > 0 && text[0] == '/'
}

/// The packet a command-bar text is sent as.
pub open spec fn chat_packet_is(text: Seq<char>, p: ServerboundPacket) -> bool {
    if is_command_text(text) {
        p matches ServerboundPacket::ChatCommand { command } && command@ == text.skip(1)
    } else {
        p matches ServerboundPacket::ChatMessage { message } && message@ == text
    }
}

/// The client after a dashboard request.
pub open spec fn after_dashboard(c: Client, r: DashboardRequest) -> Client {
    match r {
        DashboardRequest::ToggleAfk => if c.afk_active {
            Client { afk_active: false, ..c }
        } else {
            Client { afk_active: true, move_cooldown: 0, ..c }
        },
        _ => c,
    }
}

/// What a dashboard request asks of the program: moves only once the bot is
/// in the world, chat and commands only in play.
pub open spec fn dashboard_effect_is(c: Client, r: DashboardRequest, e: DashboardEffect) -> bool {
    match r {
        DashboardRequest::Move(k) => if ticking(c) {
            e == DashboardEffect::Step { dx: move_offset(k).0, dz: move_offset(k).1 }
        } else {
            e == DashboardEffect::Nothing
        },
        DashboardRequest::ToggleAfk => e == DashboardEffect::AfkSwitched(!c.afk_active),
        DashboardRequest::Command(text) => if c.connection_state == ConnectionState::Play {
            e matches DashboardEffect::Send(p) && chat_packet_is(text@, p)
        } else {
            e == DashboardEffect::Nothing
        },
        _ => e == DashboardEffect::Nothing,
    }
}

/// Whether two strings hold the same characters.
fn same_text(a: &str, b: &str) -> (r: bool)
    ensures
        r == (a@ == b@),
{
    let n = a.unicode_len();
    if n != b.unicode_len() {
        return false;
    }
    let mut i: usize = 0;
    while i < n
        invariant
            n == a@.len(),
            n == b@.len(),
            i <= n,
            forall|j: int| 0 <= j < i ==> a@[j] == b@[j],
        decreases n - i,
    {
        if a.get_char(i) != b.get_char(i) {
            return false;
        }
        i = i + 1;
    }
    assert(a@ =~= b@);
    true
}

/// Whether `s` begins with the characters of `prefix`.
fn starts_with_text(s: &str, prefix: &str) -> (r: bool)
    ensures
        r == (prefix@.len() <= s@.len() && s@.subrange(0, prefix@.len() as int) == prefix@),
{
    let n = prefix.unicode_len();
    if n > s.unicode_len() {
        return false;
    }
    let mut i: usize = 0;
    while i < n
        invariant
            n == prefix@.len(),
            n <= s@.len(),
            i <= n,
            forall|j: int| 0 <= j < i ==> s@[j] == prefix@[j],
        decreases n - i,
    {
        if s.get_char(i) != prefix.get_char(i) {
            assert(s@.subrange(0, n as int)[i as int] != prefix@[i as int]);
            return false;
        }
        i = i + 1;
    }
    assert(s@.subrange(0, n as int) =~= prefix@);
    true
}

/// Which dashboard request a URL (path and query) stands for.
pub fn parse_dashboard_request(path: &str) -> (r: DashboardRequest)
    ensures
        parses_as(path@, r),
{
    if same_text(path, "/") {
        DashboardRequest::Page
    } else if same_text(path, "/action?type=W") {
        DashboardRequest::Move(MoveKey::W)
    } else if same_text(path, "/action?type=A") {
        DashboardRequest::Move(MoveKey::A)
    } else if same_text(path, "/action?type=S") {
        DashboardRequest::Move(MoveKey::S)
    } else if same_text(path, "/action?type=D") {
        DashboardRequest::Move(MoveKey::D)
    } else if same_text(path, "/action?type=AFK") {
        DashboardRequest::ToggleAfk
    } else if starts_with_text(path, "/cmd?msg=") {
        let start = "/cmd?msg=".unicode_len();
        let end = path.unicode_len();
        let raw = path.substring_char(start, end);
        assert(raw@ == path@.skip(command_prefix().len() as int));
        match url_decode(raw) {
            Some(text) => DashboardRequest::Command(text),
            None => DashboardRequest::Malformed,
        }
    } else {
        DashboardRequest::Status
    }
}

/// The packet a command-bar text is sent as: a command, without its
/// leading `/`, or else a chat message.
pub fn send_chat_or_cmd(text: String) -> (p: ServerboundPacket)
    ensures
        chat_packet_is(text@, p),
{
    let s = text.as_str();
    let n = s.unicode_len();
    if n > 0 && s.get_char(0) == '/' {
        let rest = s.substring_char(1, n);
        ServerboundPacket::ChatCommand { command: rest.to_owned() }
    } else {
        ServerboundPacket::ChatMessage { message: text }
    }
}

impl Client {
    /// Carries out a dashboard request: switches anti-AFK stepping, or says
    /// which move or packet the program must make.
    pub fn dashboard(&mut self, request: DashboardRequest) -> (e: DashboardEffect)
        ensures
            *final(self) == after_dashboard(*old(self), request),
            dashboard_effect_is(*old(self), request, e),
    {
        match request {
            DashboardRequest::Move(k) => {
                if self.connection_state == ConnectionState::Play && self.is_loaded {
                    match k {
                        MoveKey::W => DashboardEffect::Step { dx: 0, dz: 1 },
                        MoveKey::S => DashboardEffect::Step { dx: 0, dz: -1 },
                        MoveKey::A => DashboardEffect::Step { dx: 1, dz: 0 },
                        MoveKey::D => DashboardEffect::Step { dx: -1, dz: 0 },
                    }
                } else {
                    DashboardEffect::Nothing
                }
            },
            DashboardRequest::ToggleAfk => {
                let active = !self.afk_active;
                self.set_afk(active);
                DashboardEffect::AfkSwitched(active)
            },
            DashboardRequest::Command(text) => {
                if self.connection_state == ConnectionState::Play {
                    DashboardEffect::Send(send_chat_or_cmd(text))
                } else {
                    DashboardEffect::Nothing
                }
            },
            _ => DashboardEffect::Nothing,
        }
    }
}

} // verus!
