//! The bot's client: its connection state machine, the replies it owes the
//! server for each packet it receives, and the cooldowns of its anti-AFK
//! motions. The network, the floating-point motion and the timers live in
//! the program around the library, which hands each event to a method here
//! and performs what the method returns.

use vstd::prelude::*;

use crate::args::Args;
use crate::chance::random_u32_in;
use crate::identity::{offline_player_uuid, offline_uuid};
use crate::wire::{var_int_bytes, write_var_int};

verus! {

/// Lower bound (inclusive) of the pause, in ticks, between two head turns.
pub const ROTATION_COOLDOWN_MIN: u32 = 40;
/// Upper bound (exclusive) of the pause between two head turns.
pub const ROTATION_COOLDOWN_MAX: u32 = 100;
/// Ticks from one arm swing to the next: 40 ticks of 50 ms, two seconds.
pub const SWING_INTERVAL: u32 = 40;
/// Lower bound (inclusive) of the pause, in ticks, between two steps.
pub const MOVE_COOLDOWN_MIN: u32 = 80;
/// Upper bound (exclusive) of the pause between two steps.
pub const MOVE_COOLDOWN_MAX: u32 = 200;
/// The protocol version the bot speaks (Minecraft 1.21.1).
pub const PROTOCOL_VERSION: i32 = 767;

/// The phase of the connection, in the order the protocol goes through them.
#[derive(Clone, Copy, Debug, PartialEq, Eq, Structural)]
pub enum ConnectionState {
    HandShake,
    Status,
    Login,
    Transfer,
    Config,
    Play,
}

/// The ids under which the server sends the packets the bot reacts to.
/// The same number may stand for different packets in different phases.
#[derive(Clone, Copy, Debug, PartialEq, Eq, Structural)]
pub struct PacketIds {
    pub set_compression: i32,
    pub login_success: i32,
    pub finish_config: i32,
    pub keep_alive: i32,
    pub player_position: i32,
    pub play_login: i32,
    pub play_disconnect: i32,
}

/// Which packet a raw packet from the server is, as far as the bot cares.
#[derive(Clone, Copy, Debug, PartialEq, Eq, Structural)]
pub enum PacketKind {
    SetCompression,
    LoginSuccess,
    FinishConfig,
    KeepAlive,
    PlayerPosition,
    PlayLogin,
    PlayDisconnect,
    Unhandled,
}

/// A packet from the server, with the fields the bot reads from it.
#[derive(Clone, Copy, Debug, PartialEq, Eq, Structural)]
pub enum ClientboundPacket {
    SetCompression { threshold: i32 },
    LoginSuccess,
    FinishConfig,
    KeepAlive { keep_alive_id: i64 },
    PlayerPosition { teleport_id: i32 },
    PlayLogin,
    PlayDisconnect,
    Unhandled,
}

/// A packet the bot sends to the server, with the values it carries.
#[derive(Clone, Debug, PartialEq, Eq)]
pub enum ServerboundPacket {
    HandShake {
        protocol_version: i32,
        server_address: String,
        server_port: u16,
        next_state: ConnectionState,
    },
    LoginStart { name: String, uuid: [u8; 16] },
    LoginAcknowledged,
    KnownPacks { known_pack_count: i32 },
    AcknowledgeFinishConfig,
    KeepAlive { keep_alive_id: i64 },
    ConfirmTeleport { teleport_id: i32 },
    PlayerLoaded,
    SwingArm { hand: i32 },
    ChatMessage { message: String },
    ChatCommand { command: String },
}

/// What the program around the library must do after a packet came in.
#[derive(Clone, Debug, PartialEq, Eq)]
pub enum ClientEffect {
    /// Send this packet to the server.
    Send(ServerboundPacket),
    /// Compress every packet from now on whose size reaches this threshold,
    /// in both directions.
    SetCompression(u32),
    /// Wake whoever waits on the connection: it is over.
    Close,
}

/// What the program around the library knows of the motions in progress.
#[derive(Clone, Copy, Debug, PartialEq, Eq, Structural)]
pub struct MotionStatus {
    /// The current head turn has reached its target.
    pub rotation_finished: bool,
    /// The current step has reached its target.
    pub movement_finished: bool,
}

/// The pauses to start when a motion is due; drawn at random by [`Client::tick`].
#[derive(Clone, Copy, Debug, PartialEq, Eq, Structural)]
pub struct FreshCooldowns {
    pub rotation: u32,
    pub movement: u32,
}

/// What one tick asks of a motion.
#[derive(Clone, Copy, Debug, PartialEq, Eq, Structural)]
pub enum MotionStep {
    /// Leave it as it is.
    Hold,
    /// Start a new one from where the bot stands.
    Begin,
    /// Move the one in progress one step on and report the new pose.
    Advance,
}

/// What one tick asks of the program around the library, in this order.
#[derive(Clone, Debug, PartialEq, Eq)]
pub struct TickPlan {
    pub rotation: MotionStep,
    pub swing: Option<ServerboundPacket>,
    pub movement: MotionStep,
    /// The direction of a step that begins on this tick.
    pub step_direction: Option<StepDirection>,
}

/// Which way a step goes along the z axis: the bot steps half a block
/// forward, then half a block back, and so on, so it never strays more than
/// half a block from where it stood.
#[derive(Clone, Copy, Debug, PartialEq, Eq, Structural)]
pub enum StepDirection {
    /// Half a block towards positive z.
    Forward,
    /// Half a block towards negative z.
    Back,
}

/// The bot's state, apart from its floating-point pose and the network.
#[derive(Clone, Copy, Debug, PartialEq, Eq, Structural)]
pub struct Client {
    pub connection_state: ConnectionState,
    pub closed: bool,
    pub entity_id: i32,
    pub message_spam_cooldown: u32,
    pub message_count: u32,
    /// The server has placed the bot in the world.
    pub is_loaded: bool,
    pub swing_cooldown: u32,
    /// Anti-AFK stepping is switched on.
    pub afk_active: bool,
    pub move_cooldown: u32,
    pub rotation_cooldown: u32,
    /// The direction of the next step.
    pub next_step: StepDirection,
}

/// The state of a client that has not connected yet.
pub open spec fn initial_client() -> Client {
    Client {
        connection_state: ConnectionState::HandShake,
        closed: false,
        entity_id: 0,
        message_spam_cooldown: 1,
        message_count: 0,
        is_loaded: false,
        swing_cooldown: 0,
        afk_active: true,
        move_cooldown: 0,
        rotation_cooldown: 0,
        next_step: StepDirection::Forward,
    }
}

/// Which packet an id stands for in a given phase; the first match wins.
pub open spec fn classify(state: ConnectionState, id: i32, ids: PacketIds) -> PacketKind {
    match state {
        ConnectionState::Login => {
            if id == ids.set_compression {
                PacketKind::SetCompression
            } else if id == ids.login_success {
                PacketKind::LoginSuccess
            } else {
                PacketKind::Unhandled
            }
        },
        ConnectionState::Config => {
            if id == ids.finish_config {
                PacketKind::FinishConfig
            } else {
                PacketKind::Unhandled
            }
        },
        ConnectionState::Play => {
            if id == ids.keep_alive {
                PacketKind::KeepAlive
            } else if id == ids.player_position {
                PacketKind::PlayerPosition
            } else if id == ids.play_login {
                PacketKind::PlayLogin
            } else if id == ids.play_disconnect {
                PacketKind::PlayDisconnect
            } else {
                PacketKind::Unhandled
            }
        },
        _ => PacketKind::Unhandled,
    }
}

/// The client after it handled a packet.
pub open spec fn after_packet(c: Client, p: ClientboundPacket) -> Client {
    match (c.connection_state, p) {
        (ConnectionState::Login, ClientboundPacket::LoginSuccess) => Client {
            connection_state: ConnectionState::Config,
            ..c
        },
        (ConnectionState::Config, ClientboundPacket::FinishConfig) => Client {
            connection_state: ConnectionState::Play,
            ..c
        },
        (ConnectionState::Play, ClientboundPacket::KeepAlive { .. }) => Client {
            move_cooldown: 0,
            ..c
        },
        (ConnectionState::Play, ClientboundPacket::PlayerPosition { .. }) => Client {
            is_loaded: true,
            ..c
        },
        (ConnectionState::Play, ClientboundPacket::PlayDisconnect) => Client { closed: true, ..c },
        _ => c,
    }
}

/// What handling a packet in a given phase asks of the program, in order.
pub open spec fn packet_effects(state: ConnectionState, p: ClientboundPacket) -> Seq<ClientEffect> {
    match (state, p) {
        (ConnectionState::Login, ClientboundPacket::SetCompression { threshold }) => seq![
            ClientEffect::SetCompression(threshold as u32),
        ],
        (ConnectionState::Login, ClientboundPacket::LoginSuccess) => seq![
            ClientEffect::Send(ServerboundPacket::LoginAcknowledged),
            ClientEffect::Send(ServerboundPacket::KnownPacks { known_pack_count: 0 }),
        ],
        (ConnectionState::Config, ClientboundPacket::FinishConfig) => seq![
            ClientEffect::Send(ServerboundPacket::AcknowledgeFinishConfig),
        ],
        (ConnectionState::Play, ClientboundPacket::KeepAlive { keep_alive_id }) => seq![
            ClientEffect::Send(ServerboundPacket::KeepAlive { keep_alive_id }),
        ],
        (ConnectionState::Play, ClientboundPacket::PlayerPosition { teleport_id }) => seq![
            ClientEffect::Send(ServerboundPacket::ConfirmTeleport { teleport_id }),
        ],
        (ConnectionState::Play, ClientboundPacket::PlayLogin) => seq![
            ClientEffect::Send(ServerboundPacket::PlayerLoaded),
        ],
        (ConnectionState::Play, ClientboundPacket::PlayDisconnect) => seq![ClientEffect::Close],
        _ => seq![],
    }
}

/// The compression threshold installed for a request: the threshold cut to
/// 32 bits, the level left aside.
pub open spec fn compression_threshold(compression: Option<(usize, i32)>) -> Option<u32> {
    match compression {
        Some((threshold, _)) => Some(threshold as u32),
        None => None::<u32>,
    }
}

/// The client after `set_afk(active)`.
pub open spec fn after_set_afk(c: Client, active: bool) -> Client {
    if active {
        Client { afk_active: true, move_cooldown: 0, ..c }
    } else {
        Client { afk_active: false, ..c }
    }
}

/// The client after it sent its handshake and login start.
pub open spec fn after_join(c: Client) -> Client {
    Client { connection_state: ConnectionState::Login, ..c }
}

/// The packets that open a connection, in the order they are sent: the
/// handshake for protocol 767 asking for the login phase, then the login
/// start carrying the name and its offline-mode identifier.
pub open spec fn join_packets_are(
    packets: Seq<ServerboundPacket>,
    server_address: String,
    server_port: u16,
    name: String,
) -> bool {
    &&& packets.len() == 2
    &&& packets[0] == ServerboundPacket::HandShake {
        protocol_version: PROTOCOL_VERSION,
        server_address,
        server_port,
        next_state: ConnectionState::Login,
    }
    &&& packets[1] matches ServerboundPacket::LoginStart { name: n, uuid: id }
    &&& n == name
    &&& id@ == offline_player_uuid(name@)
}

/// A motion is due when its counter has run down to zero, or when the
/// counter stands above the longest pause the motion ever waits (`longest`
/// ticks): such a counter is overdue.
pub open spec fn due(cooldown: u32, longest: u32) -> bool {
    cooldown == 0 || cooldown >= longest
}

/// The motions only run once the bot is in the world.
pub open spec fn ticking(c: Client) -> bool {
    c.connection_state == ConnectionState::Play && c.is_loaded
}

/// A tick of the head-turn motion: its new cooldown and what it asks.
pub open spec fn rotation_tick(c: Client, args: Args, m: MotionStatus, fresh: FreshCooldowns) -> (u32, MotionStep) {
    if !args.enable_rotation {
        (c.rotation_cooldown, MotionStep::Hold)
    } else if !m.rotation_finished {
        (c.rotation_cooldown, MotionStep::Advance)
    } else if due(c.rotation_cooldown, ROTATION_COOLDOWN_MAX) {
        (fresh.rotation, MotionStep::Begin)
    } else {
        ((c.rotation_cooldown - 1) as u32, MotionStep::Hold)
    }
}

/// A tick of the arm swing: its new cooldown and the packet it sends, if
/// any. A swing is sent when it is due, and the counter restarts so that
/// the next one comes `SWING_INTERVAL` ticks later.
pub open spec fn swing_tick(c: Client, args: Args) -> (u32, Option<ServerboundPacket>) {
    if !args.enable_swing {
        (c.swing_cooldown, None)
    } else if due(c.swing_cooldown, SWING_INTERVAL) {
        ((SWING_INTERVAL - 1) as u32, Some(ServerboundPacket::SwingArm { hand: 0 }))
    } else {
        ((c.swing_cooldown - 1) as u32, None)
    }
}

/// A tick of the stepping motion: its new cooldown and what it asks.
pub open spec fn movement_tick(c: Client, m: MotionStatus, fresh: FreshCooldowns) -> (u32, MotionStep) {
    if !c.afk_active {
        (c.move_cooldown, MotionStep::Hold)
    } else if !m.movement_finished {
        (c.move_cooldown, MotionStep::Advance)
    } else if due(c.move_cooldown, MOVE_COOLDOWN_MAX) {
        (fresh.movement, MotionStep::Begin)
    } else {
        ((c.move_cooldown - 1) as u32, MotionStep::Hold)
    }
}

/// The other direction.
pub open spec fn flipped(d: StepDirection) -> StepDirection {
    match d {
        StepDirection::Forward => StepDirection::Back,
        StepDirection::Back => StepDirection::Forward,
    }
}

/// The plan of a tick that does nothing.
pub open spec fn idle_plan() -> TickPlan {
    TickPlan { rotation: MotionStep::Hold, swing: None, movement: MotionStep::Hold, step_direction: None }
}

/// The client after one tick, and what the tick asks. A step that begins
/// goes in the client's next direction, and the direction after it is the
/// other one.
pub open spec fn after_tick(c: Client, args: Args, m: MotionStatus, fresh: FreshCooldowns) -> (Client, TickPlan) {
    if !ticking(c) {
        (c, idle_plan())
    } else {
        let r = rotation_tick(c, args, m, fresh);
        let s = swing_tick(c, args);
        let v = movement_tick(c, m, fresh);
        let begins = v.1 == MotionStep::Begin;
        (
            Client {
                rotation_cooldown: r.0,
                swing_cooldown: s.0,
                move_cooldown: v.0,
                next_step: if begins { flipped(c.next_step) } else { c.next_step },
                ..c
            },
            TickPlan {
                rotation: r.1,
                swing: s.1,
                movement: v.1,
                step_direction: if begins { Some(c.next_step) } else { None },
            },
        )
    }
}

/// The pauses that a tick may start are drawn from these ranges.
pub open spec fn fresh_in_range(fresh: FreshCooldowns) -> bool {
    &&& ROTATION_COOLDOWN_MIN <= fresh.rotation < ROTATION_COOLDOWN_MAX
    &&& MOVE_COOLDOWN_MIN <= fresh.movement < MOVE_COOLDOWN_MAX
}

/// The bytes handed to the network writer for a packet: its id as a VarInt,
/// then its body.
pub open spec fn packet_frame(packet_id: i32, data: Seq<u8>) -> Seq<u8> {
    var_int_bytes(packet_id as u32) + data
}

impl Client {
    /// A client that has not connected yet: in the handshake phase, not
    /// placed in the world, with anti-AFK stepping on, every cooldown at
    /// zero, and its first step going forward.
    pub fn new() -> (c: Client)
        ensures
            c == initial_client(),
    {
        Client {
            connection_state: ConnectionState::HandShake,
            closed: false,
            entity_id: 0,
            message_spam_cooldown: 1,
            message_count: 0,
            is_loaded: false,
            swing_cooldown: 0,
            afk_active: true,
            move_cooldown: 0,
            rotation_cooldown: 0,
            next_step: StepDirection::Forward,
        }
    }

    /// Switches anti-AFK stepping on or off; switching it on makes the next
    /// step due at once.
    pub fn set_afk(&mut self, active: bool)
        ensures
            *final(self) == after_set_afk(*old(self), active),
    {
        self.afk_active = active;
        if active {
            self.move_cooldown = 0;
        }
    }

    /// The compression threshold to install on both directions of the
    /// connection, if compression is asked for: the requested threshold cut
    /// to 32 bits. The requested level plays no part.
    pub fn set_compression(&self, compression: Option<(usize, i32)>) -> (r: Option<u32>)
        ensures
            r == compression_threshold(compression),
    {
        match compression {
            Some((threshold, _level)) => Some(threshold as u32),
            None => None,
        }
    }

    /// The bytes to hand to the network writer for a packet with this id and
    /// body: the id as a VarInt, then the body.
    pub fn send_packet(packet_id: i32, data: &[u8]) -> (frame: Vec<u8>)
        ensures
            frame@ == packet_frame(packet_id, data@),
    {
        let mut frame: Vec<u8> = Vec::new();
        write_var_int(packet_id, &mut frame);
        let ghost head = frame@;
        let mut i: usize = 0;
        while i < data.len()
            invariant
                i <= data@.len(),
                head == var_int_bytes(packet_id as u32),
                frame@ == head + data@.subrange(0, i as int),
            decreases data@.len() - i,
        {
            frame.push(data[i]);
            assert(data@.subrange(0, i + 1) == data@.subrange(0, i as int).push(data@[i as int]));
            i = i + 1;
        }
        assert(data@.subrange(0, data@.len() as int) == data@);
        frame
    }

    /// Which packet an id stands for in the current phase.
    pub fn classify_packet(&self, id: i32, ids: &PacketIds) -> (k: PacketKind)
        ensures
            k == classify(self.connection_state, id, *ids),
    {
        match self.connection_state {
            ConnectionState::Login => {
                if id == ids.set_compression {
                    PacketKind::SetCompression
                } else if id == ids.login_success {
                    PacketKind::LoginSuccess
                } else {
                    PacketKind::Unhandled
                }
            },
            ConnectionState::Config => {
                if id == ids.finish_config {
                    PacketKind::FinishConfig
                } else {
                    PacketKind::Unhandled
                }
            },
            ConnectionState::Play => {
                if id == ids.keep_alive {
                    PacketKind::KeepAlive
                } else if id == ids.player_position {
                    PacketKind::PlayerPosition
                } else if id == ids.play_login {
                    PacketKind::PlayLogin
                } else if id == ids.play_disconnect {
                    PacketKind::PlayDisconnect
                } else {
                    PacketKind::Unhandled
                }
            },
            _ => PacketKind::Unhandled,
        }
    }

    /// Handles a packet from the server: moves the connection on, answers
    /// keep-alives and teleports, and says what the program must do.
    pub fn handle_packet(&mut self, packet: ClientboundPacket) -> (effects: Vec<ClientEffect>)
        ensures
            *final(self) == after_packet(*old(self), packet),
            effects@ == packet_effects(old(self).connection_state, packet),
    {
        let mut effects: Vec<ClientEffect> = Vec::new();
        match self.connection_state {
            ConnectionState::Login => {
                match packet {
                    ClientboundPacket::SetCompression { threshold } => {
                        let t = self.set_compression(Some((threshold as usize, 6)));
                        assert((threshold as usize) as u32 == threshold as u32) by (bit_vector);
                        if let Some(t) = t {
                            effects.push(ClientEffect::SetCompression(t));
                        }
                    },
                    ClientboundPacket::LoginSuccess => {
                        effects.push(ClientEffect::Send(ServerboundPacket::LoginAcknowledged));
                        self.connection_state = ConnectionState::Config;
                        effects.push(
                            ClientEffect::Send(ServerboundPacket::KnownPacks { known_pack_count: 0 }),
                        );
                    },
                    _ => {},
                }
            },
            ConnectionState::Config => {
                if let ClientboundPacket::FinishConfig = packet {
                    effects.push(ClientEffect::Send(ServerboundPacket::AcknowledgeFinishConfig));
                    self.connection_state = ConnectionState::Play;
                }
            },
            ConnectionState::Play => {
                match packet {
                    ClientboundPacket::KeepAlive { keep_alive_id } => {
                        effects.push(
                            ClientEffect::Send(ServerboundPacket::KeepAlive { keep_alive_id }),
                        );
                        self.move_cooldown = 0;
                    },
                    ClientboundPacket::PlayerPosition { teleport_id } => {
                        effects.push(
                            ClientEffect::Send(ServerboundPacket::ConfirmTeleport { teleport_id }),
                        );
                        self.is_loaded = true;
                    },
                    ClientboundPacket::PlayLogin => {
                        effects.push(ClientEffect::Send(ServerboundPacket::PlayerLoaded));
                    },
                    ClientboundPacket::PlayDisconnect => {
                        self.close();
                        effects.push(ClientEffect::Close);
                    },
                    _ => {},
                }
            },
            _ => {},
        }
        effects
    }

    /// One tick of the anti-AFK motions with the given pauses for whichever
    /// motion comes due: nothing happens until the bot is in the world; then
    /// the head turn (if enabled) and the step (if anti-AFK stepping is on)
    /// each count down, start, or advance, and the arm swing (if enabled)
    /// counts down or swings.
    pub fn tick_with(&mut self, args: &Args, motion: MotionStatus, fresh: FreshCooldowns) -> (plan: TickPlan)
        ensures
            (*final(self), plan) == after_tick(*old(self), *args, motion, fresh),
    {
        if self.connection_state != ConnectionState::Play || !self.is_loaded {
            return TickPlan {
                rotation: MotionStep::Hold,
                swing: None,
                movement: MotionStep::Hold,
                step_direction: None,
            };
        }
        let mut rotation = MotionStep::Hold;
        if args.enable_rotation {
            if !motion.rotation_finished {
                rotation = MotionStep::Advance;
            } else if self.rotation_cooldown == 0 || self.rotation_cooldown >= ROTATION_COOLDOWN_MAX {
                self.rotation_cooldown = fresh.rotation;
                rotation = MotionStep::Begin;
            } else {
                self.rotation_cooldown = self.rotation_cooldown - 1;
            }
        }
        let mut swing = None;
        if args.enable_swing {
            if self.swing_cooldown == 0 || self.swing_cooldown >= SWING_INTERVAL {
                swing = Some(ServerboundPacket::SwingArm { hand: 0 });
                self.swing_cooldown = SWING_INTERVAL - 1;
            } else {
                self.swing_cooldown = self.swing_cooldown - 1;
            }
        }
        let mut movement = MotionStep::Hold;
        let mut step_direction = None;
        if self.afk_active {
            if !motion.movement_finished {
                movement = MotionStep::Advance;
            } else if self.move_cooldown == 0 || self.move_cooldown >= MOVE_COOLDOWN_MAX {
                self.move_cooldown = fresh.movement;
                movement = MotionStep::Begin;
                step_direction = Some(self.next_step);
                self.next_step = match self.next_step {
                    StepDirection::Forward => StepDirection::Back,
                    StepDirection::Back => StepDirection::Forward,
                };
            } else {
                self.move_cooldown = self.move_cooldown - 1;
            }
        }
        TickPlan { rotation, swing, movement, step_direction }
    }

    /// One tick of the anti-AFK motions, drawing at random the pause for
    /// whichever motion comes due: 40 to 99 ticks for a head turn, 80 to 199
    /// for a step.
    pub fn tick(&mut self, args: &Args, motion: MotionStatus) -> (plan: TickPlan)
        ensures
            exists|fresh: FreshCooldowns|
                fresh_in_range(fresh) && (*final(self), plan) == #[trigger] after_tick(
                    *old(self),
                    *args,
                    motion,
                    fresh,
                ),
    {
        let fresh = FreshCooldowns {
            rotation: random_u32_in(ROTATION_COOLDOWN_MIN, ROTATION_COOLDOWN_MAX),
            movement: random_u32_in(MOVE_COOLDOWN_MIN, MOVE_COOLDOWN_MAX),
        };
        let plan = self.tick_with(args, motion, fresh);
        assert(fresh_in_range(fresh));
        plan
    }

    /// Opens the connection: the handshake for protocol 767 asking for the
    /// login phase, then the login start under the name's offline-mode
    /// identifier; the client is then in the login phase.
    pub fn join_server(&mut self, server_address: String, server_port: u16, name: String) -> (packets: Vec<ServerboundPacket>)
        ensures
            *final(self) == after_join(*old(self)),
            join_packets_are(packets@, server_address, server_port, name),
    {
        let uuid = offline_uuid(name.as_str());
        let mut packets: Vec<ServerboundPacket> = Vec::new();
        packets.push(
            ServerboundPacket::HandShake {
                protocol_version: PROTOCOL_VERSION,
                server_address,
                server_port,
                next_state: ConnectionState::Login,
            },
        );
        self.connection_state = ConnectionState::Login;
        packets.push(ServerboundPacket::LoginStart { name, uuid });
        packets
    }

    /// Marks the connection as over.
    pub fn close(&mut self)
        ensures
            *final(self) == (Client { closed: true, ..*old(self) }),
    {
        self.closed = true;
    }
}

} // verus!
