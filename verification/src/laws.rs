//! Properties that relate several operations of the client.

use vstd::prelude::*;

use crate::args::Args;
use crate::client::{
    after_join, after_packet, after_set_afk, after_tick, idle_plan, initial_client, packet_effects,
    packet_frame, ticking, Client, ClientEffect, ClientboundPacket, ConnectionState, FreshCooldowns,
    MotionStatus, MotionStep, ServerboundPacket, flipped, MOVE_COOLDOWN_MAX,
    ROTATION_COOLDOWN_MAX, SWING_INTERVAL,
};
use crate::client::{
    classify, compression_threshold, join_packets_are, PacketIds, PacketKind, MOVE_COOLDOWN_MIN,
    PROTOCOL_VERSION, ROTATION_COOLDOWN_MIN,
};
use crate::identity::offline_player_uuid;
use crate::dashboard::{
    after_dashboard, chat_packet_is, dashboard_effect_is, move_offset, route_kind, DashboardEffect,
    DashboardRequest, MoveKey, RouteKind,
};
use crate::wire::{lemma_var_int_roundtrip, var_int_bytes, var_int_value};

verus! {

/// Handling a packet never sends the connection back: the only phase
/// changes are from login to configuration and from configuration to play.
pub proof fn lemma_connection_state_only_advances(c: Client, p: ClientboundPacket)
    ensures
        ({
            let s = after_packet(c, p).connection_state;
            ||| s == c.connection_state
            ||| c.connection_state == ConnectionState::Login && s == ConnectionState::Config
            ||| c.connection_state == ConnectionState::Config && s == ConnectionState::Play
        }),
{
}

/// In play, a keep-alive is answered with a keep-alive carrying the same id,
/// and it makes the next step due.
pub proof fn lemma_keep_alive_is_echoed(c: Client, keep_alive_id: i64)
    requires
        c.connection_state == ConnectionState::Play,
    ensures
        packet_effects(c.connection_state, ClientboundPacket::KeepAlive { keep_alive_id })
            == seq![ClientEffect::Send(ServerboundPacket::KeepAlive { keep_alive_id })],
        after_packet(c, ClientboundPacket::KeepAlive { keep_alive_id }).move_cooldown == 0,
{
}

/// A keep-alive received in the world makes the next tick start a step,
/// provided stepping is on and the previous step has ended.
pub proof fn lemma_keep_alive_triggers_step(
    c: Client,
    keep_alive_id: i64,
    args: Args,
    m: MotionStatus,
    fresh: FreshCooldowns,
)
    requires
        ticking(c),
        c.afk_active,
        m.movement_finished,
    ensures
        ({
            let (next, plan) = after_tick(
                after_packet(c, ClientboundPacket::KeepAlive { keep_alive_id }),
                args,
                m,
                fresh,
            );
            plan.movement == MotionStep::Begin && next.move_cooldown == fresh.movement
        }),
{
}

/// In play, a teleport is confirmed with the same id, and from then on the
/// bot counts as placed in the world, so its motions run.
pub proof fn lemma_teleport_is_confirmed(c: Client, teleport_id: i32)
    requires
        c.connection_state == ConnectionState::Play,
    ensures
        packet_effects(c.connection_state, ClientboundPacket::PlayerPosition { teleport_id })
            == seq![ClientEffect::Send(ServerboundPacket::ConfirmTeleport { teleport_id })],
        ticking(after_packet(c, ClientboundPacket::PlayerPosition { teleport_id })),
{
}

/// A fresh client that joins, receives the login success, the end of the
/// configuration and a position, is in play and in the world; before the
/// position arrives, no motion runs.
pub proof fn lemma_login_sequence_reaches_play(teleport_id: i32)
    ensures
        ({
            let c0 = initial_client();
            let c1 = after_join(c0);
            let c2 = after_packet(c1, ClientboundPacket::LoginSuccess);
            let c3 = after_packet(c2, ClientboundPacket::FinishConfig);
            let c4 = after_packet(c3, ClientboundPacket::PlayerPosition { teleport_id });
            &&& c1.connection_state == ConnectionState::Login
            &&& c2.connection_state == ConnectionState::Config
            &&& c3.connection_state == ConnectionState::Play
            &&& !ticking(c0) && !ticking(c1) && !ticking(c2) && !ticking(c3)
            &&& ticking(c4)
        }),
{
}

/// Until the bot is in play and placed in the world, a tick changes nothing
/// and asks for nothing.
pub proof fn lemma_no_motion_before_world(c: Client, args: Args, m: MotionStatus, fresh: FreshCooldowns)
    requires
        !ticking(c),
    ensures
        after_tick(c, args, m, fresh) == (c, idle_plan()),
{
}

/// Switching anti-AFK stepping on makes the next tick in the world start a
/// step, unless one is still under way.
pub proof fn lemma_afk_on_steps_next_tick(c: Client, args: Args, m: MotionStatus, fresh: FreshCooldowns)
    requires
        ticking(c),
        m.movement_finished,
    ensures
        ({
            let (next, plan) = after_tick(after_set_afk(c, true), args, m, fresh);
            plan.movement == MotionStep::Begin && next.move_cooldown == fresh.movement
        }),
{
}

/// With anti-AFK stepping off, a tick neither steps nor touches the step
/// cooldown.
pub proof fn lemma_afk_off_never_steps(c: Client, args: Args, m: MotionStatus, fresh: FreshCooldowns)
    ensures
        ({
            let c1 = after_set_afk(c, false);
            let (next, plan) = after_tick(c1, args, m, fresh);
            plan.movement == MotionStep::Hold && next.move_cooldown == c1.move_cooldown
        }),
{
}

/// A framed packet can be split again: its first bytes are a VarInt that
/// ends at the first byte without the high bit and reads back as the packet
/// id, and the rest is the body unchanged.
pub proof fn lemma_frame_splits(packet_id: i32, data: Seq<u8>)
    ensures
        ({
            let frame = packet_frame(packet_id, data);
            let n = var_int_bytes(packet_id as u32).len() as int;
            &&& 1 <= n <= 5
            &&& frame[n - 1] < 0x80
            &&& forall|i: int| 0 <= i < n - 1 ==> #[trigger] frame[i] >= 0x80
            &&& var_int_value(frame.subrange(0, n)) == packet_id as u32 as int
            &&& frame.subrange(n, frame.len() as int) == data
        }),
{
    let head = var_int_bytes(packet_id as u32);
    lemma_var_int_roundtrip(packet_id as u32);
    let frame = packet_frame(packet_id, data);
    let n = head.len() as int;
    assert(frame.subrange(0, n) == head);
    assert(frame.subrange(n, frame.len() as int) == data);
    assert forall|i: int| 0 <= i < n - 1 implies #[trigger] frame[i] >= 0x80 by {
        assert(frame[i] == head[i]);
    }
}

/// The client after `k` ticks with the same motion status and pauses.
pub open spec fn run_ticks(c: Client, args: Args, m: MotionStatus, fresh: FreshCooldowns, k: nat) -> Client
    decreases k,
{
    if k == 0 {
        c
    } else {
        after_tick(run_ticks(c, args, m, fresh, (k - 1) as nat), args, m, fresh).0
    }
}

/// Ticks keep the bot in the world and leave its phase, its loaded and
/// closed marks and its stepping switch as they were.
proof fn lemma_ticks_keep_world(c: Client, args: Args, m: MotionStatus, fresh: FreshCooldowns, k: nat)
    ensures
        run_ticks(c, args, m, fresh, k).connection_state == c.connection_state,
        run_ticks(c, args, m, fresh, k).is_loaded == c.is_loaded,
        run_ticks(c, args, m, fresh, k).closed == c.closed,
        run_ticks(c, args, m, fresh, k).afk_active == c.afk_active,
    decreases k,
{
    if k > 0 {
        lemma_ticks_keep_world(c, args, m, fresh, (k - 1) as nat);
    }
}

/// While the previous head turn has ended, a head-turn pause of `n` ticks,
/// below the longest pause,
/// holds for `n` ticks, counting down by one each, and the tick after them
/// starts the next turn.
pub proof fn lemma_rotation_waits_its_pause(
    c: Client,
    args: Args,
    m: MotionStatus,
    fresh: FreshCooldowns,
    k: nat,
)
    requires
        ticking(c),
        args.enable_rotation,
        m.rotation_finished,
        c.rotation_cooldown < ROTATION_COOLDOWN_MAX,
        k <= c.rotation_cooldown,
    ensures
        run_ticks(c, args, m, fresh, k).rotation_cooldown == c.rotation_cooldown - k,
        k < c.rotation_cooldown ==> after_tick(run_ticks(c, args, m, fresh, k), args, m, fresh).1.rotation
            == MotionStep::Hold,
        k == c.rotation_cooldown ==> after_tick(run_ticks(c, args, m, fresh, k), args, m, fresh).1.rotation
            == MotionStep::Begin,
    decreases k,
{
    lemma_ticks_keep_world(c, args, m, fresh, k);
    if k > 0 {
        lemma_rotation_waits_its_pause(c, args, m, fresh, (k - 1) as nat);
        lemma_ticks_keep_world(c, args, m, fresh, (k - 1) as nat);
    }
}

/// While stepping is on and the previous step has ended, a step pause of
/// `n` ticks, below the longest pause, holds for `n` ticks, counting down by
/// one each, and the tick after them starts the next step.
pub proof fn lemma_step_waits_its_pause(
    c: Client,
    args: Args,
    m: MotionStatus,
    fresh: FreshCooldowns,
    k: nat,
)
    requires
        ticking(c),
        c.afk_active,
        m.movement_finished,
        c.move_cooldown < MOVE_COOLDOWN_MAX,
        k <= c.move_cooldown,
    ensures
        run_ticks(c, args, m, fresh, k).move_cooldown == c.move_cooldown - k,
        k < c.move_cooldown ==> after_tick(run_ticks(c, args, m, fresh, k), args, m, fresh).1.movement
            == MotionStep::Hold,
        k == c.move_cooldown ==> after_tick(run_ticks(c, args, m, fresh, k), args, m, fresh).1.movement
            == MotionStep::Begin,
    decreases k,
{
    lemma_ticks_keep_world(c, args, m, fresh, k);
    if k > 0 {
        lemma_step_waits_its_pause(c, args, m, fresh, (k - 1) as nat);
        lemma_ticks_keep_world(c, args, m, fresh, (k - 1) as nat);
    }
}

/// With swinging enabled, a swing counter of `n`, below the interval,
/// holds `n` ticks, counting
/// down by one each, and the tick after them swings; a swing restarts the
/// counter at `SWING_INTERVAL - 1`, so the next swing comes exactly
/// `SWING_INTERVAL` ticks later.
pub proof fn lemma_swing_waits_its_pause(
    c: Client,
    args: Args,
    m: MotionStatus,
    fresh: FreshCooldowns,
    k: nat,
)
    requires
        ticking(c),
        args.enable_swing,
        c.swing_cooldown < SWING_INTERVAL,
        k <= c.swing_cooldown,
    ensures
        run_ticks(c, args, m, fresh, k).swing_cooldown == c.swing_cooldown - k,
        k < c.swing_cooldown ==> after_tick(run_ticks(c, args, m, fresh, k), args, m, fresh).1.swing
            is None,
        k == c.swing_cooldown ==> after_tick(run_ticks(c, args, m, fresh, k), args, m, fresh).1.swing
            == Some(ServerboundPacket::SwingArm { hand: 0 }),
        k == c.swing_cooldown ==> after_tick(run_ticks(c, args, m, fresh, k), args, m, fresh).0.swing_cooldown
            == SWING_INTERVAL - 1,
    decreases k,
{
    lemma_ticks_keep_world(c, args, m, fresh, k);
    if k > 0 {
        lemma_swing_waits_its_pause(c, args, m, fresh, (k - 1) as nat);
        lemma_ticks_keep_world(c, args, m, fresh, (k - 1) as nat);
    }
}

/// The swing counter never reaches `SWING_INTERVAL`: it starts at zero,
/// packets and the AFK switch leave it alone, and ticks only count it down
/// or restart it at `SWING_INTERVAL - 1`.
pub proof fn lemma_swing_counter_stays_below_interval(
    c: Client,
    args: Args,
    m: MotionStatus,
    fresh: FreshCooldowns,
    p: ClientboundPacket,
    active: bool,
)
    requires
        c.swing_cooldown < SWING_INTERVAL,
    ensures
        initial_client().swing_cooldown < SWING_INTERVAL,
        after_tick(c, args, m, fresh).0.swing_cooldown < SWING_INTERVAL,
        after_packet(c, p).swing_cooldown < SWING_INTERVAL,
        after_set_afk(c, active).swing_cooldown < SWING_INTERVAL,
        after_join(c).swing_cooldown < SWING_INTERVAL,
{
}

/// In the world with swinging enabled, a swing comes within
/// `SWING_INTERVAL` ticks (two seconds), whatever the swing counter holds:
/// at once when it is due, else at the tick numbered by the counter.
pub proof fn lemma_swing_every_two_seconds(c: Client, args: Args, m: MotionStatus, fresh: FreshCooldowns)
    requires
        ticking(c),
        args.enable_swing,
    ensures
        exists|k: nat|
            k < SWING_INTERVAL && (#[trigger] after_tick(run_ticks(c, args, m, fresh, k), args, m, fresh)).1.swing
                == Some(ServerboundPacket::SwingArm { hand: 0 }),
{
    if c.swing_cooldown == 0 || c.swing_cooldown >= SWING_INTERVAL {
        assert(run_ticks(c, args, m, fresh, 0) == c);
        assert(after_tick(run_ticks(c, args, m, fresh, 0), args, m, fresh).1.swing
            == Some(ServerboundPacket::SwingArm { hand: 0 }));
    } else {
        lemma_swing_waits_its_pause(c, args, m, fresh, c.swing_cooldown as nat);
    }
}

/// In the world with head turns enabled, a tick whose turn is still under
/// way advances it (and so sends a rotation), and while the turn has ended a
/// new one begins within `ROTATION_COOLDOWN_MAX` ticks, whatever the counter
/// holds.
pub proof fn lemma_head_turns_recur(c: Client, args: Args, m: MotionStatus, fresh: FreshCooldowns)
    requires
        ticking(c),
        args.enable_rotation,
    ensures
        !m.rotation_finished ==> after_tick(c, args, m, fresh).1.rotation == MotionStep::Advance,
        m.rotation_finished ==> exists|k: nat|
            k < ROTATION_COOLDOWN_MAX && (#[trigger] after_tick(run_ticks(c, args, m, fresh, k), args, m, fresh)).1.rotation
                == MotionStep::Begin,
{
    if m.rotation_finished {
        if c.rotation_cooldown == 0 || c.rotation_cooldown >= ROTATION_COOLDOWN_MAX {
            assert(run_ticks(c, args, m, fresh, 0) == c);
            assert(after_tick(run_ticks(c, args, m, fresh, 0), args, m, fresh).1.rotation
                == MotionStep::Begin);
        } else {
            lemma_rotation_waits_its_pause(c, args, m, fresh, c.rotation_cooldown as nat);
        }
    }
}

/// With stepping on, a tick whose step is still under way advances it (and
/// so sends a position), and while the step has ended a new one begins
/// within `MOVE_COOLDOWN_MAX` ticks, whatever the counter holds.
pub proof fn lemma_steps_recur(c: Client, args: Args, m: MotionStatus, fresh: FreshCooldowns)
    requires
        ticking(c),
        c.afk_active,
    ensures
        !m.movement_finished ==> after_tick(c, args, m, fresh).1.movement == MotionStep::Advance,
        m.movement_finished ==> exists|k: nat|
            k < MOVE_COOLDOWN_MAX && (#[trigger] after_tick(run_ticks(c, args, m, fresh, k), args, m, fresh)).1.movement
                == MotionStep::Begin,
{
    if m.movement_finished {
        if c.move_cooldown == 0 || c.move_cooldown >= MOVE_COOLDOWN_MAX {
            assert(run_ticks(c, args, m, fresh, 0) == c);
            assert(after_tick(run_ticks(c, args, m, fresh, 0), args, m, fresh).1.movement
                == MotionStep::Begin);
        } else {
            lemma_step_waits_its_pause(c, args, m, fresh, c.move_cooldown as nat);
        }
    }
}

/// Steps alternate: a step that begins goes in the client's next direction
/// and turns the next direction round; no other tick, packet, AFK switch or
/// join changes it. So of any two steps in a row one goes forward and the
/// other back.
pub proof fn lemma_steps_alternate(
    c: Client,
    args: Args,
    m: MotionStatus,
    fresh: FreshCooldowns,
    p: ClientboundPacket,
    active: bool,
)
    ensures
        ({
            let (next, plan) = after_tick(c, args, m, fresh);
            &&& plan.step_direction matches Some(d) ==> d == c.next_step && next.next_step == flipped(d)
                && flipped(d) != d
            &&& plan.step_direction is None ==> next.next_step == c.next_step
            &&& plan.step_direction is Some <==> plan.movement == MotionStep::Begin
        }),
        after_packet(c, p).next_step == c.next_step,
        after_set_afk(c, active).next_step == c.next_step,
        after_join(c).next_step == c.next_step,
        flipped(flipped(c.next_step)) == c.next_step,
{
}

/// The dashboard's AFK toggle flips stepping each time: two toggles give
/// back the switch as it was, and a toggle that turns stepping on makes the
/// next step due at once.
pub proof fn lemma_afk_toggle_flips(c: Client)
    ensures
        after_dashboard(c, DashboardRequest::ToggleAfk).afk_active == !c.afk_active,
        after_dashboard(after_dashboard(c, DashboardRequest::ToggleAfk), DashboardRequest::ToggleAfk).afk_active
            == c.afk_active,
        !c.afk_active ==> after_dashboard(c, DashboardRequest::ToggleAfk).move_cooldown == 0,
{
}

/// A packet changes only what it is about: only a position packet in play
/// places the bot in the world, only a disconnect in play closes the
/// connection, only a keep-alive in play touches the step cooldown (setting
/// it to zero), and no packet touches the AFK switch, the head-turn and
/// swing cooldowns, the step direction or the other counters.
pub proof fn lemma_packets_change_only_their_fields(c: Client, p: ClientboundPacket)
    ensures
        ({
            let n = after_packet(c, p);
            &&& !(p is PlayerPosition) ==> n.is_loaded == c.is_loaded
            &&& n.is_loaded != c.is_loaded ==> p is PlayerPosition && c.connection_state
                == ConnectionState::Play && n.is_loaded
            &&& !(p is PlayDisconnect) ==> n.closed == c.closed
            &&& n.closed != c.closed ==> p is PlayDisconnect && c.connection_state
                == ConnectionState::Play && n.closed
            &&& !(p is KeepAlive) ==> n.move_cooldown == c.move_cooldown
            &&& n.move_cooldown != c.move_cooldown ==> p is KeepAlive && c.connection_state
                == ConnectionState::Play && n.move_cooldown == 0
            &&& n.connection_state != c.connection_state ==> (p is LoginSuccess && c.connection_state
                == ConnectionState::Login) || (p is FinishConfig && c.connection_state
                == ConnectionState::Config)
            &&& n.afk_active == c.afk_active
            &&& n.swing_cooldown == c.swing_cooldown
            &&& n.rotation_cooldown == c.rotation_cooldown
            &&& n.next_step == c.next_step
            &&& n.entity_id == c.entity_id
            &&& n.message_spam_cooldown == c.message_spam_cooldown
            &&& n.message_count == c.message_count
        }),
{
}

/// The replies to packets: a packet outside its phase, or one the bot does
/// not react to, asks for nothing; only a disconnect in play asks to close;
/// the compression threshold asked for is the server's threshold read as an
/// unsigned 32-bit value.
pub proof fn lemma_packet_replies(c: Client, p: ClientboundPacket, threshold: i32)
    ensures
        p is Unhandled ==> packet_effects(c.connection_state, p).len() == 0,
        c.connection_state != ConnectionState::Login && c.connection_state != ConnectionState::Config
            && c.connection_state != ConnectionState::Play ==> packet_effects(c.connection_state, p).len()
            == 0,
        packet_effects(c.connection_state, p).contains(ClientEffect::Close) ==> p is PlayDisconnect
            && c.connection_state == ConnectionState::Play,
        packet_effects(c.connection_state, p).len() <= 2,
        ({
            let e = packet_effects(ConnectionState::Login, ClientboundPacket::SetCompression { threshold });
            &&& e.len() == 1
            &&& (e[0] matches ClientEffect::SetCompression(x) && (threshold >= 0 ==> x as int
                == threshold as int) && (threshold < 0 ==> x as int == threshold as int + 0x1_0000_0000))
        }),
{
    let e = packet_effects(ConnectionState::Login, ClientboundPacket::SetCompression { threshold });
    assert(e[0] == ClientEffect::SetCompression(threshold as u32));
    assert((threshold >= 0 ==> (threshold as u32) as int == threshold as int) && (threshold < 0 ==> (
    threshold as u32) as int == threshold as int + 0x1_0000_0000)) by (bit_vector);
    if packet_effects(c.connection_state, p).contains(ClientEffect::Close) {
        let i = choose|i: int|
            0 <= i < packet_effects(c.connection_state, p).len() && packet_effects(c.connection_state, p)[i]
                == ClientEffect::Close;
        assert(packet_effects(c.connection_state, p)[i] == ClientEffect::Close);
    }
}

/// An id is only ever taken for a packet of the current phase whose id it
/// is, earlier matches first; and an id that is the first listed packet of
/// its phase is always taken for it.
pub proof fn lemma_classify_matches_ids(state: ConnectionState, id: i32, ids: PacketIds)
    ensures
        ({
            let k = classify(state, id, ids);
            &&& k == PacketKind::SetCompression ==> state == ConnectionState::Login && id == ids.set_compression
            &&& k == PacketKind::LoginSuccess ==> state == ConnectionState::Login && id == ids.login_success
                && id != ids.set_compression
            &&& k == PacketKind::FinishConfig ==> state == ConnectionState::Config && id == ids.finish_config
            &&& k == PacketKind::KeepAlive ==> state == ConnectionState::Play && id == ids.keep_alive
            &&& k == PacketKind::PlayerPosition ==> state == ConnectionState::Play && id
                == ids.player_position && id != ids.keep_alive
            &&& k == PacketKind::PlayLogin ==> state == ConnectionState::Play && id == ids.play_login && id
                != ids.keep_alive && id != ids.player_position
            &&& k == PacketKind::PlayDisconnect ==> state == ConnectionState::Play && id
                == ids.play_disconnect && id != ids.keep_alive && id != ids.player_position && id
                != ids.play_login
            &&& state == ConnectionState::Login && id == ids.set_compression ==> k == PacketKind::SetCompression
            &&& state == ConnectionState::Config && id == ids.finish_config ==> k == PacketKind::FinishConfig
            &&& state == ConnectionState::Play && id == ids.keep_alive ==> k == PacketKind::KeepAlive
            &&& k == PacketKind::Unhandled ==> match state {
                ConnectionState::Login => id != ids.set_compression && id != ids.login_success,
                ConnectionState::Config => id != ids.finish_config,
                ConnectionState::Play => id != ids.keep_alive && id != ids.player_position && id
                    != ids.play_login && id != ids.play_disconnect,
                _ => true,
            }
        }),
{
}

/// Switching stepping on or off changes only the AFK switch and, when
/// switching on, zeroes the step cooldown: the phase, the world placement,
/// the connection mark, the other cooldowns and the step direction stay.
/// So with stepping off, a client in the world still turns its head and
/// swings exactly as before.
pub proof fn lemma_set_afk_changes_only_stepping(
    c: Client,
    active: bool,
    args: Args,
    m: MotionStatus,
    fresh: FreshCooldowns,
)
    ensures
        ({
            let n = after_set_afk(c, active);
            &&& n.afk_active == active
            &&& active ==> n.move_cooldown == 0
            &&& !active ==> n.move_cooldown == c.move_cooldown
            &&& n.connection_state == c.connection_state
            &&& n.is_loaded == c.is_loaded
            &&& n.closed == c.closed
            &&& n.swing_cooldown == c.swing_cooldown
            &&& n.rotation_cooldown == c.rotation_cooldown
            &&& n.next_step == c.next_step
            &&& n.entity_id == c.entity_id
            &&& n.message_spam_cooldown == c.message_spam_cooldown
            &&& n.message_count == c.message_count
        }),
        ticking(c) ==> ({
            let (n1, plan1) = after_tick(after_set_afk(c, false), args, m, fresh);
            let (n0, plan0) = after_tick(c, args, m, fresh);
            &&& ticking(after_set_afk(c, false))
            &&& plan1.rotation == plan0.rotation
            &&& plan1.swing == plan0.swing
            &&& n1.rotation_cooldown == n0.rotation_cooldown
            &&& n1.swing_cooldown == n0.swing_cooldown
            &&& plan1.movement == MotionStep::Hold
        }),
        ({
            let n = after_dashboard(c, DashboardRequest::ToggleAfk);
            &&& n.afk_active == !c.afk_active
            &&& n.connection_state == c.connection_state
            &&& n.is_loaded == c.is_loaded
            &&& n.closed == c.closed
            &&& n.swing_cooldown == c.swing_cooldown
            &&& n.rotation_cooldown == c.rotation_cooldown
            &&& n.next_step == c.next_step
        }),
{
}

/// The command bar: a text that starts with `/` goes out as a command that,
/// with that one slash put back in front, is the text again; any other text
/// goes out as a chat message that is the text itself.
pub proof fn lemma_command_bar_gate(text: Seq<char>, p: ServerboundPacket)
    requires
        chat_packet_is(text, p),
    ensures
        text.len() > 0 && text[0] == '/' ==> (p matches ServerboundPacket::ChatCommand { command }
            && seq!['/'] + command@ == text && command@.len() + 1 == text.len()),
        !(text.len() > 0 && text[0] == '/') ==> (p matches ServerboundPacket::ChatMessage { message }
            && message@ == text),
{
    if text.len() > 0 && text[0] == '/' {
        if let ServerboundPacket::ChatCommand { command } = p {
            assert(seq!['/'] + command@ =~= text);
        }
    }
}

/// The dashboard's moves: each key moves exactly one block along one axis,
/// W and S along z in opposite directions, A and D along x in opposite
/// directions; a move is only made once the bot is in the world, and a
/// command only in play.
pub proof fn lemma_dashboard_moves(c: Client, k: MoveKey, text: String, e: DashboardEffect)
    ensures
        ({
            let (dx, dz) = move_offset(k);
            &&& (dx == 0 && (dz == 1 || dz == -1)) || (dz == 0 && (dx == 1 || dx == -1))
        }),
        move_offset(MoveKey::W).0 == 0 && move_offset(MoveKey::W).1 == 1,
        move_offset(MoveKey::S).0 == -move_offset(MoveKey::W).0 && move_offset(MoveKey::S).1
            == -move_offset(MoveKey::W).1,
        move_offset(MoveKey::A).1 == 0 && move_offset(MoveKey::D).0 == -move_offset(MoveKey::A).0
            && move_offset(MoveKey::D).1 == 0,
        dashboard_effect_is(c, DashboardRequest::Move(k), e) && !ticking(c) ==> e
            == DashboardEffect::Nothing,
        dashboard_effect_is(c, DashboardRequest::Command(text), e) && c.connection_state
            != ConnectionState::Play ==> e == DashboardEffect::Nothing,
        dashboard_effect_is(c, DashboardRequest::Page, e) ==> e == DashboardEffect::Nothing,
        after_dashboard(c, DashboardRequest::Move(k)) == c,
        after_dashboard(c, DashboardRequest::Command(text)) == c,
{
}

/// Each dashboard route is taken only by its own URL: the page by `/`, a
/// move by `/action?type=` and that key's letter, the AFK toggle by
/// `/action?type=AFK`, and a command only by a URL that starts with
/// `/cmd?msg=`.
pub proof fn lemma_routes_match_their_urls(path: Seq<char>)
    ensures
        route_kind(path) == RouteKind::Page ==> path == "/"@,
        route_kind(path) == RouteKind::Move(MoveKey::W) ==> path == "/action?type=W"@,
        route_kind(path) == RouteKind::Move(MoveKey::A) ==> path == "/action?type=A"@,
        route_kind(path) == RouteKind::Move(MoveKey::S) ==> path == "/action?type=S"@,
        route_kind(path) == RouteKind::Move(MoveKey::D) ==> path == "/action?type=D"@,
        route_kind(path) == RouteKind::ToggleAfk ==> path == "/action?type=AFK"@,
        route_kind(path) == RouteKind::Command ==> "/cmd?msg="@.len() <= path.len() && path.subrange(
            0,
            "/cmd?msg="@.len() as int,
        ) == "/cmd?msg="@,
        path == "/"@ ==> route_kind(path) == RouteKind::Page,
{
}

/// A tick changes only the cooldowns and the step direction: the phase,
/// the world placement, the connection mark and the AFK switch stay; a
/// motion that begins takes the given pause, one that holds counts down by
/// exactly one, and the only packet a tick sends is a main-hand swing.
pub proof fn lemma_tick_changes_only_cooldowns(c: Client, args: Args, m: MotionStatus, fresh: FreshCooldowns)
    ensures
        ({
            let (n, plan) = after_tick(c, args, m, fresh);
            &&& n.connection_state == c.connection_state
            &&& n.is_loaded == c.is_loaded
            &&& n.closed == c.closed
            &&& n.afk_active == c.afk_active
            &&& n.entity_id == c.entity_id
            &&& n.message_spam_cooldown == c.message_spam_cooldown
            &&& n.message_count == c.message_count
            &&& plan.swing is Some ==> plan.swing == Some(ServerboundPacket::SwingArm { hand: 0 }) && ticking(c)
                && args.enable_swing
            &&& plan.rotation == MotionStep::Begin ==> n.rotation_cooldown == fresh.rotation
            &&& plan.movement == MotionStep::Begin ==> n.move_cooldown == fresh.movement
            &&& plan.rotation != MotionStep::Begin && n.rotation_cooldown != c.rotation_cooldown ==> n.rotation_cooldown
                + 1 == c.rotation_cooldown
            &&& plan.movement != MotionStep::Begin && n.move_cooldown != c.move_cooldown ==> n.move_cooldown
                + 1 == c.move_cooldown
            &&& plan.swing is None && n.swing_cooldown != c.swing_cooldown ==> n.swing_cooldown + 1
                == c.swing_cooldown
            &&& plan.swing is Some ==> n.swing_cooldown + 1 == SWING_INTERVAL
            &&& !args.enable_rotation ==> plan.rotation == MotionStep::Hold && n.rotation_cooldown
                == c.rotation_cooldown
            &&& !args.enable_swing ==> plan.swing is None && n.swing_cooldown == c.swing_cooldown
            &&& !c.afk_active ==> plan.movement == MotionStep::Hold && n.move_cooldown == c.move_cooldown
        }),
{
}

/// The rates and the protocol the bot keeps to: a swing every 40 ticks (two
/// seconds at 20 ticks a second), head-turn pauses of 40 to 99 ticks, step
/// pauses of 80 to 199 ticks, and protocol 767 (Minecraft 1.21.1).
pub proof fn lemma_documented_constants()
    ensures
        SWING_INTERVAL == 40,
        ROTATION_COOLDOWN_MIN == 40 && ROTATION_COOLDOWN_MAX == 100,
        MOVE_COOLDOWN_MIN == 80 && MOVE_COOLDOWN_MAX == 200,
        PROTOCOL_VERSION == 767,
{
}

/// A compression request installs its threshold reduced modulo 2^32, and
/// no request installs nothing.
pub proof fn lemma_compression_threshold(threshold: usize, level: i32)
    ensures
        compression_threshold(None) is None,
        compression_threshold(Some((threshold, level))) is Some,
        compression_threshold(Some((threshold, level)))->0 as int == threshold as int % 0x1_0000_0000,
        threshold <= u32::MAX ==> compression_threshold(Some((threshold, level)))->0 as int == threshold as int,
{
    assert((threshold as u32) as int == threshold as int % 0x1_0000_0000) by (bit_vector);
}

/// Joining sends the handshake first, for protocol 767, to the given address
/// and port and asking for the login phase, then the login start under the
/// given name and that name's offline identifier; the client moves to the
/// login phase and nothing else about it changes.
pub proof fn lemma_join_opens_login(
    c: Client,
    packets: Seq<ServerboundPacket>,
    server_address: String,
    server_port: u16,
    name: String,
)
    requires
        join_packets_are(packets, server_address, server_port, name),
    ensures
        packets.len() == 2,
        packets[0] matches ServerboundPacket::HandShake { protocol_version, server_address: a, server_port: pt, next_state }
            && protocol_version == 767 && a == server_address && pt == server_port && next_state
            == ConnectionState::Login,
        packets[1] matches ServerboundPacket::LoginStart { name: n, uuid } && n == name && uuid@
            == offline_player_uuid(name@),
        ({
            let n = after_join(c);
            &&& n.connection_state == ConnectionState::Login
            &&& n.is_loaded == c.is_loaded && n.closed == c.closed && n.afk_active == c.afk_active
            &&& n.swing_cooldown == c.swing_cooldown && n.rotation_cooldown == c.rotation_cooldown
            &&& n.move_cooldown == c.move_cooldown && n.next_step == c.next_step
        }),
{
}

/// The replies of the login handshake: a login success is acknowledged and
/// then answered with an empty list of known packs, the end of the
/// configuration is acknowledged, and the play login is answered with
/// "player loaded".
pub proof fn lemma_handshake_replies(c: Client)
    ensures
        c.connection_state == ConnectionState::Login ==> packet_effects(
            c.connection_state,
            ClientboundPacket::LoginSuccess,
        ) =~= seq![
            ClientEffect::Send(ServerboundPacket::LoginAcknowledged),
            ClientEffect::Send(ServerboundPacket::KnownPacks { known_pack_count: 0 }),
        ],
        c.connection_state == ConnectionState::Config ==> packet_effects(
            c.connection_state,
            ClientboundPacket::FinishConfig,
        ) =~= seq![ClientEffect::Send(ServerboundPacket::AcknowledgeFinishConfig)],
        c.connection_state == ConnectionState::Play ==> packet_effects(
            c.connection_state,
            ClientboundPacket::PlayLogin,
        ) =~= seq![ClientEffect::Send(ServerboundPacket::PlayerLoaded)],
        c.connection_state == ConnectionState::Play ==> after_packet(c, ClientboundPacket::PlayLogin) == c,
{
}

} // verus!
