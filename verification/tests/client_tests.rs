use botmark::args::Args;
use botmark::client::{
    Client, ClientEffect, ClientboundPacket, ConnectionState, FreshCooldowns, MotionStatus,
    MotionStep, PacketIds, PacketKind, ServerboundPacket, StepDirection, TickPlan,
    MOVE_COOLDOWN_MAX, PROTOCOL_VERSION, ROTATION_COOLDOWN_MAX, SWING_INTERVAL,
};
use botmark::dashboard::{
    parse_dashboard_request, send_chat_or_cmd, DashboardEffect, DashboardRequest, MoveKey,
};
use botmark::identity::offline_uuid;
use botmark::wire::write_var_int;

fn ids() -> PacketIds {
    PacketIds {
        set_compression: 3,
        login_success: 2,
        finish_config: 3,
        keep_alive: 0x26,
        player_position: 0x42,
        play_login: 0x2b,
        play_disconnect: 0x1d,
    }
}

fn args(rotation: bool, swing: bool) -> Args {
    Args {
        ip: "127.0.0.1:25565".to_string(),
        count: 1,
        delay: 200,
        timeout: 5000,
        spam_message: Some("Bot Active".to_string()),
        spam_message_delay_min: 150,
        spam_message_delay_max: 250,
        enable_rotation: rotation,
        enable_swing: swing,
    }
}

fn in_world() -> Client {
    let mut c = Client::new();
    c.connection_state = ConnectionState::Play;
    c.is_loaded = true;
    c
}

fn idle() -> MotionStatus {
    MotionStatus { rotation_finished: true, movement_finished: true }
}

fn fresh() -> FreshCooldowns {
    FreshCooldowns { rotation: 55, movement: 150 }
}

fn var_int(v: i32) -> Vec<u8> {
    let mut buf = Vec::new();
    write_var_int(v, &mut buf);
    buf
}

#[test]
fn new_client_starts_in_handshake_with_afk_on() {
    let c = Client::new();
    assert_eq!(c.connection_state, ConnectionState::HandShake);
    assert!(!c.closed);
    assert!(!c.is_loaded);
    assert!(c.afk_active);
    assert_eq!(c.entity_id, 0);
    assert_eq!(c.message_spam_cooldown, 1);
    assert_eq!(c.message_count, 0);
    assert_eq!((c.swing_cooldown, c.move_cooldown, c.rotation_cooldown), (0, 0, 0));
    assert_eq!(c.next_step, StepDirection::Forward);
}

#[test]
fn var_int_exact_encodings() {
    assert_eq!(var_int(0), vec![0x00]);
    assert_eq!(var_int(1), vec![0x01]);
    assert_eq!(var_int(127), vec![0x7f]);
    assert_eq!(var_int(128), vec![0x80, 0x01]);
    assert_eq!(var_int(255), vec![0xff, 0x01]);
    assert_eq!(var_int(300), vec![0xac, 0x02]);
    assert_eq!(var_int(25565), vec![0xdd, 0xc7, 0x01]);
    assert_eq!(var_int(2097151), vec![0xff, 0xff, 0x7f]);
    assert_eq!(var_int(2147483647), vec![0xff, 0xff, 0xff, 0xff, 0x07]);
    assert_eq!(var_int(-1), vec![0xff, 0xff, 0xff, 0xff, 0x0f]);
    assert_eq!(var_int(-2147483648), vec![0x80, 0x80, 0x80, 0x80, 0x08]);
}

#[test]
fn write_var_int_appends() {
    let mut buf = vec![9u8, 9];
    write_var_int(300, &mut buf);
    assert_eq!(buf, vec![9, 9, 0xac, 0x02]);
}

#[test]
fn send_packet_frames_id_then_body() {
    assert_eq!(Client::send_packet(0x1a, &[1, 2, 3]), vec![0x1a, 1, 2, 3]);
    assert_eq!(Client::send_packet(0x80, &[]), vec![0x80, 0x01]);
    assert_eq!(Client::send_packet(0, &[0xff]), vec![0x00, 0xff]);
}

#[test]
fn frame_splits_back_into_id_and_body() {
    for id in [0i32, 5, 127, 128, 300, 0x7fff_ffff, -7] {
        let body = vec![0x81u8, 0x00, 0x7f];
        let frame = Client::send_packet(id, &body);
        let n = frame.iter().position(|b| b & 0x80 == 0).unwrap() + 1;
        let mut value: u64 = 0;
        for (i, b) in frame[..n].iter().enumerate() {
            value |= ((b & 0x7f) as u64) << (7 * i);
        }
        assert_eq!(value as u32, id as u32);
        assert_eq!(&frame[n..], &body[..]);
    }
}

#[test]
fn set_compression_takes_threshold_and_ignores_level() {
    let c = Client::new();
    assert_eq!(c.set_compression(Some((256, 6))), Some(256));
    assert_eq!(c.set_compression(Some((256, -1))), Some(256));
    assert_eq!(c.set_compression(Some((usize::MAX, 6))), Some(u32::MAX));
    assert_eq!(c.set_compression(None), None);
}

#[test]
fn set_afk_on_resets_step_cooldown() {
    let mut c = Client::new();
    c.move_cooldown = 42;
    c.set_afk(true);
    assert!(c.afk_active);
    assert_eq!(c.move_cooldown, 0);
    c.move_cooldown = 42;
    c.set_afk(false);
    assert!(!c.afk_active);
    assert_eq!(c.move_cooldown, 42);
}

#[test]
fn close_marks_closed() {
    let mut c = in_world();
    c.close();
    assert!(c.closed);
    assert_eq!(c.connection_state, ConnectionState::Play);
}

#[test]
fn classify_depends_on_phase_and_order() {
    let ids = ids();
    let mut c = Client::new();
    assert_eq!(c.classify_packet(3, &ids), PacketKind::Unhandled);
    c.connection_state = ConnectionState::Login;
    assert_eq!(c.classify_packet(3, &ids), PacketKind::SetCompression);
    assert_eq!(c.classify_packet(2, &ids), PacketKind::LoginSuccess);
    assert_eq!(c.classify_packet(0x26, &ids), PacketKind::Unhandled);
    c.connection_state = ConnectionState::Config;
    assert_eq!(c.classify_packet(3, &ids), PacketKind::FinishConfig);
    assert_eq!(c.classify_packet(2, &ids), PacketKind::Unhandled);
    c.connection_state = ConnectionState::Play;
    assert_eq!(c.classify_packet(0x26, &ids), PacketKind::KeepAlive);
    assert_eq!(c.classify_packet(0x42, &ids), PacketKind::PlayerPosition);
    assert_eq!(c.classify_packet(0x2b, &ids), PacketKind::PlayLogin);
    assert_eq!(c.classify_packet(0x1d, &ids), PacketKind::PlayDisconnect);
    assert_eq!(c.classify_packet(3, &ids), PacketKind::Unhandled);
    c.connection_state = ConnectionState::Status;
    assert_eq!(c.classify_packet(0x26, &ids), PacketKind::Unhandled);
    // The first matching id wins when two packets share one.
    let mut shared = ids;
    shared.login_success = shared.set_compression;
    c.connection_state = ConnectionState::Login;
    assert_eq!(c.classify_packet(3, &shared), PacketKind::SetCompression);
}

const EAGLERBOT_UUID: [u8; 16] = [
    0x4b, 0xf2, 0x61, 0x7d, 0x37, 0xc7, 0x39, 0x6a, 0xb7, 0x35, 0x7c, 0x0f, 0xb4, 0xa0, 0x55, 0x16,
];

#[test]
fn join_server_sends_handshake_then_offline_login_start() {
    let mut c = Client::new();
    let packets = c.join_server("10.0.0.1".to_string(), 25565, "EaglerBot".to_string());
    assert_eq!(c.connection_state, ConnectionState::Login);
    assert_eq!(PROTOCOL_VERSION, 767);
    assert_eq!(
        packets,
        vec![
            ServerboundPacket::HandShake {
                protocol_version: 767,
                server_address: "10.0.0.1".to_string(),
                server_port: 25565,
                next_state: ConnectionState::Login,
            },
            ServerboundPacket::LoginStart { name: "EaglerBot".to_string(), uuid: EAGLERBOT_UUID },
        ]
    );
}

#[test]
fn join_server_identifier_depends_only_on_name() {
    let mut a = Client::new();
    let mut b = Client::new();
    let pa = a.join_server("h".to_string(), 1, "Steve".to_string());
    let pb = b.join_server("other".to_string(), 2, "Steve".to_string());
    assert_eq!(pa[1], pb[1]);
    let pc = b.join_server("h".to_string(), 1, "Alex".to_string());
    assert_ne!(pa[1], pc[1]);
}

#[test]
fn offline_uuid_known_values() {
    assert_eq!(offline_uuid("EaglerBot"), EAGLERBOT_UUID);
    assert_eq!(
        offline_uuid("Notch"),
        [0xb5, 0x0a, 0xd3, 0x85, 0x82, 0x9d, 0x31, 0x41, 0xa2, 0x16, 0x7e, 0x7d, 0x75, 0x39, 0xba, 0x7f]
    );
    assert_eq!(
        offline_uuid(""),
        [0xfc, 0x5b, 0xc3, 0x65, 0xae, 0xdf, 0x30, 0xa8, 0x8b, 0x89, 0x04, 0xe4, 0x62, 0xe2, 0x9b, 0xde]
    );
    assert_eq!(
        offline_uuid("a"),
        [0x52, 0x42, 0x8a, 0x0e, 0x1e, 0x30, 0x3c, 0xb1, 0x97, 0x6c, 0xe7, 0x28, 0xb2, 0x61, 0x40, 0x47]
    );
    for name in ["x", "EaglerBot", "Ünïcode"] {
        let id = offline_uuid(name);
        assert_eq!(id[6] >> 4, 3);
        assert_eq!(id[8] >> 6, 2);
    }
}

#[test]
fn login_phase_packets() {
    let mut c = Client::new();
    c.connection_state = ConnectionState::Login;
    let e = c.handle_packet(ClientboundPacket::SetCompression { threshold: 256 });
    assert_eq!(e, vec![ClientEffect::SetCompression(256)]);
    let e = c.handle_packet(ClientboundPacket::SetCompression { threshold: -1 });
    assert_eq!(e, vec![ClientEffect::SetCompression(u32::MAX)]);
    assert_eq!(c.connection_state, ConnectionState::Login);
    let e = c.handle_packet(ClientboundPacket::LoginSuccess);
    assert_eq!(
        e,
        vec![
            ClientEffect::Send(ServerboundPacket::LoginAcknowledged),
            ClientEffect::Send(ServerboundPacket::KnownPacks { known_pack_count: 0 }),
        ]
    );
    assert_eq!(c.connection_state, ConnectionState::Config);
}

#[test]
fn config_phase_packets() {
    let mut c = Client::new();
    c.connection_state = ConnectionState::Config;
    assert_eq!(c.handle_packet(ClientboundPacket::KeepAlive { keep_alive_id: 1 }), vec![]);
    assert_eq!(c.connection_state, ConnectionState::Config);
    let e = c.handle_packet(ClientboundPacket::FinishConfig);
    assert_eq!(e, vec![ClientEffect::Send(ServerboundPacket::AcknowledgeFinishConfig)]);
    assert_eq!(c.connection_state, ConnectionState::Play);
}

#[test]
fn keep_alive_is_echoed_and_triggers_step() {
    let mut c = in_world();
    c.move_cooldown = 99;
    let e = c.handle_packet(ClientboundPacket::KeepAlive { keep_alive_id: -123456789012 });
    assert_eq!(e, vec![ClientEffect::Send(ServerboundPacket::KeepAlive { keep_alive_id: -123456789012 })]);
    assert_eq!(c.move_cooldown, 0);
    let plan = c.tick_with(&args(false, false), idle(), fresh());
    assert_eq!(plan.movement, MotionStep::Begin);
    assert_eq!(c.move_cooldown, 150);
}

#[test]
fn teleport_is_confirmed_and_places_bot() {
    let mut c = Client::new();
    c.connection_state = ConnectionState::Play;
    let e = c.handle_packet(ClientboundPacket::PlayerPosition { teleport_id: 17 });
    assert_eq!(e, vec![ClientEffect::Send(ServerboundPacket::ConfirmTeleport { teleport_id: 17 })]);
    assert!(c.is_loaded);
}

#[test]
fn play_login_and_disconnect() {
    let mut c = in_world();
    assert_eq!(c.handle_packet(ClientboundPacket::PlayLogin), vec![ClientEffect::Send(ServerboundPacket::PlayerLoaded)]);
    assert!(!c.closed);
    assert_eq!(c.handle_packet(ClientboundPacket::PlayDisconnect), vec![ClientEffect::Close]);
    assert!(c.closed);
    assert_eq!(c.handle_packet(ClientboundPacket::Unhandled), vec![]);
}

#[test]
fn packets_outside_their_phase_are_ignored() {
    let mut c = Client::new();
    for p in [
        ClientboundPacket::LoginSuccess,
        ClientboundPacket::FinishConfig,
        ClientboundPacket::KeepAlive { keep_alive_id: 1 },
        ClientboundPacket::PlayerPosition { teleport_id: 1 },
        ClientboundPacket::PlayDisconnect,
        ClientboundPacket::SetCompression { threshold: 5 },
    ] {
        let before = c;
        assert_eq!(c.handle_packet(p), vec![]);
        assert_eq!(c, before);
    }
}

#[test]
fn login_sequence_reaches_play_and_motion() {
    let mut c = Client::new();
    let a = args(true, true);
    c.join_server("h".to_string(), 1, "n".to_string());
    assert_eq!(c.tick_with(&a, idle(), fresh()).rotation, MotionStep::Hold);
    c.handle_packet(ClientboundPacket::LoginSuccess);
    c.handle_packet(ClientboundPacket::FinishConfig);
    assert_eq!(c.connection_state, ConnectionState::Play);
    let before = c;
    let plan = c.tick_with(&a, idle(), fresh());
    assert_eq!(plan, TickPlan { rotation: MotionStep::Hold, swing: None, movement: MotionStep::Hold, step_direction: None });
    assert_eq!(c, before);
    c.handle_packet(ClientboundPacket::PlayerPosition { teleport_id: 3 });
    let plan = c.tick_with(&a, idle(), fresh());
    assert_eq!(plan.rotation, MotionStep::Begin);
    assert_eq!(plan.movement, MotionStep::Begin);
}

#[test]
fn tick_counts_down_then_begins() {
    let mut c = in_world();
    c.rotation_cooldown = 2;
    let a = args(true, false);
    assert_eq!(c.tick_with(&a, idle(), fresh()).rotation, MotionStep::Hold);
    assert_eq!(c.rotation_cooldown, 1);
    assert_eq!(c.tick_with(&a, idle(), fresh()).rotation, MotionStep::Hold);
    assert_eq!(c.rotation_cooldown, 0);
    assert_eq!(c.tick_with(&a, idle(), fresh()).rotation, MotionStep::Begin);
    assert_eq!(c.rotation_cooldown, 55);
}

#[test]
fn tick_advances_motions_in_progress_without_counting() {
    let mut c = in_world();
    c.rotation_cooldown = 7;
    c.move_cooldown = 9;
    let m = MotionStatus { rotation_finished: false, movement_finished: false };
    let plan = c.tick_with(&args(true, false), m, fresh());
    assert_eq!(plan.rotation, MotionStep::Advance);
    assert_eq!(plan.movement, MotionStep::Advance);
    assert_eq!((c.rotation_cooldown, c.move_cooldown), (7, 9));
}

#[test]
fn disabled_motions_hold() {
    let mut c = in_world();
    c.set_afk(false);
    c.rotation_cooldown = 0;
    let plan = c.tick_with(&args(false, false), idle(), fresh());
    assert_eq!(plan, TickPlan { rotation: MotionStep::Hold, swing: None, movement: MotionStep::Hold, step_direction: None });
    assert_eq!((c.rotation_cooldown, c.swing_cooldown, c.move_cooldown), (0, 0, 0));
}

#[test]
fn swing_when_due_then_every_interval() {
    let mut c = in_world();
    let a = args(false, true);
    let plan = c.tick_with(&a, idle(), fresh());
    assert_eq!(plan.swing, Some(ServerboundPacket::SwingArm { hand: 0 }));
    assert_eq!(c.swing_cooldown, SWING_INTERVAL - 1);
    let mut swings_at = Vec::new();
    for t in 1..=(3 * SWING_INTERVAL) {
        if c.tick_with(&a, idle(), fresh()).swing.is_some() {
            swings_at.push(t);
        }
    }
    assert_eq!(swings_at, vec![40, 80, 120]);
}

#[test]
fn swing_comes_within_forty_ticks_from_any_counter() {
    for start in 0..SWING_INTERVAL {
        let mut c = in_world();
        c.swing_cooldown = start;
        let mut first = None;
        for t in 0..SWING_INTERVAL {
            if c.tick_with(&args(false, true), idle(), fresh()).swing.is_some() {
                first = Some(t);
                break;
            }
        }
        assert_eq!(first, Some(start));
    }
}

#[test]
fn swing_disabled_never_swings() {
    let mut c = in_world();
    for _ in 0..100 {
        assert_eq!(c.tick_with(&args(false, false), idle(), fresh()).swing, None);
    }
    assert_eq!(c.swing_cooldown, 0);
}

#[test]
fn random_tick_draws_pauses_in_range() {
    for _ in 0..200 {
        let mut c = in_world();
        let m = MotionStatus { rotation_finished: true, movement_finished: true };
        let plan = c.tick(&args(true, true), m);
        assert_eq!(plan.rotation, MotionStep::Begin);
        assert_eq!(plan.movement, MotionStep::Begin);
        assert_eq!(plan.swing, Some(ServerboundPacket::SwingArm { hand: 0 }));
        assert!((40..100).contains(&c.rotation_cooldown));
        assert_eq!(c.swing_cooldown, 39);
        assert!((80..200).contains(&c.move_cooldown));
    }
}

#[test]
fn random_tick_before_world_does_nothing() {
    let mut c = Client::new();
    let before = c;
    let plan = c.tick(&args(true, true), idle());
    assert_eq!(plan, TickPlan { rotation: MotionStep::Hold, swing: None, movement: MotionStep::Hold, step_direction: None });
    assert_eq!(c, before);
}

#[test]
fn random_pauses_vary() {
    let mut seen = std::collections::HashSet::new();
    for _ in 0..200 {
        let mut c = in_world();
        c.tick(&args(true, false), idle());
        seen.insert(c.rotation_cooldown);
    }
    assert!(seen.len() > 1);
}

#[test]
fn overdue_counters_fire_at_once() {
    let mut c = in_world();
    c.swing_cooldown = 1000;
    c.rotation_cooldown = ROTATION_COOLDOWN_MAX;
    c.move_cooldown = u32::MAX;
    let plan = c.tick_with(&args(true, true), idle(), fresh());
    assert_eq!(plan.swing, Some(ServerboundPacket::SwingArm { hand: 0 }));
    assert_eq!(plan.rotation, MotionStep::Begin);
    assert_eq!(plan.movement, MotionStep::Begin);
    assert_eq!((c.swing_cooldown, c.rotation_cooldown, c.move_cooldown), (39, 55, 150));
    let mut c = in_world();
    c.rotation_cooldown = ROTATION_COOLDOWN_MAX - 1;
    c.move_cooldown = MOVE_COOLDOWN_MAX - 1;
    let plan = c.tick_with(&args(true, false), idle(), fresh());
    assert_eq!(plan.rotation, MotionStep::Hold);
    assert_eq!(plan.movement, MotionStep::Hold);
    assert_eq!((c.rotation_cooldown, c.move_cooldown), (98, 198));
}

#[test]
fn steps_alternate_forward_and_back() {
    let mut c = in_world();
    let mut directions = Vec::new();
    let mut t = 0;
    while directions.len() < 4 && t < 10_000 {
        let plan = c.tick_with(&args(false, false), idle(), fresh());
        assert_eq!(plan.step_direction.is_some(), plan.movement == MotionStep::Begin);
        if let Some(d) = plan.step_direction {
            directions.push(d);
        }
        t += 1;
    }
    assert_eq!(
        directions,
        vec![StepDirection::Forward, StepDirection::Back, StepDirection::Forward, StepDirection::Back]
    );
}

#[test]
fn head_turn_begins_within_longest_pause() {
    for start in [0, 1, 50, 99, 100, 5000] {
        let mut c = in_world();
        c.rotation_cooldown = start;
        let mut begun = None;
        for t in 0..ROTATION_COOLDOWN_MAX {
            if c.tick_with(&args(true, false), idle(), fresh()).rotation == MotionStep::Begin {
                begun = Some(t);
                break;
            }
        }
        assert!(begun.is_some(), "no begin from {}", start);
    }
}

#[test]
fn dashboard_routes() {
    assert_eq!(parse_dashboard_request("/"), DashboardRequest::Page);
    assert_eq!(parse_dashboard_request("/action?type=W"), DashboardRequest::Move(MoveKey::W));
    assert_eq!(parse_dashboard_request("/action?type=A"), DashboardRequest::Move(MoveKey::A));
    assert_eq!(parse_dashboard_request("/action?type=S"), DashboardRequest::Move(MoveKey::S));
    assert_eq!(parse_dashboard_request("/action?type=D"), DashboardRequest::Move(MoveKey::D));
    assert_eq!(parse_dashboard_request("/action?type=AFK"), DashboardRequest::ToggleAfk);
    assert_eq!(parse_dashboard_request("/action?type=X"), DashboardRequest::Status);
    assert_eq!(parse_dashboard_request("/healthz"), DashboardRequest::Status);
    assert_eq!(parse_dashboard_request(""), DashboardRequest::Status);
    assert_eq!(
        parse_dashboard_request("/cmd?msg=%2Fspawn%20now"),
        DashboardRequest::Command("/spawn now".to_string())
    );
    assert_eq!(
        parse_dashboard_request("/cmd?msg=hello+there"),
        DashboardRequest::Command("hello+there".to_string())
    );
    assert_eq!(parse_dashboard_request("/cmd?msg="), DashboardRequest::Command(String::new()));
    assert_eq!(parse_dashboard_request("/cmd?msg=%FF"), DashboardRequest::Malformed);
}

#[test]
fn chat_or_command_gate() {
    assert_eq!(
        send_chat_or_cmd("/spawn".to_string()),
        ServerboundPacket::ChatCommand { command: "spawn".to_string() }
    );
    assert_eq!(
        send_chat_or_cmd("hello /world".to_string()),
        ServerboundPacket::ChatMessage { message: "hello /world".to_string() }
    );
    assert_eq!(send_chat_or_cmd("/".to_string()), ServerboundPacket::ChatCommand { command: String::new() });
    assert_eq!(send_chat_or_cmd(String::new()), ServerboundPacket::ChatMessage { message: String::new() });
}

#[test]
fn dashboard_moves_only_in_world() {
    let mut c = Client::new();
    assert_eq!(c.dashboard(DashboardRequest::Move(MoveKey::W)), DashboardEffect::Nothing);
    let mut c = in_world();
    assert_eq!(c.dashboard(DashboardRequest::Move(MoveKey::W)), DashboardEffect::Step { dx: 0, dz: 1 });
    assert_eq!(c.dashboard(DashboardRequest::Move(MoveKey::S)), DashboardEffect::Step { dx: 0, dz: -1 });
    assert_eq!(c.dashboard(DashboardRequest::Move(MoveKey::A)), DashboardEffect::Step { dx: 1, dz: 0 });
    assert_eq!(c.dashboard(DashboardRequest::Move(MoveKey::D)), DashboardEffect::Step { dx: -1, dz: 0 });
    assert_eq!(c.dashboard(DashboardRequest::Page), DashboardEffect::Nothing);
    assert_eq!(c.dashboard(DashboardRequest::Status), DashboardEffect::Nothing);
    assert_eq!(c.dashboard(DashboardRequest::Malformed), DashboardEffect::Nothing);
}

#[test]
fn dashboard_afk_toggle_flips() {
    let mut c = in_world();
    c.move_cooldown = 77;
    assert_eq!(c.dashboard(DashboardRequest::ToggleAfk), DashboardEffect::AfkSwitched(false));
    assert!(!c.afk_active);
    assert_eq!(c.move_cooldown, 77);
    assert_eq!(c.dashboard(DashboardRequest::ToggleAfk), DashboardEffect::AfkSwitched(true));
    assert!(c.afk_active);
    assert_eq!(c.move_cooldown, 0);
}

#[test]
fn dashboard_commands_only_in_play() {
    let mut c = Client::new();
    c.connection_state = ConnectionState::Config;
    assert_eq!(c.dashboard(DashboardRequest::Command("/help".to_string())), DashboardEffect::Nothing);
    c.connection_state = ConnectionState::Play;
    assert_eq!(
        c.dashboard(DashboardRequest::Command("/help".to_string())),
        DashboardEffect::Send(ServerboundPacket::ChatCommand { command: "help".to_string() })
    );
    assert_eq!(
        c.dashboard(DashboardRequest::Command("hi".to_string())),
        DashboardEffect::Send(ServerboundPacket::ChatMessage { message: "hi".to_string() })
    );
}
