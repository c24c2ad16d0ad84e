use voxel_builder::color::{color_key, color_key_of, parse_color_key, rgb_of};
use voxel_builder::dispatch::{
    command_for, plan_build, plan_placements, session_step, BuildAction, BuildPhase, BuildRun,
    SessionAction, SessionEvent, SessionState, SEND_INTERVAL_MS,
};
use voxel_builder::error::BuildError;
use voxel_builder::palette::{PaletteEntry, PaletteMap};
use voxel_builder::protocol::{
    chat_trigger_text, create_player_message_subscribe_command, create_set_block_command,
    trigger_of_message, MCMessage, MCMessageBody, MCMessageBodyProperty, MCMessageHeader,
    EXTERNAL_SENDER,
};
use voxel_builder::text::{decimal_text, read_triplet, same_text};
use voxel_builder::transform::{world_position, Direction, Location};
use voxel_builder::trigger::parse_trigger;
use voxel_builder::voxel::{
    first_model, load_vox, MinecraftBlockInfo, MinecraftVox, MinecraftVoxSize, VoxScene,
    VoxelModel, VoxelRecord,
};

fn entry(color: &str, block: &str) -> PaletteEntry {
    PaletteEntry { color: color.to_string(), block: block.to_string() }
}

fn voxel(x: u8, y: u8, z: u8, i: u8) -> VoxelRecord {
    VoxelRecord { x, y, z, i }
}

fn two_voxel_scene() -> VoxScene {
    VoxScene {
        models: vec![VoxelModel {
            voxels: vec![voxel(0, 0, 0, 0), voxel(1, 1, 1, 1)],
            size: MinecraftVoxSize { x: 2, y: 2, z: 2 },
        }],
        palette: vec![0xff808080, 0xff8b4513],
    }
}

fn two_entry_palette() -> PaletteMap {
    PaletteMap::from_entries(vec![entry("128,128,128", "stone"), entry("139,69,19", "dirt")])
}

fn chat(sender: &str, text: &str) -> MCMessage {
    MCMessage {
        header: MCMessageHeader { message_purpose: "event".to_string() },
        body: MCMessageBody {
            event_name: Some("PlayerMessage".to_string()),
            properties: Some(MCMessageBodyProperty {
                sender: sender.to_string(),
                message: text.to_string(),
            }),
        },
    }
}

const BASE: Location = Location { x: 100, y: 64, z: 200 };

#[test]
fn transform_follows_each_direction() {
    // local (1, 2, 3), extent (5, 7, _)
    assert_eq!(
        world_position(1, 2, 3, 5, 7, Direction::North, BASE),
        Some(Location { x: 102, y: 67, z: 201 })
    );
    assert_eq!(
        world_position(1, 2, 3, 5, 7, Direction::West, BASE),
        Some(Location { x: 101, y: 67, z: 203 })
    );
    assert_eq!(
        world_position(1, 2, 3, 5, 7, Direction::East, BASE),
        Some(Location { x: 106, y: 67, z: 202 })
    );
    assert_eq!(
        world_position(1, 2, 3, 5, 7, Direction::South, BASE),
        Some(Location { x: 105, y: 67, z: 204 })
    );
}

#[test]
fn transform_past_extent_is_signed_and_bounded() {
    // ey - lx = -3 is fine above a base of 100
    assert_eq!(
        world_position(10, 0, 0, 5, 7, Direction::East, BASE),
        Some(Location { x: 97, y: 64, z: 200 })
    );
    let origin = Location { x: 0, y: 0, z: 0 };
    assert_eq!(world_position(10, 0, 0, 5, 7, Direction::East, origin), None);
    let top = Location { x: u32::MAX, y: 0, z: 0 };
    assert_eq!(world_position(0, 1, 0, 5, 7, Direction::North, top), None);
    assert_eq!(
        world_position(0, 0, 0, 5, 7, Direction::North, top),
        Some(Location { x: u32::MAX, y: 0, z: 0 })
    );
}

#[test]
fn direction_tokens_default_to_north() {
    let dir = |t: &str| parse_trigger(t).map(|q| q.direction);
    assert_eq!(dir("build a 1,2,3 w"), Some(Direction::West));
    assert_eq!(dir("build a 1,2,3 e"), Some(Direction::East));
    assert_eq!(dir("build a 1,2,3 s"), Some(Direction::South));
    assert_eq!(dir("build a 1,2,3 n"), Some(Direction::North));
    assert_eq!(dir("build a 1,2,3"), Some(Direction::North));
    assert_eq!(dir("build a 1,2,3 x"), Some(Direction::North));
    assert_eq!(dir("build a 1,2,3 east"), Some(Direction::North));
    assert_eq!(dir("build a 1,2,3    w"), Some(Direction::West));
    assert_eq!(dir("build a 1,2,3e"), Some(Direction::East));
    assert_eq!(dir("build a 1,2,3 wX"), Some(Direction::West));
}

#[test]
fn trigger_with_direction() {
    let q = parse_trigger("build castle 10,20,30 e").unwrap();
    assert_eq!(q.name, "castle");
    assert_eq!(q.base, Location { x: 10, y: 20, z: 30 });
    assert_eq!(q.direction, Direction::East);
}

#[test]
fn trigger_without_direction_faces_north() {
    let q = parse_trigger("build castle 10,20,30").unwrap();
    assert_eq!(q.name, "castle");
    assert_eq!(q.base, Location { x: 10, y: 20, z: 30 });
    assert_eq!(q.direction, Direction::North);
}

#[test]
fn trigger_needs_space_after_build() {
    assert!(parse_trigger("buildcastle 1,2,3").is_none());
}

#[test]
fn trigger_rejects_other_texts() {
    assert!(parse_trigger("").is_none());
    assert!(parse_trigger("build").is_none());
    assert!(parse_trigger("build castle").is_none());
    assert!(parse_trigger("build  1,2,3").is_none());
    assert!(parse_trigger("build castle 1,2").is_none());
    assert!(parse_trigger("build castle 1,,3").is_none());
    assert!(parse_trigger("Build castle 1,2,3").is_none());
    assert!(parse_trigger(" build castle 1,2,3").is_none());
    assert!(parse_trigger("build castle 4294967296,2,3").is_none());
    let q = parse_trigger("build castle 4294967295,0,007").unwrap();
    assert_eq!(q.base, Location { x: u32::MAX, y: 0, z: 7 });
    let q = parse_trigger("build 城 1,2,3").unwrap();
    assert_eq!(q.name, "城");
}

#[test]
fn color_channels_follow_byte_order() {
    assert_eq!(rgb_of(0x7f112233), (0x11, 0x22, 0x33));
    assert_eq!(color_key_of(0xff0a00ff), "10,0,255");
    assert_eq!(color_key(0, 0, 0), "0,0,0");
    assert_eq!(color_key(255, 100, 7), "255,100,7");
}

#[test]
fn color_key_round_trips() {
    for v in 0..=255u8 {
        for (r, g, b) in [(v, 0, 0), (0, v, 0), (0, 0, v), (v, 255 - v, v / 3)] {
            let key = color_key(r, g, b);
            assert_eq!(parse_color_key(&key), Some((r, g, b)));
        }
    }
    for r in (0..=255u8).step_by(17) {
        for g in (0..=255u8).step_by(15) {
            for b in (0..=255u8).step_by(5) {
                assert_eq!(parse_color_key(&color_key(r, g, b)), Some((r, g, b)));
            }
        }
    }
}

#[test]
fn color_key_parse_rejects_non_keys() {
    assert_eq!(parse_color_key("256,0,0"), None);
    assert_eq!(parse_color_key("1,2"), None);
    assert_eq!(parse_color_key("1,2,3,"), None);
    assert_eq!(parse_color_key(" 1,2,3"), None);
    assert_eq!(parse_color_key(""), None);
    assert_eq!(parse_color_key("01,2,3"), Some((1, 2, 3)));
}

#[test]
fn text_helpers() {
    assert_eq!(decimal_text(0), "0");
    assert_eq!(decimal_text(4294967295), "4294967295");
    assert_eq!(read_triplet("x12,3,45 y", 1), Some((12, 3, 45, 8)));
    assert_eq!(read_triplet("x12,3,45 y", 0), None);
    assert!(same_text("外部", "外部"));
    assert!(!same_text("外部", "外"));
}

#[test]
fn palette_last_entry_wins() {
    let p = PaletteMap::from_entries(vec![
        entry("1,2,3", "stone"),
        entry("4,5,6", "dirt"),
        entry("1,2,3", "glass"),
    ]);
    assert_eq!(p.lookup(&"1,2,3".to_string()), Some("glass".to_string()));
    assert_eq!(p.lookup(&"4,5,6".to_string()), Some("dirt".to_string()));
    assert_eq!(p.lookup(&"7,8,9".to_string()), None);
    assert_eq!(PaletteMap::from_entries(vec![]).lookup(&"1,2,3".to_string()), None);
}

#[test]
fn first_model_only_and_empty_scene() {
    let empty = VoxScene { models: vec![], palette: vec![0; 256] };
    assert!(matches!(first_model(empty), Err(BuildError::Decode)));
    let mut scene = two_voxel_scene();
    scene.models.push(VoxelModel { voxels: vec![], size: MinecraftVoxSize { x: 9, y: 9, z: 9 } });
    let d = first_model(scene).unwrap();
    assert_eq!(d.model.voxels.len(), 2);
    assert_eq!(d.model.size, MinecraftVoxSize { x: 2, y: 2, z: 2 });
    assert_eq!(d.colors.len(), 2);
}

#[test]
fn load_vox_resolves_colors_and_blocks() {
    let vox = load_vox(two_voxel_scene(), &two_entry_palette()).unwrap();
    assert_eq!(vox.size, MinecraftVoxSize { x: 2, y: 2, z: 2 });
    assert_eq!(vox.blocks.len(), 2);
    assert_eq!(vox.blocks[0].color, "128,128,128");
    assert_eq!(vox.blocks[0].block_type, "stone");
    assert_eq!(vox.blocks[1].color, "139,69,19");
    assert_eq!(vox.blocks[1].block_type, "dirt");
    assert_eq!((vox.blocks[1].x, vox.blocks[1].y, vox.blocks[1].z, vox.blocks[1].i), (1, 1, 1, 1));
}

#[test]
fn palette_miss_aborts_build() {
    let palette = PaletteMap::from_entries(vec![entry("128,128,128", "stone")]);
    assert!(matches!(load_vox(two_voxel_scene(), &palette), Err(BuildError::PaletteMiss)));
    let request = parse_trigger("build m 100,64,200").unwrap();
    assert!(matches!(plan_build(two_voxel_scene(), &palette, &request), Err(BuildError::PaletteMiss)));
}

#[test]
fn color_index_past_table_is_decode_error() {
    let mut scene = two_voxel_scene();
    scene.palette.truncate(1);
    assert!(matches!(load_vox(scene, &two_entry_palette()), Err(BuildError::Decode)));
}

#[test]
fn placement_out_of_range_is_reported() {
    let vox = MinecraftVox {
        blocks: vec![MinecraftBlockInfo {
            x: 5,
            y: 0,
            z: 0,
            i: 0,
            color: "0,0,0".to_string(),
            block_type: "stone".to_string(),
        }],
        size: MinecraftVoxSize { x: 2, y: 2, z: 2 },
    };
    let origin = Location { x: 0, y: 0, z: 0 };
    assert!(matches!(plan_placements(&vox, origin, Direction::South), Err(BuildError::OutOfRange)));
    let ps = plan_placements(&vox, origin, Direction::North).unwrap();
    assert_eq!(ps[0].location, Location { x: 0, y: 0, z: 5 });
}

#[test]
fn sends_are_spaced_by_interval() {
    for n in [0usize, 1, 2, 5] {
        let mut run = BuildRun::new(n);
        let mut total: u64 = 0;
        let mut sent = 0;
        loop {
            match run.next_action() {
                BuildAction::Send { index, delay_ms } => {
                    assert_eq!(index, sent);
                    sent += 1;
                    total += delay_ms;
                }
                BuildAction::Finish => break,
                BuildAction::Abort => unreachable!(),
            }
        }
        assert_eq!(sent, n);
        assert_eq!(run.phase, BuildPhase::Done);
        assert!(total >= (n.saturating_sub(1) as u64) * SEND_INTERVAL_MS);
        assert_eq!(total, (n.saturating_sub(1) as u64) * 100);
    }
}

#[test]
fn failed_send_stops_the_rest() {
    let mut run = BuildRun::new(3);
    assert_eq!(run.next_action(), BuildAction::Send { index: 0, delay_ms: 0 });
    run.send_failed();
    assert_eq!(run.next_action(), BuildAction::Abort);
    assert_eq!(run.sent, 1);
    assert_eq!(run.phase, BuildPhase::Failed);
}

#[test]
fn own_messages_never_trigger() {
    let own = chat(EXTERNAL_SENDER, "build castle 10,20,30 e");
    assert!(chat_trigger_text(&own).is_none());
    assert!(trigger_of_message(&own).is_none());
    let other = chat("Steve", "build castle 10,20,30 e");
    let q = trigger_of_message(&other).unwrap();
    assert_eq!(q.name, "castle");
    assert_eq!(q.direction, Direction::East);
}

#[test]
fn only_player_messages_with_properties_count() {
    let mut m = chat("Steve", "build castle 1,2,3");
    m.body.event_name = Some("PlayerJoin".to_string());
    assert!(trigger_of_message(&m).is_none());
    let mut m = chat("Steve", "build castle 1,2,3");
    m.body.event_name = None;
    assert!(trigger_of_message(&m).is_none());
    let mut m = chat("Steve", "build castle 1,2,3");
    m.body.properties = None;
    assert!(trigger_of_message(&m).is_none());
    assert_eq!(chat_trigger_text(&chat("Steve", "hello")), Some("hello".to_string()));
    assert!(trigger_of_message(&chat("Steve", "hello")).is_none());
}

#[test]
fn requests_carry_their_envelopes() {
    let s = create_player_message_subscribe_command();
    assert_eq!(s.body.event_name, "PlayerMessage");
    assert_eq!(s.header.message_purpose, "subscribe");
    assert_eq!(s.header.message_type, "commandRequest");
    assert_eq!(s.header.version, 1);
    assert_eq!(s.header.request_id.len(), 36);
    let c = create_set_block_command(1, 22, 333, "stone".to_string(), "replace".to_string());
    assert_eq!(c.body.command_line, "setblock 1 22 333 stone replace");
    assert_eq!(c.body.origin.origin_type, "player");
    assert_eq!(c.body.version, 1);
    assert_eq!(c.header.message_purpose, "commandRequest");
    assert_eq!(c.header.message_type, "commandRequest");
    assert_eq!(c.header.request_id.len(), 36);
    let d = create_set_block_command(1, 22, 333, "stone".to_string(), "replace".to_string());
    assert_ne!(c.header.request_id, d.header.request_id);
}

#[test]
fn end_to_end_two_voxels_north() {
    let request = parse_trigger("build model 100,64,200").unwrap();
    let ps = plan_build(two_voxel_scene(), &two_entry_palette(), &request).unwrap();
    let lines: Vec<String> = ps.iter().map(|p| command_for(p).body.command_line).collect();
    assert_eq!(lines, vec!["setblock 100 64 200 stone replace", "setblock 101 65 201 dirt replace"]);
    let mut run = BuildRun::new(ps.len());
    assert_eq!(run.next_action(), BuildAction::Send { index: 0, delay_ms: 0 });
    assert_eq!(run.next_action(), BuildAction::Send { index: 1, delay_ms: 100 });
    assert_eq!(run.next_action(), BuildAction::Finish);
}

#[test]
fn session_lifecycle() {
    let (s, a) = session_step(SessionState::Waiting, &SessionEvent::Opened);
    assert_eq!(s, SessionState::Open);
    assert!(matches!(a, SessionAction::Subscribe));
    let (s, a) = session_step(s, &SessionEvent::Message(chat("Steve", "build c 1,2,3 w")));
    assert_eq!(s, SessionState::Open);
    match a {
        SessionAction::StartBuild(q) => assert_eq!(q.direction, Direction::West),
        _ => panic!("expected a build"),
    }
    let (s, a) = session_step(s, &SessionEvent::Message(chat(EXTERNAL_SENDER, "build c 1,2,3")));
    assert!(matches!(a, SessionAction::Ignore));
    let (s, a) = session_step(s, &SessionEvent::Closed);
    assert_eq!(s, SessionState::Closed);
    assert!(matches!(a, SessionAction::Shutdown));
    let (_, a) = session_step(s, &SessionEvent::Message(chat("Steve", "build c 1,2,3")));
    assert!(matches!(a, SessionAction::Ignore));
    let (s, a) = session_step(SessionState::Open, &SessionEvent::Failed);
    assert_eq!(s, SessionState::Closed);
    assert!(matches!(a, SessionAction::Shutdown));
}
