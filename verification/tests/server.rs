use mirai::session::{on_client_event, ClientAction, ClientEvent};
use mirai::session::{judge_text_message, TextVerdict};
use mirai::blobs::{BlobCache, BlobError};
use mirai::column::ChunkColumn;
use mirai::config::Limits;
use mirai::coords::{LocalPos, Vector2, Vector3};
use mirai::forms::{Button, FormDesc, Menu, SubmittableForm};
use mirai::heightmap::{Heightmap, HeightmapType};
use mirai::inventory::{Inventory, InventorySlot, WindowId};
use mirai::rule::{CommandBlocksEnabled, FunctionCommandLimit, GameRules, Pvp, Rule, RuleValue, TntExplodes};
use mirai::session::{
    allowed_radius, check_protocol, LoginOutcome, ProtocolCheck, SessionState, CACHE_STATUS_ID,
    CLIENT_TO_SERVER_HANDSHAKE_ID, LOGIN_ID, REQUEST_NETWORK_SETTINGS_ID, RESOURCE_PACK_CLIENT_RESPONSE_ID,
};
use mirai::subchunk::{to_offset, PaletteEntry, SubChunk, SubChunkVersion, SubLayer};

fn heightmap() -> Heightmap {
    Heightmap { data: None, map_type: HeightmapType::NoData }
}

#[test]
fn blob_cache_cache_and_lookup() {
    let mut cache = BlobCache::new();
    let pos = Vector3::new(1, 2, 3);
    assert_eq!(cache.get_hash(pos), Ok(None));
    assert!(cache.cache(pos, heightmap(), vec![1, 2, 3]).unwrap().is_none());
    let hash = cache.get_hash(pos).unwrap().unwrap();
    assert_eq!(hash, xxhash_rust::xxh64::xxh64(&[1, 2, 3], 0));
    let blob = cache.get_by_pos(pos).unwrap().unwrap();
    assert_eq!(*blob.payload, vec![1, 2, 3]);
    assert_eq!(blob.hash, hash);
    // Count is now 2: one unref keeps the blob, the second removes it.
    assert_eq!(cache.unref_by_hash(hash), Some(2));
    assert_eq!(cache.unref_by_hash(hash), Some(1));
    assert_eq!(cache.unref_by_hash(hash), None);
    assert_eq!(cache.get_hash(pos), Ok(None));
    assert_eq!(cache.get_by_hash(hash, false).unwrap_err(), BlobError::MissingChunk);
}

#[test]
fn blob_cache_replaces_previous() {
    let mut cache = BlobCache::new();
    let pos = Vector3::new(0, 0, 0);
    cache.cache(pos, heightmap(), vec![1]).unwrap();
    let prev = cache.cache(pos, heightmap(), vec![2]).unwrap().unwrap();
    assert_eq!(*prev.payload, vec![1]);
    assert_eq!(*cache.get_by_pos(pos).unwrap().unwrap().payload, vec![2]);
    assert_eq!(cache.cache(Vector3::new(-1, 0, 0), heightmap(), vec![3]).unwrap_err(), BlobError::InvalidPosition);
    assert_eq!(cache.unref_by_pos(Vector3::new(5, 5, 5)), Ok(None));
}

#[test]
fn blob_cache_same_payload_again() {
    let mut cache = BlobCache::new();
    let pos = Vector3::new(4, 1, 4);
    cache.cache(pos, heightmap(), vec![9, 9]).unwrap();
    let hash = cache.get_hash(pos).unwrap().unwrap();
    let prev = cache.cache(pos, heightmap(), vec![9, 9]).unwrap().unwrap();
    assert_eq!(*prev.payload, vec![9, 9]);
    assert_eq!(cache.get_hash(pos), Ok(Some(hash)));
    let blob = cache.get_by_hash(hash, false).unwrap().unwrap();
    assert_eq!(*blob.payload, vec![9, 9]);
    assert_eq!(cache.unref_by_hash(hash), Some(1));
    assert_eq!(cache.get_hash(pos), Ok(None));
}

fn solid_layer(top: u8) -> SubLayer {
    let mut indices = Box::new([0u16; 4096]);
    for x in 0..16u8 {
        for z in 0..16u8 {
            for y in 0..=top {
                indices[to_offset(LocalPos::new(x, y, z))] = 1;
            }
        }
    }
    let air = PaletteEntry { name: "minecraft:air".to_owned(), version: None, states: Vec::new() };
    let stone = PaletteEntry { name: "minecraft:stone".to_owned(), version: None, states: Vec::new() };
    SubLayer::from_parts(indices, vec![air, stone])
}

#[test]
fn column_heightmap_generation() {
    let mut column = ChunkColumn::empty(Vector2::new(0, 0));
    column.subchunks.push((0, Some(SubChunk::from_parts(SubChunkVersion::Limitless, 0, vec![solid_layer(15)]))));
    column.subchunks.push((1, Some(SubChunk::from_parts(SubChunkVersion::Limitless, 1, vec![solid_layer(4)]))));
    column.subchunks.push((2, None));
    column.generate_heightmap();
    assert_eq!(column.highest_nonair(), 1);
    assert!(column.heightmap().iter().all(|h| *h == 4 + 16));
    assert_eq!(column.y_to_index(20), 1);
    assert_eq!(column.index_to_y(1), 16);
    let hm = Heightmap::new(1, &column);
    assert_eq!(hm.map_type, HeightmapType::WithData);
    assert!(hm.data.unwrap().iter().all(|h| *h == 4));
    assert_eq!(Heightmap::new(0, &column).map_type, HeightmapType::TooLow);
    let high = Heightmap::new(2, &column);
    assert_eq!(high.map_type, HeightmapType::TooHigh);
    assert!(high.data.is_none());
}

#[test]
fn column_top_block_at_height_zero() {
    let mut column = ChunkColumn::empty(Vector2::new(0, 0));
    column.range = -64..256;
    let air = PaletteEntry { name: "minecraft:air".to_owned(), version: None, states: Vec::new() };
    let empty = SubLayer::from_parts(Box::new([0u16; 4096]), vec![air]);
    column.subchunks.push((3, Some(SubChunk::from_parts(SubChunkVersion::Limitless, 3, vec![solid_layer(15)]))));
    column.subchunks.push((4, Some(SubChunk::from_parts(SubChunkVersion::Limitless, 4, vec![solid_layer(0)]))));
    column.subchunks.push((5, Some(SubChunk::from_parts(SubChunkVersion::Limitless, 5, vec![empty]))));
    column.generate_heightmap();
    assert!(column.heightmap().iter().all(|h| *h == 0));
    assert_eq!(column.highest_nonair(), 5);
    assert_eq!(column.index_to_y(19), 240);
    assert_eq!(column.y_to_index(240), 19);
    assert_eq!(column.index_to_y(-4), -128);
}

#[test]
fn session_login_sequence() {
    let mut s = SessionState::new();
    assert!(!s.is_unexpected(REQUEST_NETWORK_SETTINGS_ID));
    assert!(s.is_unexpected(LOGIN_ID));
    assert_eq!(s.on_network_settings(630, 630), ProtocolCheck::Compatible);
    assert!(s.should_decompress);
    assert!(!s.is_unexpected(LOGIN_ID));
    assert_eq!(s.on_login(true, true), LoginOutcome::Accepted);
    assert!(!s.is_unexpected(CLIENT_TO_SERVER_HANDSHAKE_ID));
    s.on_client_to_server_handshake();
    assert!(!s.is_unexpected(CACHE_STATUS_ID));
    s.on_cache_status(true);
    assert!(s.supports_cache);
    assert!(!s.is_unexpected(RESOURCE_PACK_CLIENT_RESPONSE_ID));
    s.on_resource_pack_response();
    assert!(s.initialized());
    assert!(!s.is_unexpected(0x42));
    assert_eq!(s.on_login(true, true), LoginOutcome::UnexpectedLogin);
    assert!(s.on_open_inventory());
    assert!(!s.on_open_inventory());
    assert!(!s.on_container_close(3));
    assert!(s.on_container_close(0));
    assert!(!s.inventory_open);
}

#[test]
fn session_protocol_and_radius() {
    assert_eq!(check_protocol(700, 630), ProtocolCheck::ServerOutdated);
    assert_eq!(check_protocol(600, 630), ProtocolCheck::ClientOutdated);
    let mut s = SessionState::new();
    assert_eq!(s.on_network_settings(600, 630), ProtocolCheck::ClientOutdated);
    assert!(!s.should_decompress);
    assert_eq!(s.expected, LOGIN_ID);
    assert_eq!(s.on_login(false, true), LoginOutcome::LoginFailed);
    assert_eq!(s.on_login(true, false), LoginOutcome::EncryptionFailed);
    assert_eq!(allowed_radius(12, 32), 12);
    assert_eq!(allowed_radius(12, 8), 8);
}

#[test]
fn gamerules_store() {
    let mut rules = GameRules::new();
    assert!(rules.gamerule::<TntExplodes>());
    assert!(rules.set_gamerule::<TntExplodes>(false));
    assert!(!rules.gamerule::<TntExplodes>());
    assert!(!rules.set_gamerule::<TntExplodes>(true));
    assert!(rules.gamerule::<CommandBlocksEnabled>());
    assert_eq!(rules.gamerule::<FunctionCommandLimit>(), 10_000);
    assert_eq!(rules.set_gamerule::<FunctionCommandLimit>(5), 10_000);
    assert_eq!(rules.gamerule::<FunctionCommandLimit>(), 5);
    assert_eq!(FunctionCommandLimit::default(), 10_000);
    assert_eq!(Pvp::NAME, "pvp");
    assert!(Pvp::IS_VANILLA);
    assert_eq!(RuleValue::from_i32(3).as_i32(), 3);
    assert!(RuleValue::from_bool(true).as_bool());
}

#[test]
fn menu_builder() {
    let menu = Menu::new();
    assert_eq!(menu.get_title(), "Menu");
    assert_eq!(menu.get_body(), "");
    let menu = menu.title("Pick").body("one").button(Button { text: "A".to_owned(), image: None });
    assert_eq!(menu.get_title(), "Pick");
    assert_eq!(menu.get_body(), "one");
    assert_eq!(menu.buttons().len(), 1);
    assert_eq!(menu.into_desc(), FormDesc::Menu);
}

#[test]
fn inventory_slots() {
    let inv: Inventory<4> = Inventory::empty(WindowId(0));
    assert_eq!(inv.id(), WindowId(0));
    assert_eq!(*inv.get(3), InventorySlot::empty());
    assert!(inv.try_get(3).is_some());
    assert!(inv.try_get(4).is_none());
    assert_eq!(InventorySlot::default(), InventorySlot::empty());
}

#[test]
fn limits() {
    let mut l = Limits::new();
    assert_eq!(l.max_connections(), 10);
    l.set_max_connections(0);
    assert_eq!(l.max_connections(), 0);
    l.set_max_render_distance(8);
    assert_eq!(l.max_render_distance(), 8);
}

#[test]
fn text_messages_are_judged() {
    assert_eq!(judge_text_message("steve", Some("steve")), TextVerdict::Broadcast);
    assert_eq!(judge_text_message("steve", Some("alex")), TextVerdict::KickForgedSource);
    assert_eq!(judge_text_message("steve", Some("")), TextVerdict::KickForgedSource);
    assert_eq!(judge_text_message("steve", None), TextVerdict::KickIllegalType);
}

#[test]
fn client_receiver_steps() {
    assert_eq!(on_client_event(ClientEvent::Received), (true, ClientAction::HandleFrame));
    assert_eq!(on_client_event(ClientEvent::BudgetExhausted), (true, ClientAction::KickForBudget));
    assert_eq!(on_client_event(ClientEvent::Broadcast), (true, ClientAction::HandleBroadcast));
    assert_eq!(on_client_event(ClientEvent::BroadcastFailed), (true, ClientAction::Ignore));
    assert_eq!(on_client_event(ClientEvent::Disconnected), (false, ClientAction::Ignore));
    assert_eq!(on_client_event(ClientEvent::ChannelClosed), (false, ClientAction::Ignore));
    assert_eq!(on_client_event(ClientEvent::Cancelled), (false, ClientAction::Ignore));
}

#[test]
fn connection_limit() {
    let mut limits = Limits::new();
    assert!(limits.accepts_connection(9));
    assert!(!limits.accepts_connection(10));
    limits.set_max_connections(0);
    assert!(!limits.accepts_connection(0));
}
