use mirai::items::{CreativeItems, CreativeStack, ItemIdsError, ItemNetworkIds, RawCreativeItem};

fn entry(name: &str, id: i32) -> (String, i32) {
    (name.to_string(), id)
}

#[test]
fn item_ids_map_both_ways() {
    let ids = ItemNetworkIds::from_entries(vec![
        entry("minecraft:stone", 1),
        entry("minecraft:shield", 355),
        entry("minecraft:dirt", 3),
    ])
    .unwrap();
    assert_eq!(ids.get_id("minecraft:stone"), Some(1));
    assert_eq!(ids.get_id("minecraft:shield"), Some(355));
    assert_eq!(ids.get_id("minecraft:air"), None);
    assert_eq!(ids.get_name(3), Some("minecraft:dirt"));
    assert_eq!(ids.get_name(2), None);
}

#[test]
fn later_entries_replace_earlier_ones() {
    let ids = ItemNetworkIds::from_entries(vec![
        entry("minecraft:shield", 355),
        entry("minecraft:stone", 1),
        entry("minecraft:stone", 7),
        entry("minecraft:granite", 7),
    ])
    .unwrap();
    assert_eq!(ids.get_id("minecraft:stone"), Some(7));
    assert_eq!(ids.get_name(1), Some("minecraft:stone"));
    assert_eq!(ids.get_name(7), Some("minecraft:granite"));
}

#[test]
fn item_ids_need_a_shield() {
    let no_shield = ItemNetworkIds::from_entries(vec![entry("minecraft:stone", 1)]);
    assert_eq!(no_shield.unwrap_err(), ItemIdsError::MissingShield);
    let max_shield = ItemNetworkIds::from_entries(vec![entry("minecraft:shield", i32::MAX)]);
    assert_eq!(max_shield.unwrap_err(), ItemIdsError::MissingShield);
    assert!(ItemNetworkIds::from_entries(Vec::new()).is_err());
}

fn raw(name: &str, meta: i16, is_block: bool, nbt: u32) -> RawCreativeItem<u32> {
    RawCreativeItem { name: name.to_string(), meta, is_block, nbt }
}

fn fields(s: &CreativeStack<u32>) -> (i32, u32, i32, u16, Option<u32>) {
    assert!(s.can_destroy.is_empty() && s.can_place_on.is_empty());
    (s.network_id, s.meta, s.block_runtime_id, s.count, s.nbt_data)
}

#[test]
fn creative_items_are_selected() {
    let ids = ItemNetworkIds::from_entries(vec![entry("minecraft:shield", 355), entry("minecraft:apple", 257)]).unwrap();
    let items = vec![
        raw("minecraft:apple", 0, false, 11),
        raw("minecraft:unknown", 0, false, 12),
        raw("minecraft:stone", -1, true, 13),
        raw("minecraft:dirt", 2, true, 14),
    ];
    let blocks = vec![None, None, Some(13256), None];
    let creative = CreativeItems::new(items, &ids, &blocks);
    let got: Vec<_> = creative.items().iter().map(fields).collect();
    assert_eq!(
        got,
        vec![(0, 0, 0, 0, None), (257, 0, 0, 1, Some(11)), (13256, u32::MAX, 13256, 1, Some(13))]
    );
}

#[test]
fn creative_items_stop_after_twenty_entries() {
    let ids = ItemNetworkIds::from_entries(vec![entry("minecraft:shield", 355), entry("minecraft:apple", 257)]).unwrap();
    let items: Vec<RawCreativeItem<u32>> = (0..25).map(|i| raw("minecraft:apple", 1, false, i)).collect();
    let blocks = vec![None; 25];
    let creative = CreativeItems::new(items, &ids, &blocks);
    assert_eq!(creative.items().len(), 21);
    assert_eq!(creative.items()[20].nbt_data, Some(19));
}

#[test]
fn default_item_ids_are_empty() {
    let ids = ItemNetworkIds::default();
    assert_eq!(ids.get_id("minecraft:shield"), None);
    assert_eq!(ids.get_name(0), None);
}
