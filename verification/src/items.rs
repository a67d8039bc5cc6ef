//! The mapping between item names and their network IDs.
use std::collections::HashMap;
use vstd::prelude::*;

verus! {

broadcast use vstd::std_specs::hash::group_hash_axioms;

/// The name of the shield item.
pub open spec fn shield_name() -> Seq<char> {
    "minecraft:shield"@
}

/// The network ID of each name, where a later entry for a name replaces an
/// earlier one.
pub open spec fn ids_by_name(entries: Seq<(String, i32)>) -> Map<Seq<char>, i32>
    decreases entries.len(),
{
    if entries.len() == 0 {
        Map::empty()
    } else {
        ids_by_name(entries.drop_last()).insert(entries.last().0@, entries.last().1)
    }
}

/// The name of each network ID, where a later entry for an ID replaces an
/// earlier one.
pub open spec fn names_by_id(entries: Seq<(String, i32)>) -> Map<i32, Seq<char>>
    decreases entries.len(),
{
    if entries.len() == 0 {
        Map::empty()
    } else {
        names_by_id(entries.drop_last()).insert(entries.last().1, entries.last().0@)
    }
}

/// The network ID of the last shield entry, or `i32::MAX` when there is none.
pub open spec fn shield_of(entries: Seq<(String, i32)>) -> i32
    decreases entries.len(),
{
    if entries.len() == 0 {
        i32::MAX
    } else if entries.last().0@ == shield_name() {
        entries.last().1
    } else {
        shield_of(entries.drop_last())
    }
}

/// The error of building the item ID mapping.
#[derive(Debug, Clone, Copy, PartialEq, Eq, Structural)]
pub enum ItemIdsError {
    /// The entries hold no usable shield ID.
    MissingShield,
}

/// The network ID of each name held in `entries`, where no name occurs
/// twice.
pub open spec fn names_of(entries: Seq<(String, i32)>) -> Map<Seq<char>, i32> {
    Map::new(
        |n: Seq<char>| exists|i: int| 0 <= i < entries.len() && entries[i].0@ == n,
        |n: Seq<char>|
            {
                let i = choose|i: int| 0 <= i < entries.len() && entries[i].0@ == n;
                entries[i].1
            },
    )
}

/// Whether no name occurs twice in `entries`.
pub open spec fn distinct_names(entries: Seq<(String, i32)>) -> bool {
    forall|i: int, j: int| 0 <= i < j < entries.len() ==> entries[i].0@ != entries[j].0@
}

/// Stores the network ID of a name, replacing the ID stored for it.
fn insert_name(v: &mut Vec<(String, i32)>, name: String, id: i32)
    requires
        distinct_names(old(v)@),
    ensures
        distinct_names(final(v)@),
        names_of(final(v)@) == names_of(old(v)@).insert(name@, id),
{
    let mut j: usize = 0;
    while j < v.len()
        invariant
            j <= v@.len(),
            distinct_names(v@),
            v@ == old(v)@,
            forall|k: int| 0 <= k < j ==> v@[k].0@ != name@,
        decreases v@.len() - j,
    {
        if v[j].0 == name {
            let ghost before = names_of(v@);
            let ghost old_entries = v@;
            v.set(j, (name, id));
            proof {
                assert forall|n: Seq<char>| #[trigger] names_of(v@).contains_key(n) <==> before.insert(
                    name@,
                    id,
                ).contains_key(n) by {
                    if before.contains_key(n) {
                        let k = choose|k: int| 0 <= k < old_entries.len() && old_entries[k].0@ == n;
                        assert(v@[k].0@ == n);
                    }
                    if n == name@ {
                        assert(v@[j as int].0@ == n);
                    }
                }
                assert forall|n: Seq<char>| #[trigger] names_of(v@).contains_key(n) implies names_of(v@)[n]
                    == before.insert(name@, id)[n] by {
                    let k = choose|k: int| 0 <= k < v@.len() && v@[k].0@ == n;
                    if n != name@ {
                        assert(old_entries[k].0@ == n);
                        let k2 = choose|k2: int| 0 <= k2 < old_entries.len() && old_entries[k2].0@ == n;
                        assert(k == k2);
                    } else {
                        assert(k == j);
                    }
                }
                assert(names_of(v@) =~= before.insert(name@, id));
            }
            return;
        }
        j += 1;
    }
    let ghost before = names_of(v@);
    let ghost old_entries = v@;
    v.push((name, id));
    proof {
        let len = old_entries.len() as int;
        assert forall|n: Seq<char>| #[trigger] names_of(v@).contains_key(n) <==> before.insert(
            name@,
            id,
        ).contains_key(n) by {
            if before.contains_key(n) {
                let k = choose|k: int| 0 <= k < old_entries.len() && old_entries[k].0@ == n;
                assert(v@[k].0@ == n);
            }
            if n == name@ {
                assert(v@[len].0@ == n);
            }
        }
        assert forall|n: Seq<char>| #[trigger] names_of(v@).contains_key(n) implies names_of(v@)[n]
            == before.insert(name@, id)[n] by {
            let k = choose|k: int| 0 <= k < v@.len() && v@[k].0@ == n;
            if n != name@ {
                assert(old_entries[k].0@ == n);
                let k2 = choose|k2: int| 0 <= k2 < old_entries.len() && old_entries[k2].0@ == n;
                assert(k == k2);
            } else {
                assert(k == len);
            }
        }
        assert(names_of(v@) =~= before.insert(name@, id));
    }
}

/// Mapping between item names and IDs.
#[derive(Debug)]
pub struct ItemNetworkIds {
    /// Converts item names to their network IDs; no name occurs twice.
    name_to_id: Vec<(String, i32)>,
    /// Converts network IDs to item names.
    id_to_name: HashMap<i32, String>,
    /// The network ID of a shield.
    /// Shields get special treatment in ItemStack, so this needs to be known.
    shield_id: i32,
}

impl ItemNetworkIds {
    /// No name is stored twice.
    #[verifier::type_invariant]
    spec fn inv(&self) -> bool {
        distinct_names(self.name_to_id@)
    }

    /// The network ID of each name.
    pub closed spec fn names_view(&self) -> Map<Seq<char>, i32> {
        names_of(self.name_to_id@)
    }

    /// The name of each network ID.
    pub closed spec fn ids_view(&self) -> Map<i32, Seq<char>> {
        Map::new(|id: i32| self.id_to_name@.contains_key(id), |id: i32| self.id_to_name@[id]@)
    }

    /// The network ID of the shield.
    pub closed spec fn spec_shield_id(&self) -> i32 {
        self.shield_id
    }

    /// Builds the mapping from (name, network ID) entries, in the order in
    /// which they are read.
    ///
    /// This fails when no usable shield ID is found: there is no shield entry,
    /// or its ID is `i32::MAX`.
    pub fn from_entries(entries: Vec<(String, i32)>) -> (r: Result<ItemNetworkIds, ItemIdsError>)
        ensures
            r is Err <==> shield_of(entries@) == i32::MAX,
            r is Err ==> r == Err::<ItemNetworkIds, ItemIdsError>(ItemIdsError::MissingShield),
            r is Ok ==> {
                let ids = r->Ok_0;
                &&& ids.names_view() == ids_by_name(entries@)
                &&& ids.ids_view() == names_by_id(entries@)
                &&& ids.spec_shield_id() == shield_of(entries@)
            },
    {
        let shield = String::from_str("minecraft:shield");
        let mut shield_id: i32 = i32::MAX;
        let mut names: Vec<(String, i32)> = Vec::new();
        let mut ids: HashMap<i32, String> = HashMap::new();
        proof {
            assert(names_of(names@) =~= ids_by_name(entries@.take(0)));
        }
        let mut i: usize = 0;
        while i < entries.len()
            invariant
                i <= entries@.len(),
                shield@ == shield_name(),
                distinct_names(names@),
                names_of(names@) == ids_by_name(entries@.take(i as int)),
                Map::new(|id: i32| ids@.contains_key(id), |id: i32| ids@[id]@) == names_by_id(
                    entries@.take(i as int),
                ),
                shield_id == shield_of(entries@.take(i as int)),
            decreases entries@.len() - i,
        {
            let ghost prefix = entries@.take(i as int + 1);
            assert(prefix.drop_last() =~= entries@.take(i as int));
            assert(prefix.last() == entries@[i as int]);
            let name = &entries[i].0;
            let id = entries[i].1;
            if *name == shield {
                shield_id = id;
            }
            insert_name(&mut names, name.clone(), id);
            ids.insert(id, name.clone());
            assert(Map::new(|id: i32| ids@.contains_key(id), |id: i32| ids@[id]@) =~= names_by_id(prefix));
            i += 1;
        }
        assert(entries@.take(i as int) =~= entries@);
        if shield_id == i32::MAX {
            return Err(ItemIdsError::MissingShield);
        }
        let out = ItemNetworkIds { name_to_id: names, id_to_name: ids, shield_id };
        assert(out.ids_view() =~= names_by_id(entries@));
        Ok(out)
    }

    /// Convert an item name to a network ID.
    pub fn get_id(&self, name: &str) -> (id: Option<i32>)
        ensures
            id == (if self.names_view().contains_key(name@) {
                Some(self.names_view()[name@])
            } else {
                None::<i32>
            }),
    {
        proof {
            use_type_invariant(self);
        }
        let key = String::from_str(name);
        let mut j: usize = 0;
        while j < self.name_to_id.len()
            invariant
                j <= self.name_to_id@.len(),
                key@ == name@,
                distinct_names(self.name_to_id@),
                forall|k: int| 0 <= k < j ==> self.name_to_id@[k].0@ != name@,
            decreases self.name_to_id@.len() - j,
        {
            if self.name_to_id[j].0 == key {
                return Some(self.name_to_id[j].1);
            }
            j += 1;
        }
        None
    }

    /// Convert an item network ID to a name.
    pub fn get_name(&self, id: i32) -> (name: Option<&str>)
        ensures
            match name {
                Some(n) => self.ids_view().contains_key(id) && n@ == self.ids_view()[id],
                None => !self.ids_view().contains_key(id),
            },
    {
        match self.id_to_name.get(&id) {
            Some(n) => Some(n.as_str()),
            None => None,
        }
    }
}

impl Default for ItemNetworkIds {
    /// A mapping without items, with shield ID 0.
    fn default() -> (ids: ItemNetworkIds)
        ensures
            ids.names_view().is_empty(),
            ids.ids_view().is_empty(),
            ids.spec_shield_id() == 0,
    {
        let ids = ItemNetworkIds { name_to_id: Vec::new(), id_to_name: HashMap::new(), shield_id: 0 };
        assert(ids.names_view() =~= Map::<Seq<char>, i32>::empty());
        assert(ids.ids_view() =~= Map::<i32, Seq<char>>::empty());
        ids
    }
}

/// A creative inventory entry as read from the creative item data, with
/// its NBT data of type `N`.
#[derive(Debug)]
pub struct RawCreativeItem<N> {
    /// Name of the item.
    pub name: String,
    /// Metadata value of the item.
    pub meta: i16,
    /// Whether the entry carries block properties (the item is a block).
    pub is_block: bool,
    /// NBT data of the item.
    pub nbt: N,
}

/// An item stack of the creative inventory.
#[derive(Debug)]
pub struct CreativeStack<N> {
    /// Network ID of the item.
    pub network_id: i32,
    /// Metadata value of the item.
    pub meta: u32,
    /// Runtime ID of the block, or 0 for an item that is not a block.
    pub block_runtime_id: i32,
    /// Number of items in the stack.
    pub count: u16,
    /// NBT data of the item (`None` for the empty stack, which has none).
    pub nbt_data: Option<N>,
    /// Blocks that the item can destroy.
    pub can_destroy: Vec<String>,
    /// Blocks that the item can be placed on.
    pub can_place_on: Vec<String>,
}

/// The fields of a creative stack that the selection decides: network ID,
/// metadata, block runtime ID, count and NBT data.
pub type StackFields<N> = (i32, u32, i32, u16, Option<N>);

/// The decided fields of a stack.
pub open spec fn fields_of<N>(s: CreativeStack<N>) -> StackFields<N> {
    (s.network_id, s.meta, s.block_runtime_id, s.count, s.nbt_data)
}

/// How many entries of the creative item data are looked at.
pub const CREATIVE_ITEM_LIMIT: usize = 20;

/// The stacks made from the first `k` entries, after the empty stack: an
/// entry that is not a block gives a stack of one of the item with its
/// network ID, a block gives a stack of one whose network ID and block ID
/// are the block's runtime ID, each with the entry's NBT data, and an entry
/// whose ID is unknown is skipped.
pub open spec fn creative_stacks<N>(
    items: Seq<RawCreativeItem<N>>,
    ids: Map<Seq<char>, i32>,
    blocks: Seq<Option<u32>>,
    k: int,
) -> Seq<StackFields<N>>
    decreases k,
{
    if k <= 0 {
        seq![(0i32, 0u32, 0i32, 0u16, None::<N>)]
    } else {
        let prev = creative_stacks(items, ids, blocks, k - 1);
        let item = items[k - 1];
        if !item.is_block {
            if ids.contains_key(item.name@) {
                prev.push((ids[item.name@], item.meta as u32, 0i32, 1u16, Some(item.nbt)))
            } else {
                prev
            }
        } else {
            match blocks[k - 1] {
                Some(r) => prev.push((r as i32, item.meta as u32, r as i32, 1u16, Some(item.nbt))),
                None => prev,
            }
        }
    }
}

/// Whether a creative entry gives a stack: a non-block item with a known
/// network ID, or a block with a known runtime ID.
pub open spec fn gives_stack<N>(item: RawCreativeItem<N>, ids: Map<Seq<char>, i32>, block: Option<u32>) -> bool {
    if item.is_block {
        block is Some
    } else {
        ids.contains_key(item.name@)
    }
}

/// Law: the creative inventory built from the first `k` entries starts with
/// the empty stack, and every later stack is made from one of those entries,
/// with the entry's metadata value and NBT data and a count of one (a
/// non-block item under its network ID and block ID 0, a block under its
/// runtime ID for both).
pub proof fn lemma_creative_stack_sources<N>(
    items: Seq<RawCreativeItem<N>>,
    ids: Map<Seq<char>, i32>,
    blocks: Seq<Option<u32>>,
    k: int,
)
    requires
        0 <= k <= items.len(),
        blocks.len() == items.len(),
    ensures
        ({
            let res = creative_stacks(items, ids, blocks, k);
            &&& res.len() >= 1
            &&& res[0] == (0i32, 0u32, 0i32, 0u16, None::<N>)
            &&& forall|i: int| 1 <= i < res.len() ==> #[trigger] made_from_one_of(res[i], items, ids, blocks, k)
        }),
    decreases k,
{
    if k > 0 {
        lemma_creative_stack_sources(items, ids, blocks, k - 1);
        let prev = creative_stacks(items, ids, blocks, k - 1);
        let cur = creative_stacks(items, ids, blocks, k);
        assert forall|i: int| 1 <= i < cur.len() implies #[trigger] made_from_one_of(cur[i], items, ids, blocks, k) by {
            if i < prev.len() {
                assert(cur[i] == prev[i]);
                assert(made_from_one_of(prev[i], items, ids, blocks, k - 1));
                let j = choose|j: int| 0 <= j < k - 1 && #[trigger] made_from(prev[i], items[j], ids, blocks[j]);
                assert(made_from(cur[i], items[j], ids, blocks[j]));
            } else {
                assert(made_from(cur[i], items[k - 1], ids, blocks[k - 1]));
            }
        }
        assert(cur[0] == prev[0]);
    } else {
        let res = creative_stacks(items, ids, blocks, k);
        assert(res == seq![(0i32, 0u32, 0i32, 0u16, None::<N>)]);
        assert(res.len() == 1);
    }
}

/// Law: every one of the first `k` entries that gives a stack has its stack
/// (with its metadata value and NBT data) in the creative inventory.
pub proof fn lemma_creative_entries_kept<N>(
    items: Seq<RawCreativeItem<N>>,
    ids: Map<Seq<char>, i32>,
    blocks: Seq<Option<u32>>,
    k: int,
)
    requires
        0 <= k <= items.len(),
        blocks.len() == items.len(),
    ensures
        ({
            let res = creative_stacks(items, ids, blocks, k);
            forall|j: int|
                0 <= j < k && #[trigger] gives_stack(items[j], ids, blocks[j]) ==> exists|i: int|
                    1 <= i < res.len() && made_from(res[i], items[j], ids, blocks[j])
        }),
    decreases k,
{
    if k > 0 {
        lemma_creative_entries_kept(items, ids, blocks, k - 1);
        let prev = creative_stacks(items, ids, blocks, k - 1);
        let cur = creative_stacks(items, ids, blocks, k);
        assert(prev.len() >= 1) by {
            lemma_creative_stack_sources(items, ids, blocks, k - 1);
        }
        assert forall|j: int| 0 <= j < k && #[trigger] gives_stack(items[j], ids, blocks[j]) implies exists|i: int|
            1 <= i < cur.len() && made_from(cur[i], items[j], ids, blocks[j]) by {
            if j < k - 1 {
                let i = choose|i: int| 1 <= i < prev.len() && made_from(prev[i], items[j], ids, blocks[j]);
                assert(cur[i] == prev[i]);
            } else {
                let i = cur.len() - 1;
                assert(made_from(cur[i], items[j], ids, blocks[j]));
            }
        }
    }
}

/// Whether a stack is made from one of the first `k` creative entries.
pub open spec fn made_from_one_of<N>(
    st: StackFields<N>,
    items: Seq<RawCreativeItem<N>>,
    ids: Map<Seq<char>, i32>,
    blocks: Seq<Option<u32>>,
    k: int,
) -> bool {
    exists|j: int| 0 <= j < k && #[trigger] made_from(st, items[j], ids, blocks[j])
}

/// Whether a stack is the one made from a creative entry: the entry's
/// metadata value (as `u32`) and NBT data, a count of one, and for a
/// non-block item its network ID with block ID 0, for a block its runtime
/// ID as both network ID and block ID.
pub open spec fn made_from<N>(st: StackFields<N>, item: RawCreativeItem<N>, ids: Map<Seq<char>, i32>, block: Option<u32>) -> bool {
    &&& st.1 == item.meta as u32
    &&& st.3 == 1u16
    &&& st.4 == Some(item.nbt)
    &&& if item.is_block {
        block matches Some(r) && st.0 == r as i32 && st.2 == r as i32
    } else {
        ids.contains_key(item.name@) && st.0 == ids[item.name@] && st.2 == 0i32
    }
}

/// List of items that are available in creative mode.
#[derive(Debug)]
pub struct CreativeItems<N> {
    stacks: Vec<CreativeStack<N>>,
}

/// A stack with the given decided fields and no destroy or placement lists.
fn make_stack<N>(network_id: i32, meta: u32, block_runtime_id: i32, count: u16, nbt_data: Option<N>) -> (s:
    CreativeStack<N>)
    ensures
        fields_of(s) == (network_id, meta, block_runtime_id, count, nbt_data),
        s.can_destroy@.len() == 0,
        s.can_place_on@.len() == 0,
{
    CreativeStack { network_id, meta, block_runtime_id, count, nbt_data, can_destroy: Vec::new(), can_place_on: Vec::new() }
}

impl<N> CreativeItems<N> {
    /// The decided fields of the stacks, in order.
    pub closed spec fn stacks_view(&self) -> Seq<StackFields<N>> {
        self.stacks@.map_values(|s: CreativeStack<N>| fields_of(s))
    }

    /// Whether no stack can destroy or be placed on any block.
    pub closed spec fn no_block_lists(&self) -> bool {
        forall|i: int| 0 <= i < self.stacks@.len() ==> self.stacks@[i].can_destroy@.len() == 0
            && self.stacks@[i].can_place_on@.len() == 0
    }

    /// Builds the creative inventory from the first `CREATIVE_ITEM_LIMIT`
    /// entries of the creative item data, after an empty stack. Items are
    /// looked up by name in `item_ids`; `block_ids[i]` is the runtime ID of
    /// the block state of entry `i` (`None` when the state is unknown).
    pub fn new(items: Vec<RawCreativeItem<N>>, item_ids: &ItemNetworkIds, block_ids: &Vec<Option<u32>>) -> (c:
        CreativeItems<N>)
        requires
            block_ids@.len() == items@.len(),
        ensures
            c.stacks_view() == creative_stacks(
                items@,
                item_ids.names_view(),
                block_ids@,
                if items@.len() < CREATIVE_ITEM_LIMIT { items@.len() as int } else { CREATIVE_ITEM_LIMIT as int },
            ),
            c.no_block_lists(),
            ({
                let k = if items@.len() < CREATIVE_ITEM_LIMIT { items@.len() as int } else { CREATIVE_ITEM_LIMIT as int };
                &&& c.stacks_view().len() >= 1
                &&& c.stacks_view()[0] == (0i32, 0u32, 0i32, 0u16, None::<N>)
                &&& forall|i: int| 1 <= i < c.stacks_view().len() ==> #[trigger] made_from_one_of(
                    c.stacks_view()[i],
                    items@,
                    item_ids.names_view(),
                    block_ids@,
                    k,
                )
                &&& forall|j: int| 0 <= j < k && #[trigger] gives_stack(items@[j], item_ids.names_view(), block_ids@[j])
                    ==> exists|i: int| 1 <= i < c.stacks_view().len() && made_from(
                    c.stacks_view()[i],
                    items@[j],
                    item_ids.names_view(),
                    block_ids@[j],
                )
            }),
    {
        let ghost all = items@;
        let mut items = items;
        let n = if items.len() < CREATIVE_ITEM_LIMIT { items.len() } else { CREATIVE_ITEM_LIMIT };
        let mut stacks: Vec<CreativeStack<N>> = Vec::new();
        stacks.push(make_stack(0, 0, 0, 0, None));
        assert(stacks@.map_values(|s: CreativeStack<N>| fields_of(s)) =~= creative_stacks(
            all,
            item_ids.names_view(),
            block_ids@,
            0,
        ));
        let mut i: usize = 0;
        while i < n
            invariant
                i <= n <= all.len(),
                n <= CREATIVE_ITEM_LIMIT,
                block_ids@.len() == all.len(),
                items@ == all.skip(i as int),
                stacks@.map_values(|s: CreativeStack<N>| fields_of(s)) == creative_stacks(
                    all,
                    item_ids.names_view(),
                    block_ids@,
                    i as int,
                ),
                forall|j: int| 0 <= j < stacks@.len() ==> stacks@[j].can_destroy@.len() == 0
                    && stacks@[j].can_place_on@.len() == 0,
            decreases n - i,
        {
            let ghost before = stacks@;
            let item = items.remove(0);
            assert(item == all[i as int]);
            assert(items@ =~= all.skip(i as int + 1));
            let meta = item.meta as u32;
            if !item.is_block {
                match item_ids.get_id(item.name.as_str()) {
                    Some(id) => {
                        stacks.push(make_stack(id, meta, 0, 1, Some(item.nbt)));
                    },
                    None => {},
                }
            } else {
                match block_ids[i] {
                    Some(r) => {
                        stacks.push(make_stack(r as i32, meta, r as i32, 1, Some(item.nbt)));
                    },
                    None => {},
                }
            }
            assert(stacks@.map_values(|s: CreativeStack<N>| fields_of(s)) =~= creative_stacks(
                all,
                item_ids.names_view(),
                block_ids@,
                i as int + 1,
            ));
            i += 1;
        }
        proof {
            lemma_creative_stack_sources(all, item_ids.names_view(), block_ids@, n as int);
            lemma_creative_entries_kept(all, item_ids.names_view(), block_ids@, n as int);
        }
        CreativeItems { stacks }
    }

    /// Returns the stacks contained in the inventory.
    pub fn items(&self) -> (s: &[CreativeStack<N>])
        ensures
            s@.map_values(|st: CreativeStack<N>| fields_of(st)) == self.stacks_view(),
    {
        self.stacks.as_slice()
    }
}

} // verus!
