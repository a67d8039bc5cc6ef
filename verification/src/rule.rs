//! Gamerules: named world settings with a boolean or integer value.
use vstd::prelude::*;
use dashmap::DashMap;

verus! {

/// Wrapper around the different types of gamerule value types
/// to be able to store them in a single map.
#[derive(Debug, Copy, Clone, PartialEq, Eq, Structural)]
pub enum RuleValue {
    /// A boolean value.
    Bool(bool),
    /// An integer value.
    I32(i32),
}

/// The value types a gamerule can have: they convert to and from a
/// [`RuleValue`] of their own kind.
pub trait RuleType: Sized + Copy {
    /// The stored form of a value.
    spec fn spec_into_value(self) -> RuleValue;

    /// Whether a stored value is of this type's kind.
    spec fn is_kind(v: RuleValue) -> bool;

    /// The value of this type that a stored value holds.
    spec fn spec_from_value(v: RuleValue) -> Self;

    /// Wraps the value for storage.
    fn into_value(self) -> (v: RuleValue)
        ensures
            v == self.spec_into_value(),
            Self::is_kind(v),
            Self::spec_from_value(v) == self,
    ;

    /// Unwraps a stored value of this type's kind.
    fn from_value(v: RuleValue) -> (r: Self)
        requires
            Self::is_kind(v),
        ensures
            r == Self::spec_from_value(v),
    ;

    /// Whether a stored value is of this type's kind.
    fn has_kind(v: RuleValue) -> (b: bool)
        ensures
            b == Self::is_kind(v),
    ;

    /// A value reads back from its stored form.
    proof fn lemma_value_roundtrip(x: Self)
        ensures
            Self::is_kind(x.spec_into_value()),
            Self::spec_from_value(x.spec_into_value()) == x,
    ;
}

impl RuleType for bool {
    open spec fn spec_into_value(self) -> RuleValue {
        RuleValue::Bool(self)
    }

    open spec fn is_kind(v: RuleValue) -> bool {
        v is Bool
    }

    open spec fn spec_from_value(v: RuleValue) -> bool {
        v->Bool_0
    }

    fn into_value(self) -> (v: RuleValue) {
        RuleValue::Bool(self)
    }

    fn from_value(v: RuleValue) -> (r: bool) {
        match v {
            RuleValue::Bool(b) => b,
            RuleValue::I32(_) => false,
        }
    }

    fn has_kind(v: RuleValue) -> (b: bool) {
        match v {
            RuleValue::Bool(_) => true,
            RuleValue::I32(_) => false,
        }
    }

    proof fn lemma_value_roundtrip(x: bool) {
    }
}

impl RuleType for i32 {
    open spec fn spec_into_value(self) -> RuleValue {
        RuleValue::I32(self)
    }

    open spec fn is_kind(v: RuleValue) -> bool {
        v is I32
    }

    open spec fn spec_from_value(v: RuleValue) -> i32 {
        v->I32_0
    }

    fn into_value(self) -> (v: RuleValue) {
        RuleValue::I32(self)
    }

    fn from_value(v: RuleValue) -> (r: i32) {
        match v {
            RuleValue::I32(i) => i,
            RuleValue::Bool(_) => 0,
        }
    }

    fn has_kind(v: RuleValue) -> (b: bool) {
        match v {
            RuleValue::I32(_) => true,
            RuleValue::Bool(_) => false,
        }
    }

    proof fn lemma_value_roundtrip(x: i32) {
    }
}

impl RuleValue {
    /// Wraps a boolean value.
    pub fn from_bool(value: bool) -> (v: RuleValue)
        ensures
            v == RuleValue::Bool(value),
    {
        RuleValue::Bool(value)
    }

    /// Wraps an integer value.
    pub fn from_i32(value: i32) -> (v: RuleValue)
        ensures
            v == RuleValue::I32(value),
    {
        RuleValue::I32(value)
    }

    /// The boolean held by a boolean value.
    pub fn as_bool(self) -> (b: bool)
        requires
            self is Bool,
        ensures
            b == self->Bool_0,
    {
        bool::from_value(self)
    }

    /// The integer held by an integer value.
    pub fn as_i32(self) -> (i: i32)
        requires
            self is I32,
        ensures
            i == self->I32_0,
    {
        i32::from_value(self)
    }
}

/// The map from gamerule names to their values.
pub type RuleMap = DashMap<&'static str, RuleValue>;

/// The entries of a gamerule map, keyed by the characters of each name.
pub uninterp spec fn rule_entries(m: RuleMap) -> Map<Seq<char>, RuleValue>;

/// The gamerule map with no entries.
pub open spec fn no_rules() -> Map<Seq<char>, RuleValue> {
    Map::empty()
}

/// Creates an empty gamerule map with `DashMap::new`.
///
/// Trusted: the new map has no entries.
#[verifier::external_body]
fn new_rule_map() -> (fresh: RuleMap)
    ensures
        rule_entries(fresh) == no_rules(),
{
    DashMap::new()
}

/// `DashMap::insert` on the gamerule map.
///
/// Trusted: the name now maps to the value, other entries are unchanged,
/// and the value previously stored under the name (if any) is returned.
#[verifier::external_body]
fn rule_insert(m: &mut RuleMap, key: &'static str, value: RuleValue) -> (old_value: Option<RuleValue>)
    ensures
        rule_entries(*final(m)) == rule_entries(*old(m)).insert(key@, value),
        old_value == (if rule_entries(*old(m)).contains_key(key@) {
            Some(rule_entries(*old(m))[key@])
        } else {
            None
        }),
{
    m.insert(key, value)
}

/// `DashMap::get` on the gamerule map, copying out the value.
///
/// Trusted: the stored value for a present name, `None` for an absent one.
#[verifier::external_body]
fn rule_get(m: &RuleMap, key: &'static str) -> (value: Option<RuleValue>)
    ensures
        rule_entries(*m).contains_key(key@) ==> value == Some(rule_entries(*m)[key@]),
        !rule_entries(*m).contains_key(key@) ==> value is None,
{
    m.get(key).map(|r| *r)
}

/// What reading gamerule `R` from the stored values gives: the stored
/// value, or the gamerule's own default (`R::default()`) when it has never
/// been set. Gamerules are told apart by name, so a value stored under the
/// name by a gamerule of another value type also reads as the default.
pub open spec fn spec_gamerule<R: Rule>(values: Map<Seq<char>, RuleValue>) -> R::Value {
    if values.contains_key(R::NAME@) && R::Value::is_kind(values[R::NAME@]) {
        R::Value::spec_from_value(values[R::NAME@])
    } else {
        R::spec_default()
    }
}

/// Current gamerule values, stored by gamerule name.
///
/// A gamerule is identified by its name, the name by which commands refer
/// to it: two gamerule types with the same name share one stored value.
pub struct GameRules {
    values: RuleMap,
}

impl GameRules {
    /// The stored values by gamerule name.
    pub closed spec fn values_view(&self) -> Map<Seq<char>, RuleValue> {
        rule_entries(self.values)
    }

    /// Creates a store in which no gamerule is set.
    pub fn new() -> (g: GameRules)
        ensures
            g.values_view() == no_rules(),
    {
        GameRules { values: new_rule_map() }
    }

    /// Sets the value of the given gamerule, returning the old value.
    ///
    /// A gamerule that was never set gives its default.
    pub fn set_gamerule<R: Rule>(&mut self, value: R::Value) -> (previous: R::Value)
        ensures
            final(self).values_view() == old(self).values_view().insert(R::NAME@, value.spec_into_value()),
            previous == spec_gamerule::<R>(old(self).values_view()),
    {
        let value = value.into_value();
        let old = rule_insert(&mut self.values, R::NAME, value);
        match old {
            Some(old) => {
                if R::Value::has_kind(old) {
                    R::Value::from_value(old)
                } else {
                    R::default()
                }
            },
            None => R::default(),
        }
    }

    /// Returns the value of the given gamerule.
    ///
    /// A gamerule that was never set gives its default.
    pub fn gamerule<R: Rule>(&self) -> (value: R::Value)
        ensures
            value == spec_gamerule::<R>(self.values_view()),
    {
        match rule_get(&self.values, R::NAME) {
            Some(v) => {
                if R::Value::has_kind(v) {
                    R::Value::from_value(v)
                } else {
                    R::default()
                }
            },
            None => R::default(),
        }
    }
}

/// Law: reading a gamerule right after setting it gives the value set.
pub proof fn lemma_set_then_get<R: Rule>(values: Map<Seq<char>, RuleValue>, value: R::Value)
    ensures
        spec_gamerule::<R>(values.insert(R::NAME@, value.spec_into_value())) == value,
{
    R::Value::lemma_value_roundtrip(value);
}

/// Law: a gamerule that was never set reads as its own default.
pub proof fn lemma_unset_is_default<R: Rule>(values: Map<Seq<char>, RuleValue>)
    requires
        !values.contains_key(R::NAME@),
    ensures
        spec_gamerule::<R>(values) == R::spec_default(),
{
}

/// Law: gamerules are told apart by name. Setting a gamerule sets every
/// gamerule type of the same name and value kind to the same value, and a
/// gamerule type of the same name but another value kind reads as its
/// default.
pub proof fn lemma_same_name_shared<R: Rule, Q: Rule>(values: Map<Seq<char>, RuleValue>, value: R::Value)
    requires
        R::NAME@ == Q::NAME@,
    ensures
        Q::Value::is_kind(value.spec_into_value()) ==> spec_gamerule::<Q>(
            values.insert(R::NAME@, value.spec_into_value()),
        ) == Q::Value::spec_from_value(value.spec_into_value()),
        !Q::Value::is_kind(value.spec_into_value()) ==> spec_gamerule::<Q>(
            values.insert(R::NAME@, value.spec_into_value()),
        ) == Q::spec_default(),
{
}

/// Law: in a store where no gamerule was set, every vanilla gamerule reads as
/// its vanilla default.
pub proof fn lemma_vanilla_defaults()
    ensures
        spec_gamerule::<CommandBlocksEnabled>(no_rules()) == true,
        spec_gamerule::<CommandBlockOutput>(no_rules()) == true,
        spec_gamerule::<DaylightCycle>(no_rules()) == true,
        spec_gamerule::<EntityDrops>(no_rules()) == true,
        spec_gamerule::<FireTick>(no_rules()) == true,
        spec_gamerule::<Insomnia>(no_rules()) == true,
        spec_gamerule::<ImmediateRespawn>(no_rules()) == false,
        spec_gamerule::<LimitedCrafting>(no_rules()) == false,
        spec_gamerule::<MobLoot>(no_rules()) == true,
        spec_gamerule::<MobSpawning>(no_rules()) == true,
        spec_gamerule::<TileDrops>(no_rules()) == true,
        spec_gamerule::<WeatherCycle>(no_rules()) == true,
        spec_gamerule::<DrowningDamage>(no_rules()) == true,
        spec_gamerule::<FallDamage>(no_rules()) == true,
        spec_gamerule::<FireDamage>(no_rules()) == true,
        spec_gamerule::<FreezeDamage>(no_rules()) == true,
        spec_gamerule::<FunctionCommandLimit>(no_rules()) == 10_000,
        spec_gamerule::<KeepInventory>(no_rules()) == false,
        spec_gamerule::<MaxCommandChainLength>(no_rules()) == 65_536,
        spec_gamerule::<MobGriefing>(no_rules()) == true,
        spec_gamerule::<NaturalRegeneration>(no_rules()) == true,
        spec_gamerule::<PlayersSleepingPercentage>(no_rules()) == 100,
        spec_gamerule::<Pvp>(no_rules()) == true,
        spec_gamerule::<RandomTickSpeed>(no_rules()) == 1,
        spec_gamerule::<RecipesUnlock>(no_rules()) == true,
        spec_gamerule::<RespawnBlocksExplode>(no_rules()) == true,
        spec_gamerule::<SendCommandFeedback>(no_rules()) == true,
        spec_gamerule::<ShowBorderEffect>(no_rules()) == true,
        spec_gamerule::<ShowCoordinates>(no_rules()) == true,
        spec_gamerule::<ShowDeathMessages>(no_rules()) == true,
        spec_gamerule::<ShowTags>(no_rules()) == true,
        spec_gamerule::<SpawnRadius>(no_rules()) == 10,
        spec_gamerule::<TntExplodes>(no_rules()) == true,
{
}

/// Law: setting a gamerule leaves every gamerule with another name as it was.
pub proof fn lemma_set_keeps_others<R: Rule, Q: Rule>(values: Map<Seq<char>, RuleValue>, value: R::Value)
    requires
        R::NAME@ != Q::NAME@,
    ensures
        spec_gamerule::<Q>(values.insert(R::NAME@, value.spec_into_value())) == spec_gamerule::<Q>(values),
{
}

/// Implemented by all gamerules.
///
/// All vanilla gamerules have already been implemented but you can also implement your own custom gamerules.
pub trait Rule {
    /// The inner value of this gamerule. This can either be `bool` or `i32`.
    type Value: RuleType;
    /// The in-game name of this gamerule. It identifies the gamerule: types
    /// with the same name share one value in [`GameRules`].
    const NAME: &'static str;
    /// Whether this gamerule is part of vanilla Minecraft.
    /// This should always be set to `false` for any user-defined gamerules.
    const IS_VANILLA: bool;

    /// The default value of this gamerule.
    spec fn spec_default() -> Self::Value;

    /// Returns the default value of this gamerule.
    fn default() -> (v: Self::Value)
        ensures
            v == Self::spec_default(),
    ;
}

/// The vanilla `CommandBlocksEnabled` gamerule.
pub struct CommandBlocksEnabled;

impl Rule for CommandBlocksEnabled {
    type Value = bool;

    const NAME: &'static str = "commandblocksenabled";
    const IS_VANILLA: bool = true;

    open spec fn spec_default() -> bool {
        true
    }

    fn default() -> (v: bool) {
        true
    }
}

/// The vanilla `CommandBlockOutput` gamerule.
pub struct CommandBlockOutput;

impl Rule for CommandBlockOutput {
    type Value = bool;

    const NAME: &'static str = "commandblockoutput";
    const IS_VANILLA: bool = true;

    open spec fn spec_default() -> bool {
        true
    }

    fn default() -> (v: bool) {
        true
    }
}

/// The vanilla `DaylightCycle` gamerule.
pub struct DaylightCycle;

impl Rule for DaylightCycle {
    type Value = bool;

    const NAME: &'static str = "dodaylightcycle";
    const IS_VANILLA: bool = true;

    open spec fn spec_default() -> bool {
        true
    }

    fn default() -> (v: bool) {
        true
    }
}

/// The vanilla `EntityDrops` gamerule.
pub struct EntityDrops;

impl Rule for EntityDrops {
    type Value = bool;

    const NAME: &'static str = "doentitydrops";
    const IS_VANILLA: bool = true;

    open spec fn spec_default() -> bool {
        true
    }

    fn default() -> (v: bool) {
        true
    }
}

/// The vanilla `FireTick` gamerule.
pub struct FireTick;

impl Rule for FireTick {
    type Value = bool;

    const NAME: &'static str = "dofiretick";
    const IS_VANILLA: bool = true;

    open spec fn spec_default() -> bool {
        true
    }

    fn default() -> (v: bool) {
        true
    }
}

/// The vanilla `Insomnia` gamerule.
pub struct Insomnia;

impl Rule for Insomnia {
    type Value = bool;

    const NAME: &'static str = "doinsomnia";
    const IS_VANILLA: bool = true;

    open spec fn spec_default() -> bool {
        true
    }

    fn default() -> (v: bool) {
        true
    }
}

/// The vanilla `ImmediateRespawn` gamerule.
pub struct ImmediateRespawn;

impl Rule for ImmediateRespawn {
    type Value = bool;

    const NAME: &'static str = "doimmediaterespawn";
    const IS_VANILLA: bool = true;

    open spec fn spec_default() -> bool {
        false
    }

    fn default() -> (v: bool) {
        false
    }
}

/// The vanilla `LimitedCrafting` gamerule.
pub struct LimitedCrafting;

impl Rule for LimitedCrafting {
    type Value = bool;

    const NAME: &'static str = "dolimitedcrafting";
    const IS_VANILLA: bool = true;

    open spec fn spec_default() -> bool {
        false
    }

    fn default() -> (v: bool) {
        false
    }
}

/// The vanilla `MobLoot` gamerule.
pub struct MobLoot;

impl Rule for MobLoot {
    type Value = bool;

    const NAME: &'static str = "domobloot";
    const IS_VANILLA: bool = true;

    open spec fn spec_default() -> bool {
        true
    }

    fn default() -> (v: bool) {
        true
    }
}

/// The vanilla `MobSpawning` gamerule.
pub struct MobSpawning;

impl Rule for MobSpawning {
    type Value = bool;

    const NAME: &'static str = "domobspawning";
    const IS_VANILLA: bool = true;

    open spec fn spec_default() -> bool {
        true
    }

    fn default() -> (v: bool) {
        true
    }
}

/// The vanilla `TileDrops` gamerule.
pub struct TileDrops;

impl Rule for TileDrops {
    type Value = bool;

    const NAME: &'static str = "dotiledrops";
    const IS_VANILLA: bool = true;

    open spec fn spec_default() -> bool {
        true
    }

    fn default() -> (v: bool) {
        true
    }
}

/// The vanilla `WeatherCycle` gamerule.
pub struct WeatherCycle;

impl Rule for WeatherCycle {
    type Value = bool;

    const NAME: &'static str = "doweathercycle";
    const IS_VANILLA: bool = true;

    open spec fn spec_default() -> bool {
        true
    }

    fn default() -> (v: bool) {
        true
    }
}

/// The vanilla `DrowningDamage` gamerule.
pub struct DrowningDamage;

impl Rule for DrowningDamage {
    type Value = bool;

    const NAME: &'static str = "drowningdamage";
    const IS_VANILLA: bool = true;

    open spec fn spec_default() -> bool {
        true
    }

    fn default() -> (v: bool) {
        true
    }
}

/// The vanilla `FallDamage` gamerule.
pub struct FallDamage;

impl Rule for FallDamage {
    type Value = bool;

    const NAME: &'static str = "falldamage";
    const IS_VANILLA: bool = true;

    open spec fn spec_default() -> bool {
        true
    }

    fn default() -> (v: bool) {
        true
    }
}

/// The vanilla `FireDamage` gamerule.
pub struct FireDamage;

impl Rule for FireDamage {
    type Value = bool;

    const NAME: &'static str = "firedamage";
    const IS_VANILLA: bool = true;

    open spec fn spec_default() -> bool {
        true
    }

    fn default() -> (v: bool) {
        true
    }
}

/// The vanilla `FreezeDamage` gamerule.
pub struct FreezeDamage;

impl Rule for FreezeDamage {
    type Value = bool;

    const NAME: &'static str = "freezedamage";
    const IS_VANILLA: bool = true;

    open spec fn spec_default() -> bool {
        true
    }

    fn default() -> (v: bool) {
        true
    }
}

/// The vanilla `FunctionCommandLimit` gamerule.
pub struct FunctionCommandLimit;

impl Rule for FunctionCommandLimit {
    type Value = i32;

    const NAME: &'static str = "functioncommandlimit";
    const IS_VANILLA: bool = true;

    open spec fn spec_default() -> i32 {
        10_000
    }

    fn default() -> (v: i32) {
        10_000
    }
}

/// The vanilla `KeepInventory` gamerule.
pub struct KeepInventory;

impl Rule for KeepInventory {
    type Value = bool;

    const NAME: &'static str = "keepinventory";
    const IS_VANILLA: bool = true;

    open spec fn spec_default() -> bool {
        false
    }

    fn default() -> (v: bool) {
        false
    }
}

/// The vanilla `MaxCommandChainLength` gamerule.
pub struct MaxCommandChainLength;

impl Rule for MaxCommandChainLength {
    type Value = i32;

    const NAME: &'static str = "maxcommandchainlength";
    const IS_VANILLA: bool = true;

    open spec fn spec_default() -> i32 {
        65_536
    }

    fn default() -> (v: i32) {
        65_536
    }
}

/// The vanilla `MobGriefing` gamerule.
pub struct MobGriefing;

impl Rule for MobGriefing {
    type Value = bool;

    const NAME: &'static str = "mobgriefing";
    const IS_VANILLA: bool = true;

    open spec fn spec_default() -> bool {
        true
    }

    fn default() -> (v: bool) {
        true
    }
}

/// The vanilla `NaturalRegeneration` gamerule.
pub struct NaturalRegeneration;

impl Rule for NaturalRegeneration {
    type Value = bool;

    const NAME: &'static str = "naturalregeneration";
    const IS_VANILLA: bool = true;

    open spec fn spec_default() -> bool {
        true
    }

    fn default() -> (v: bool) {
        true
    }
}

/// The vanilla `PlayersSleepingPercentage` gamerule.
pub struct PlayersSleepingPercentage;

impl Rule for PlayersSleepingPercentage {
    type Value = i32;

    const NAME: &'static str = "playerssleepingpercentage";
    const IS_VANILLA: bool = true;

    open spec fn spec_default() -> i32 {
        100
    }

    fn default() -> (v: i32) {
        100
    }
}

/// The vanilla `Pvp` gamerule.
pub struct Pvp;

impl Rule for Pvp {
    type Value = bool;

    const NAME: &'static str = "pvp";
    const IS_VANILLA: bool = true;

    open spec fn spec_default() -> bool {
        true
    }

    fn default() -> (v: bool) {
        true
    }
}

/// The vanilla `RandomTickSpeed` gamerule.
pub struct RandomTickSpeed;

impl Rule for RandomTickSpeed {
    type Value = i32;

    const NAME: &'static str = "randomtickspeed";
    const IS_VANILLA: bool = true;

    open spec fn spec_default() -> i32 {
        1
    }

    fn default() -> (v: i32) {
        1
    }
}

/// The vanilla `RecipesUnlock` gamerule.
pub struct RecipesUnlock;

impl Rule for RecipesUnlock {
    type Value = bool;

    const NAME: &'static str = "recipesunlock";
    const IS_VANILLA: bool = true;

    open spec fn spec_default() -> bool {
        true
    }

    fn default() -> (v: bool) {
        true
    }
}

/// The vanilla `RespawnBlocksExplode` gamerule.
pub struct RespawnBlocksExplode;

impl Rule for RespawnBlocksExplode {
    type Value = bool;

    const NAME: &'static str = "respawnblocksexplode";
    const IS_VANILLA: bool = true;

    open spec fn spec_default() -> bool {
        true
    }

    fn default() -> (v: bool) {
        true
    }
}

/// The vanilla `SendCommandFeedback` gamerule.
pub struct SendCommandFeedback;

impl Rule for SendCommandFeedback {
    type Value = bool;

    const NAME: &'static str = "sendcommandfeedback";
    const IS_VANILLA: bool = true;

    open spec fn spec_default() -> bool {
        true
    }

    fn default() -> (v: bool) {
        true
    }
}

/// The vanilla `ShowBorderEffect` gamerule.
pub struct ShowBorderEffect;

impl Rule for ShowBorderEffect {
    type Value = bool;

    const NAME: &'static str = "showbordereffect";
    const IS_VANILLA: bool = true;

    open spec fn spec_default() -> bool {
        true
    }

    fn default() -> (v: bool) {
        true
    }
}

/// The vanilla `ShowCoordinates` gamerule.
pub struct ShowCoordinates;

impl Rule for ShowCoordinates {
    type Value = bool;

    const NAME: &'static str = "showcoordinates";
    const IS_VANILLA: bool = true;

    open spec fn spec_default() -> bool {
        true
    }

    fn default() -> (v: bool) {
        true
    }
}

/// The vanilla `ShowDeathMessages` gamerule.
pub struct ShowDeathMessages;

impl Rule for ShowDeathMessages {
    type Value = bool;

    const NAME: &'static str = "showdeathmessages";
    const IS_VANILLA: bool = true;

    open spec fn spec_default() -> bool {
        true
    }

    fn default() -> (v: bool) {
        true
    }
}

/// The vanilla `ShowTags` gamerule.
pub struct ShowTags;

impl Rule for ShowTags {
    type Value = bool;

    const NAME: &'static str = "showtags";
    const IS_VANILLA: bool = true;

    open spec fn spec_default() -> bool {
        true
    }

    fn default() -> (v: bool) {
        true
    }
}

/// The vanilla `SpawnRadius` gamerule.
pub struct SpawnRadius;

impl Rule for SpawnRadius {
    type Value = i32;

    const NAME: &'static str = "spawnradius";
    const IS_VANILLA: bool = true;

    open spec fn spec_default() -> i32 {
        10
    }

    fn default() -> (v: i32) {
        10
    }
}

/// The vanilla `TntExplodes` gamerule.
pub struct TntExplodes;

impl Rule for TntExplodes {
    type Value = bool;

    const NAME: &'static str = "tntexplodes";
    const IS_VANILLA: bool = true;

    open spec fn spec_default() -> bool {
        true
    }

    fn default() -> (v: bool) {
        true
    }
}

} // verus!
