//! Command output and the dynamic enums that drive command autocompletion.
use dashmap::DashMap;
use vstd::prelude::*;

verus! {

/// Represents a single output message in the command service response.
#[derive(Debug)]
pub struct HandlerOutput {
    /// Output of the command.
    pub message: String,
    /// Optional parameters used in the command output.
    pub parameters: Vec<String>,
}

/// The result of a command execution.
pub type HandlerResult = Result<HandlerOutput, HandlerOutput>;

impl HandlerOutput {
    /// Creates a new empty output.
    pub fn new() -> (o: HandlerOutput)
        ensures
            o.message@ == Seq::<char>::empty(),
            o.parameters@ == Seq::<String>::empty(),
    {
        HandlerOutput { message: String::new(), parameters: Vec::new() }
    }

    /// Sets the message of this output.
    pub fn message(self, message: String) -> (o: HandlerOutput)
        ensures
            o.message == message,
            o.parameters == self.parameters,
    {
        HandlerOutput { message, parameters: self.parameters }
    }

    /// Adds another parameter to the output.
    pub fn param(self, param: String) -> (o: HandlerOutput)
        ensures
            o.message == self.message,
            o.parameters@ == self.parameters@.push(param),
    {
        let mut parameters = self.parameters;
        parameters.push(param);
        HandlerOutput { message: self.message, parameters }
    }

    /// Turns this into a successful message.
    pub fn success(self) -> (r: HandlerResult)
        ensures
            r == Ok::<HandlerOutput, HandlerOutput>(self),
    {
        Ok(self)
    }

    /// Turns this into a command error.
    pub fn error(self) -> (r: HandlerResult)
        ensures
            r == Err::<HandlerOutput, HandlerOutput>(self),
    {
        Err(self)
    }
}

impl Default for HandlerOutput {
    fn default() -> (o: HandlerOutput)
        ensures
            o.message@ == Seq::<char>::empty(),
            o.parameters@ == Seq::<String>::empty(),
    {
        HandlerOutput::new()
    }
}

/// Whether `w` is where the first word of `s` ends: no space comes before
/// it, and it is the end of `s` or a space.
pub open spec fn is_word_end(s: Seq<char>, w: int) -> bool {
    &&& 0 <= w <= s.len()
    &&& forall|k: int| 0 <= k < w ==> s[k] != ' '
    &&& (w == s.len() || s[w] == ' ')
}

/// Where the first word of `s` ends.
pub open spec fn word_end(s: Seq<char>) -> int {
    choose|w: int| is_word_end(s, w)
}

/// The name of the command in a command line: its first word without the
/// leading character (the slash).
pub open spec fn spec_command_name(s: Seq<char>) -> Seq<char> {
    let w = word_end(s);
    if w == 0 {
        Seq::empty()
    } else {
        s.subrange(1, w)
    }
}

/// The first word of a text ends at one place only.
proof fn lemma_word_end_unique(s: Seq<char>, w: int)
    requires
        is_word_end(s, w),
    ensures
        word_end(s) == w,
{
    let v = word_end(s);
    assert(is_word_end(s, v));
    if v < w {
        assert(s[v] == ' ');
    }
    if w < v {
        assert(s[w] == ' ');
    }
}

/// Takes the name of the command out of a command line such as
/// `/give steve stone`: the text up to the first space, without the slash in
/// front of the name.
pub fn command_name(command: &str) -> (name: &str)
    ensures
        name@ == spec_command_name(command@),
{
    let len = command.unicode_len();
    let mut w: usize = 0;
    while w < len && command.get_char(w) != ' '
        invariant
            len == command@.len(),
            w <= len,
            forall|k: int| 0 <= k < w ==> command@[k] != ' ',
        decreases len - w,
    {
        w += 1;
    }
    proof {
        lemma_word_end_unique(command@, w as int);
    }
    if w == 0 {
        let empty = command.substring_char(0, 0);
        assert(empty@ =~= Seq::<char>::empty());
        empty
    } else {
        command.substring_char(1, w)
    }
}

/// How an update changes the options of a dynamic enum.
#[derive(Debug, Clone, Copy, PartialEq, Eq, Structural)]
pub enum DynamicEnumAction {
    /// The given options are appended.
    Add,
    /// Every option equal to one of the given options is dropped.
    Remove,
    /// The options are replaced by the given ones.
    Replace,
}

/// An update of the options of a dynamic enum, which is also what clients
/// are sent.
#[derive(Debug)]
pub struct UpdateDynamicEnum<'a> {
    /// ID of the enum to update.
    pub enum_id: &'a str,
    /// The options that the update adds, removes or sets.
    pub options: &'a [String],
    /// What the update does with the options.
    pub action: DynamicEnumAction,
}

/// The characters of each string in order.
pub open spec fn strs(v: Seq<String>) -> Seq<Seq<char>> {
    Seq::new(v.len(), |i: int| v[i]@)
}

/// The options of a dynamic enum after an update, each option taken by its
/// characters.
pub open spec fn updated_options(
    current: Seq<Seq<char>>,
    action: DynamicEnumAction,
    options: Seq<Seq<char>>,
) -> Seq<Seq<char>> {
    match action {
        DynamicEnumAction::Add => current + options,
        DynamicEnumAction::Replace => options,
        DynamicEnumAction::Remove => current.filter(|o: Seq<char>| !options.contains(o)),
    }
}

/// Whether one of `options` equals `option`.
fn contains_option(options: &[String], option: &String) -> (b: bool)
    ensures
        b == strs(options@).contains(option@),
{
    let mut i: usize = 0;
    while i < options.len()
        invariant
            i <= options.len(),
            forall|j: int| 0 <= j < i ==> strs(options@)[j] != option@,
        decreases options.len() - i,
    {
        if options[i] == *option {
            assert(strs(options@)[i as int] == option@);
            return true;
        }
        i += 1;
    }
    false
}

/// Appends clones of `options` to `out`.
fn extend_cloned(out: &mut Vec<String>, options: &[String])
    ensures
        strs(final(out)@) == strs(old(out)@) + strs(options@),
{
    let ghost start = strs(out@);
    let mut i: usize = 0;
    while i < options.len()
        invariant
            i <= options.len(),
            strs(out@) == start + strs(options@).take(i as int),
        decreases options.len() - i,
    {
        let ghost before = out@;
        let ghost before_deep = strs(out@);
        let option = options[i].clone();
        out.push(option);
        assert(out@ == before.push(options@[i as int]));
        let ghost target = start + strs(options@).take(i as int + 1);
        assert(before_deep.len() == before.len());
        assert(before.len() == start.len() + i);
        assert(target.len() == out@.len());
        assert forall|k: int| 0 <= k < out@.len() implies strs(out@)[k] == target[k] by {
            if k < before.len() {
                assert(out@[k] == before[k]);
                assert(before_deep[k] == before[k]@);
            } else {
                assert(strs(options@)[i as int] == options@[i as int]@);
            }
        }
        i += 1;
        assert(strs(out@) =~= start + strs(options@).take(i as int));
    }
    assert(strs(options@).take(i as int) =~= strs(options@));
}

/// Applies an update to the options of a dynamic enum: `Add` appends the
/// given options, `Replace` replaces the options by them, and `Remove` drops
/// every option equal to one of them, keeping the order of the others.
pub fn apply_update(current: Vec<String>, action: DynamicEnumAction, options: &[String]) -> (out:
    Vec<String>)
    ensures
        strs(out@) == updated_options(strs(current@), action, strs(options@)),
{
    match action {
        DynamicEnumAction::Add => {
            let mut out = current;
            extend_cloned(&mut out, options);
            out
        },
        DynamicEnumAction::Replace => {
            let mut out: Vec<String> = Vec::new();
            extend_cloned(&mut out, options);
            assert(strs(out@) =~= strs(options@));
            out
        },
        DynamicEnumAction::Remove => {
            let ghost cur = strs(current@);
            let ghost opts = strs(options@);
            let ghost keep = |o: Seq<char>| !opts.contains(o);
            let mut out: Vec<String> = Vec::new();
            let mut i: usize = 0;
            assert(cur.take(0).filter(keep) =~= Seq::<Seq<char>>::empty()) by {
                reveal(Seq::filter);
            }
            assert(strs(out@) =~= Seq::<Seq<char>>::empty());
            while i < current.len()
                invariant
                    i <= current.len(),
                    cur == strs(current@),
                    opts == strs(options@),
                    keep == (|o: Seq<char>| !opts.contains(o)),
                    strs(out@) == cur.take(i as int).filter(keep),
                decreases current.len() - i,
            {
                let ghost before = strs(out@);
                assert(cur.take(i as int + 1) =~= cur.take(i as int).push(cur[i as int]));
                proof {
                    cur.take(i as int).lemma_filter_push(cur[i as int], keep);
                }
                if !contains_option(options, &current[i]) {
                    out.push(current[i].clone());
                    assert(strs(out@) =~= before.push(cur[i as int]));
                }
                i += 1;
            }
            assert(cur.take(i as int) =~= cur);
            out
        },
    }
}

/// The error of an update of a dynamic enum.
#[derive(Debug, Clone, Copy, PartialEq, Eq, Structural)]
pub enum DynamicEnumError {
    /// No dynamic enum with the given ID exists.
    DoesNotExist,
}

/// The dynamic enums by ID, each holding its options.
pub type EnumMap = DashMap<String, Vec<String>>;

/// The entries of a dynamic enum map, keyed by the characters of each ID,
/// each holding the characters of its options in order.
pub uninterp spec fn enum_entries(m: EnumMap) -> Map<Seq<char>, Seq<Seq<char>>>;

/// The enum map with no entries.
pub open spec fn no_enums() -> Map<Seq<char>, Seq<Seq<char>>> {
    Map::empty()
}

/// Creates an empty enum map with `DashMap::new`.
///
/// Trusted: the new map has no entries.
#[verifier::external_body]
fn new_enum_map() -> (m: EnumMap)
    ensures
        enum_entries(m) == no_enums(),
{
    DashMap::new()
}

/// `DashMap::insert` on the enum map.
///
/// Trusted: the ID now maps to the given options and the other entries are
/// unchanged.
#[verifier::external_body]
fn enum_insert(m: &mut EnumMap, key: String, options: Vec<String>)
    ensures
        enum_entries(*final(m)) == enum_entries(*old(m)).insert(key@, strs(options@)),
{
    m.insert(key, options);
}

/// `DashMap::contains_key` on the enum map.
///
/// Trusted: whether an enum with this ID is stored.
#[verifier::external_body]
fn enum_contains(m: &EnumMap, key: &str) -> (b: bool)
    ensures
        b == enum_entries(*m).contains_key(key@),
{
    m.contains_key(key)
}

/// `DashMap::get` on the enum map, cloning the options out.
///
/// Trusted: the stored options of a present ID, `None` for an absent one.
#[verifier::external_body]
fn enum_get(m: &EnumMap, key: &str) -> (options: Option<Vec<String>>)
    ensures
        enum_entries(*m).contains_key(key@) ==> options is Some && strs(options->0@)
            == enum_entries(*m)[key@],
        !enum_entries(*m).contains_key(key@) ==> options is None,
{
    m.get(key).map(|r| r.value().clone())
}

/// `DashMap::alter` on the enum map, with `apply_update` as the function
/// that replaces the stored options.
///
/// Trusted: `alter` replaces the value of a present key by what the function
/// returns for it and leaves every other entry, and a map without the key,
/// unchanged.
#[verifier::external_body]
fn enum_alter(m: &mut EnumMap, key: &str, action: DynamicEnumAction, options: &[String])
    ensures
        enum_entries(*final(m)) == (if enum_entries(*old(m)).contains_key(key@) {
            enum_entries(*old(m)).insert(
                key@,
                updated_options(enum_entries(*old(m))[key@], action, strs(options@)),
            )
        } else {
            enum_entries(*old(m))
        }),
{
    m.alter(key, |_, v| apply_update(v, action, options));
}

/// The dynamic enums of the registered commands, whose options can change
/// while the server runs.
pub struct DynamicEnums {
    entries: EnumMap,
}

impl DynamicEnums {
    /// The options of each enum by ID, all taken by their characters.
    pub closed spec fn enums_view(&self) -> Map<Seq<char>, Seq<Seq<char>>> {
        enum_entries(self.entries)
    }

    /// Creates a store without enums.
    pub fn new() -> (d: DynamicEnums)
        ensures
            d.enums_view() == no_enums(),
    {
        DynamicEnums { entries: new_enum_map() }
    }

    /// Registers a dynamic enum with its initial options, replacing an enum
    /// with the same ID.
    pub fn register(&mut self, enum_id: String, options: Vec<String>)
        ensures
            final(self).enums_view() == old(self).enums_view().insert(enum_id@, strs(options@)),
    {
        enum_insert(&mut self.entries, enum_id, options);
    }

    /// The current options of the enum with the given ID.
    pub fn options(&self, enum_id: &str) -> (options: Option<Vec<String>>)
        ensures
            self.enums_view().contains_key(enum_id@) ==> options is Some
                && strs(options->0@) == self.enums_view()[enum_id@],
            !self.enums_view().contains_key(enum_id@) ==> options is None,
    {
        enum_get(&self.entries, enum_id)
    }

    /// Updates autocompletion entries for the given dynamic enum.
    ///
    /// This function returns an error if the dynamic enum does not exist; the
    /// enums are then left unchanged.
    pub fn update(&mut self, update: &UpdateDynamicEnum) -> (r: Result<(), DynamicEnumError>)
        ensures
            r is Err <==> !old(self).enums_view().contains_key(update.enum_id@),
            r is Err ==> r == Err::<(), DynamicEnumError>(DynamicEnumError::DoesNotExist)
                && final(self).enums_view() == old(self).enums_view(),
            r is Ok ==> final(self).enums_view() == old(self).enums_view().insert(
                update.enum_id@,
                updated_options(
                    old(self).enums_view()[update.enum_id@],
                    update.action,
                    strs(update.options@),
                ),
            ),
    {
        if !enum_contains(&self.entries, update.enum_id) {
            return Err(DynamicEnumError::DoesNotExist);
        }
        enum_alter(&mut self.entries, update.enum_id, update.action, update.options);
        Ok(())
    }
}

/// Law: after a `Replace` update the enum holds exactly the given options.
pub proof fn lemma_replace_sets_options(current: Seq<Seq<char>>, options: Seq<Seq<char>>)
    ensures
        updated_options(current, DynamicEnumAction::Replace, options) == options,
{
}

/// Law: after a `Remove` update no removed option is left, and an option is
/// kept exactly when it was there before and is not among the removed ones.
pub proof fn lemma_remove_drops(current: Seq<Seq<char>>, options: Seq<Seq<char>>, o: Seq<char>)
    ensures
        updated_options(current, DynamicEnumAction::Remove, options).contains(o) <==> (
        current.contains(o) && !options.contains(o)),
{
    broadcast use vstd::seq_lib::group_filter_ensures;

    let keep = |x: Seq<char>| !options.contains(x);
    let out = current.filter(keep);
    if out.contains(o) {
        let i = choose|i: int| 0 <= i < out.len() && out[i] == o;
        assert(keep(out[i]));
        current.lemma_filter_contains_rev(keep, o);
    }
    if current.contains(o) && !options.contains(o) {
        let i = choose|i: int| 0 <= i < current.len() && current[i] == o;
        assert(keep(current[i]));
    }
}

/// Law: adding options and then removing the same options gives the
/// previous options without those options.
pub proof fn lemma_add_then_remove(current: Seq<Seq<char>>, options: Seq<Seq<char>>)
    ensures
        updated_options(
            updated_options(current, DynamicEnumAction::Add, options),
            DynamicEnumAction::Remove,
            options,
        ) == updated_options(current, DynamicEnumAction::Remove, options),
{
    let keep = |x: Seq<char>| !options.contains(x);
    Seq::filter_distributes_over_add(current, options, keep);
    assert(options.filter(keep) =~= Seq::<Seq<char>>::empty()) by {
        broadcast use vstd::seq_lib::group_filter_ensures;

        if options.filter(keep).len() > 0 {
            let x = options.filter(keep)[0];
            assert(keep(x));
            assert(options.filter(keep).contains(x));
            options.lemma_filter_contains_rev(keep, x);
        }
    }
    assert(current.filter(keep) + options.filter(keep) =~= current.filter(keep));
}

} // verus!
