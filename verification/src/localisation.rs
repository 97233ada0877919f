use vstd::prelude::*;
use vstd::string::StrSliceExecFns;
use crate::text::push_char;

verus! {

broadcast use vstd::string::group_string_axioms;

/// The languages the overlay can show text in.
#[allow(non_camel_case_types)]
#[derive(Debug, Clone, Copy, PartialEq, Eq)]
pub enum Locales {
    enUS,
    zhTW,
    deDE,
    esES,
    frFR,
    itIT,
    koKR,
    plPL,
    enBG,
    Unknown,
}

/// One string of the game's string tables, in every language.
#[allow(non_snake_case)]
#[derive(Debug)]
pub struct LocalisationEntry {
    pub id: u32,
    pub Key: String,
    pub enUS: String,
    pub zhTW: String,
    pub deDE: String,
    pub esES: String,
    pub frFR: String,
    pub itIT: String,
    pub koKR: String,
    pub plPL: String,
    pub enBG: String,
}

/// The id an entry gets when its source does not give one.
pub fn a_default() -> (id: u32)
    ensures
        id == 1,
{
    1
}

/// What `str::to_lowercase` returns for a text (full Unicode lower-casing).
pub uninterp spec fn lowercase(s: Seq<char>) -> Seq<char>;

/// Calls `str::to_lowercase`. Its result depends on the text alone (the
/// Unicode lower-case mapping, which is not written out here).
#[verifier::external_body]
fn to_lowercase(s: &str) -> (lower: String)
    ensures
        lower@ == lowercase(s@),
{
    s.to_lowercase()
}

/// Whether a character has the Unicode White_Space property (what
/// `char::is_whitespace` tells): tab through carriage return, space, next line,
/// no-break space, ogham space mark, the spaces U+2000 to U+200A, the line and
/// paragraph separators, narrow no-break space, medium mathematical space and
/// ideographic space.
pub open spec fn is_white_space(c: char) -> bool {
    let u = c as u32;
    ||| 0x09 <= u <= 0x0D
    ||| u == 0x20
    ||| u == 0x85
    ||| u == 0xA0
    ||| u == 0x1680
    ||| 0x2000 <= u <= 0x200A
    ||| u == 0x2028
    ||| u == 0x2029
    ||| u == 0x202F
    ||| u == 0x205F
    ||| u == 0x3000
}

/// Whether a character has the Unicode White_Space property.
pub fn char_is_whitespace(c: char) -> (ws: bool)
    ensures
        ws == is_white_space(c),
{
    let u = c as u32;
    (0x09 <= u && u <= 0x0D) || u == 0x20 || u == 0x85 || u == 0xA0 || u == 0x1680 || (0x2000 <= u
        && u <= 0x200A) || u == 0x2028 || u == 0x2029 || u == 0x202F || u == 0x205F || u == 0x3000
}

/// A decimal digit `0`..`9`.
pub open spec fn is_decimal_digit(c: char) -> bool {
    '0' <= c <= '9'
}

/// The text without the characters for which `drop` holds.
pub open spec fn remove_chars(s: Seq<char>, drop: spec_fn(char) -> bool) -> Seq<char>
    decreases s.len(),
{
    if s.len() == 0 {
        seq![]
    } else if drop(s.last()) {
        remove_chars(s.drop_last(), drop)
    } else {
        remove_chars(s.drop_last(), drop).push(s.last())
    }
}

/// The dash `-`.
pub open spec fn is_dash() -> spec_fn(char) -> bool {
    |c: char| c == '-'
}

/// A decimal digit or a white-space character.
pub open spec fn is_digit_or_space() -> spec_fn(char) -> bool {
    |c: char| is_decimal_digit(c) || is_white_space(c)
}

/// The key under which a string table stores an entry: its `Key` in lower case,
/// with every `-` removed.
pub open spec fn table_key(key: Seq<char>) -> Seq<char> {
    remove_chars(lowercase(key), is_dash())
}

/// The key under which an NPC's name is looked up: the given name without
/// decimal digits and white space, in lower case.
pub open spec fn npc_key(name: Seq<char>) -> Seq<char> {
    lowercase(remove_chars(name, is_digit_or_space()))
}

/// The text without dashes.
fn remove_dashes(text: &str) -> (out: String)
    ensures
        out@ == remove_chars(text@, is_dash()),
{
    let mut out = String::new();
    for c in it: text.chars()
        invariant
            it.seq() == text@,
            out@ == remove_chars(text@.take(it.index()), is_dash()),
    {
        let ghost i = it.index();
        assert(text@.take(i + 1).drop_last() =~= text@.take(i));
        if c != '-' {
            push_char(&mut out, c);
        }
    }
    assert(text@.take(text@.len() as int) =~= text@);
    out
}

/// The text without decimal digits and white space.
fn remove_digits_and_spaces(text: &str) -> (out: String)
    ensures
        out@ == remove_chars(text@, is_digit_or_space()),
{
    let mut out = String::new();
    for c in it: text.chars()
        invariant
            it.seq() == text@,
            out@ == remove_chars(text@.take(it.index()), is_digit_or_space()),
    {
        let ghost i = it.index();
        assert(text@.take(i + 1).drop_last() =~= text@.take(i));
        if !('0' <= c && c <= '9') && !char_is_whitespace(c) {
            push_char(&mut out, c);
        }
    }
    assert(text@.take(text@.len() as int) =~= text@);
    out
}

/// The text with every leading byte order mark (U+FEFF) removed.
pub fn trim_byte_order_marks(data: &str) -> (trimmed: &str)
    ensures
        trimmed@.len() <= data@.len(),
        data@ == Seq::new((data@.len() - trimmed@.len()) as nat, |i: int| '\u{feff}') + trimmed@,
        trimmed@.len() > 0 ==> trimmed@[0] != '\u{feff}',
{
    let len = data.unicode_len();
    let mut n: usize = 0;
    let mut in_prefix = true;
    for c in it: data.chars()
        invariant
            it.seq() == data@,
            len == data@.len(),
            n <= it.index(),
            forall|j: int| 0 <= j < n ==> data@[j] == '\u{feff}',
            in_prefix ==> n == it.index(),
            !in_prefix ==> n < data@.len() && data@[n as int] != '\u{feff}',
    {
        if in_prefix {
            if c == '\u{feff}' {
                n = n + 1;
            } else {
                in_prefix = false;
            }
        }
    }
    let trimmed = data.substring_char(n, len);
    assert(data@ =~= Seq::new((data@.len() - trimmed@.len()) as nat, |i: int| '\u{feff}') + trimmed@);
    trimmed
}

/// The string table built from a list of entries: each entry is stored under
/// its table key, and a later entry replaces an earlier one with the same key.
pub open spec fn table_of(entries: Seq<LocalisationEntry>) -> Map<Seq<char>, LocalisationEntry>
    decreases entries.len(),
{
    if entries.len() == 0 {
        Map::empty()
    } else {
        table_of(entries.drop_last()).insert(table_key(entries.last().Key@), entries.last())
    }
}

/// A string table holds a key exactly when some entry has that table key, and
/// under it the last such entry: reading a key gives back the entry written
/// last under it.
pub proof fn lemma_table_of_lookup(entries: Seq<LocalisationEntry>, i: int)
    requires
        0 <= i < entries.len(),
        forall|j: int| i < j < entries.len() ==> table_key(#[trigger] entries[j].Key@) != table_key(
            entries[i].Key@,
        ),
    ensures
        table_of(entries).contains_key(table_key(entries[i].Key@)),
        table_of(entries)[table_key(entries[i].Key@)] == entries[i],
    decreases entries.len(),
{
    if i < entries.len() - 1 {
        let rest = entries.drop_last();
        assert forall|j: int| i < j < rest.len() implies table_key(#[trigger] rest[j].Key@) != table_key(
            rest[i].Key@,
        ) by {
            assert(rest[j] == entries[j]);
        }
        lemma_table_of_lookup(rest, i);
        assert(table_key(entries[entries.len() - 1].Key@) != table_key(entries[i].Key@));
    }
}

/// Removing characters that the text does not hold leaves it as it is.
proof fn lemma_remove_chars_none(s: Seq<char>, drop: spec_fn(char) -> bool)
    requires
        forall|k: int| 0 <= k < s.len() ==> !drop(#[trigger] s[k]),
    ensures
        remove_chars(s, drop) == s,
    decreases s.len(),
{
    if s.len() > 0 {
        lemma_remove_chars_none(s.drop_last(), drop);
        assert(s.drop_last().push(s.last()) =~= s);
    }
}

/// An NPC is found by its own key: when its entry's `Key` holds no digit, white
/// space or dash, its lower-case form holds no dash, and no later entry has the
/// same table key, the table built from the entries gives back that entry when
/// its `Key` is looked up as an NPC name, and so `get_npc_name` of that `Key`
/// gives the entry's text in every language.
pub proof fn lemma_npc_found_by_own_key(npcs: Seq<LocalisationEntry>, i: int)
    requires
        0 <= i < npcs.len(),
        forall|k: int|
            0 <= k < npcs[i].Key@.len() ==> !is_decimal_digit(#[trigger] npcs[i].Key@[k])
                && !is_white_space(npcs[i].Key@[k]) && npcs[i].Key@[k] != '-',
        !lowercase(npcs[i].Key@).contains('-'),
        forall|j: int| i < j < npcs.len() ==> table_key(#[trigger] npcs[j].Key@) != table_key(
            npcs[i].Key@,
        ),
    ensures
        npc_key(npcs[i].Key@) == table_key(npcs[i].Key@),
        table_of(npcs).contains_key(npc_key(npcs[i].Key@)),
        table_of(npcs)[npc_key(npcs[i].Key@)] == npcs[i],
        forall|locale: Locales| #[trigger] locale_text(table_of(npcs)[npc_key(npcs[i].Key@)], locale)
            == locale_text(npcs[i], locale),
{
    let key = npcs[i].Key@;
    lemma_remove_chars_none(key, is_digit_or_space());
    let lower = lowercase(key);
    assert forall|k: int| 0 <= k < lower.len() implies !(is_dash())(#[trigger] lower[k]) by {
        if lower[k] == '-' {
            assert(lower.contains('-'));
        }
    }
    lemma_remove_chars_none(lower, is_dash());
    lemma_table_of_lookup(npcs, i);
}

/// The keys of a string table are exactly the table keys of its entries.
pub proof fn lemma_table_of_keys(entries: Seq<LocalisationEntry>, key: Seq<char>)
    ensures
        table_of(entries).contains_key(key) <==> exists|j: int|
            0 <= j < entries.len() && table_key(#[trigger] entries[j].Key@) == key,
    decreases entries.len(),
{
    if entries.len() > 0 {
        let rest = entries.drop_last();
        lemma_table_of_keys(rest, key);
        if exists|j: int| 0 <= j < entries.len() && table_key(#[trigger] entries[j].Key@) == key {
            let j = choose|j: int| 0 <= j < entries.len() && table_key(#[trigger] entries[j].Key@) == key;
            if j < rest.len() {
                assert(table_key(rest[j].Key@) == key);
            }
        }
        if exists|j: int| 0 <= j < rest.len() && table_key(#[trigger] rest[j].Key@) == key {
            let j = choose|j: int| 0 <= j < rest.len() && table_key(#[trigger] rest[j].Key@) == key;
            assert(entries[j] == rest[j]);
        }
    }
}

/// The text of an entry in a language; `enBG` and unknown languages get the
/// US English text.
pub open spec fn locale_text(e: LocalisationEntry, locale: Locales) -> Seq<char> {
    match locale {
        Locales::enUS => e.enUS@,
        Locales::zhTW => e.zhTW@,
        Locales::deDE => e.deDE@,
        Locales::esES => e.esES@,
        Locales::frFR => e.frFR@,
        Locales::itIT => e.itIT@,
        Locales::koKR => e.koKR@,
        Locales::plPL => e.plPL@,
        Locales::enBG => e.enUS@,
        Locales::Unknown => e.enUS@,
    }
}

/// Each language shows its own text of an entry; Bulgarian-English and an
/// unknown language show the US English text.
pub proof fn lemma_locale_fields(e: LocalisationEntry)
    ensures
        locale_text(e, Locales::enUS) == e.enUS@,
        locale_text(e, Locales::zhTW) == e.zhTW@,
        locale_text(e, Locales::deDE) == e.deDE@,
        locale_text(e, Locales::esES) == e.esES@,
        locale_text(e, Locales::frFR) == e.frFR@,
        locale_text(e, Locales::itIT) == e.itIT@,
        locale_text(e, Locales::koKR) == e.koKR@,
        locale_text(e, Locales::plPL) == e.plPL@,
        locale_text(e, Locales::enBG) == e.enUS@,
        locale_text(e, Locales::Unknown) == e.enUS@,
{
}

/// A string table: entries found by their key. No key occurs twice.
pub struct LocalisationTable {
    entries: Vec<(String, LocalisationEntry)>,
}

impl LocalisationTable {
    #[verifier::type_invariant]
    closed spec fn keys_distinct(self) -> bool {
        forall|i: int, j: int|
            0 <= i < self.entries@.len() && 0 <= j < self.entries@.len() && i != j
                ==> #[trigger] self.entries@[i].0@ != #[trigger] self.entries@[j].0@
    }

    closed spec fn has_key(self, key: Seq<char>) -> bool {
        exists|i: int| 0 <= i < self.entries@.len() && #[trigger] self.entries@[i].0@ == key
    }

    closed spec fn index_of(self, key: Seq<char>) -> int {
        choose|i: int| 0 <= i < self.entries@.len() && #[trigger] self.entries@[i].0@ == key
    }

    /// The table as a map from key to entry.
    pub closed spec fn as_map(self) -> Map<Seq<char>, LocalisationEntry> {
        Map::new(|k: Seq<char>| self.has_key(k), |k: Seq<char>| self.entries@[self.index_of(k)].1)
    }

    /// An empty table.
    pub fn new() -> (t: Self)
        ensures
            t@ == Map::<Seq<char>, LocalisationEntry>::empty(),
    {
        let t = LocalisationTable { entries: Vec::new() };
        assert(t.as_map() =~= Map::<Seq<char>, LocalisationEntry>::empty());
        t
    }

    fn find(&self, key: &String) -> (idx: Option<usize>)
        ensures
            match idx {
                Some(i) => i < self.entries@.len() && self.entries@[i as int].0@ == key@,
                None => !self.has_key(key@),
            },
    {
        for i in 0..self.entries.len()
            invariant
                forall|j: int| 0 <= j < i ==> #[trigger] self.entries@[j].0@ != key@,
        {
            if self.entries[i].0 == *key {
                return Some(i);
            }
        }
        None
    }

    /// The entry stored under `key`, if any.
    pub fn get(&self, key: &String) -> (entry: Option<&LocalisationEntry>)
        ensures
            match entry {
                Some(e) => self@.contains_key(key@) && *e == self@[key@],
                None => !self@.contains_key(key@),
            },
    {
        proof {
            use_type_invariant(self);
        }
        match self.find(key) {
            Some(i) => {
                proof {
                    let k = self.index_of(key@);
                    assert(self.entries@[k].0@ == key@);
                }
                Some(&self.entries[i].1)
            },
            None => None,
        }
    }

    /// Stores `entry` under `key`, replacing what was stored there before.
    pub fn insert(&mut self, key: String, entry: LocalisationEntry)
        ensures
            final(self)@ == old(self)@.insert(key@, entry),
    {
        proof {
            use_type_invariant(&*self);
        }
        let ghost old_map = self@;
        let ghost old_entries = self.entries@;
        let ghost k = key@;
        match self.find(&key) {
            Some(i) => {
                let mut entries: Vec<(String, LocalisationEntry)> = Vec::new();
                std::mem::swap(&mut entries, &mut self.entries);
                entries.set(i, (key, entry));
                assert forall|a: int, b: int|
                    0 <= a < entries@.len() && 0 <= b < entries@.len() && a != b implies #[trigger] entries@[a].0@
                    != #[trigger] entries@[b].0@ by {
                    if a != i && b != i {
                        assert(old_entries[a].0@ != old_entries[b].0@);
                    } else if a == i {
                        assert(old_entries[b].0@ != old_entries[a].0@);
                    } else {
                        assert(old_entries[a].0@ != old_entries[b].0@);
                    }
                }
                self.entries = entries;
            },
            None => {
                let mut entries: Vec<(String, LocalisationEntry)> = Vec::new();
                std::mem::swap(&mut entries, &mut self.entries);
                entries.push((key, entry));
                assert forall|a: int, b: int|
                    0 <= a < entries@.len() && 0 <= b < entries@.len() && a != b implies #[trigger] entries@[a].0@
                    != #[trigger] entries@[b].0@ by {
                    let n = old_entries.len() as int;
                    if a < n && b < n {
                        assert(old_entries[a].0@ != old_entries[b].0@);
                    } else if a == n {
                        assert(old_entries[b].0@ != k);
                    } else {
                        assert(old_entries[a].0@ != k);
                    }
                }
                self.entries = entries;
            },
        }
        proof {
            let new_entries = self.entries@;
            assert forall|q: Seq<char>| #[trigger] self.has_key(q) == (q == k || old_map.contains_key(q)) by {
                if q != k && old_map.contains_key(q) {
                    let j = choose|j: int| 0 <= j < old_entries.len() && #[trigger] old_entries[j].0@ == q;
                    assert(new_entries[j].0@ == q);
                }
                if q == k {
                    if !old_map.contains_key(k) {
                        assert(new_entries[new_entries.len() - 1].0@ == k);
                    } else {
                        let j2 = choose|j: int| 0 <= j < old_entries.len() && #[trigger] old_entries[j].0@ == k;
                        assert(new_entries[j2].0@ == k);
                    }
                }
            }
            assert forall|q: Seq<char>| self.has_key(q) implies #[trigger] self.entries@[self.index_of(q)].1 == (
            if q == k {
                entry
            } else {
                old_map[q]
            }) by {
                let a = self.index_of(q);
                if q != k {
                    let b = choose|j: int| 0 <= j < old_entries.len() && #[trigger] old_entries[j].0@ == q;
                    assert(new_entries[b].0@ == q);
                    assert(a == b);
                } else {
                    assert(new_entries[a].0@ == k);
                }
            }
            assert(self@ =~= old_map.insert(k, entry));
        }
    }
}

impl View for LocalisationTable {
    type V = Map<Seq<char>, LocalisationEntry>;

    open spec fn view(&self) -> Map<Seq<char>, LocalisationEntry> {
        self.as_map()
    }
}

/// Builds a string table from a list of entries, keyed by `table_key`;
/// a later entry replaces an earlier one with the same key.
pub fn vec_to_hashmap(file_data: Vec<LocalisationEntry>) -> (table: LocalisationTable)
    ensures
        table@ == table_of(file_data@),
{
    let ghost all = file_data@;
    let mut table = LocalisationTable::new();
    for entry in it: file_data
        invariant
            it.seq() == all,
            table@ == table_of(all.take(it.index())),
    {
        let ghost i = it.index();
        assert(all.take(i + 1).drop_last() =~= all.take(i));
        let lower = to_lowercase(entry.Key.as_str());
        let key = remove_dashes(lower.as_str());
        table.insert(key, entry);
    }
    assert(all.take(all.len() as int) =~= all);
    table
}

/// All string tables of the game, each keyed by `table_key`.
pub struct Localisation {
    pub item_gems: LocalisationTable,
    pub item_modifiers: LocalisationTable,
    pub item_nameaffixes: LocalisationTable,
    pub item_names: LocalisationTable,
    pub item_runes: LocalisationTable,
    pub levels: LocalisationTable,
    pub mercenaries: LocalisationTable,
    pub monsters: LocalisationTable,
    pub npcs: LocalisationTable,
    pub objects: LocalisationTable,
    pub quests: LocalisationTable,
    pub shrines: LocalisationTable,
    pub skills: LocalisationTable,
    pub primemh: LocalisationTable,
}

impl Localisation {
    /// The name of an NPC in a language. The name is looked up without its
    /// digits and white space, in lower case; an unknown NPC gets the empty text.
    pub fn get_npc_name(&self, key_name: &String, locale: &Locales) -> (name: String)
        ensures
            self.npcs@.contains_key(npc_key(key_name@)) ==> name@ == locale_text(
                self.npcs@[npc_key(key_name@)],
                *locale,
            ),
            !self.npcs@.contains_key(npc_key(key_name@)) ==> name@ == Seq::<char>::empty(),
    {
        let new_key_name = remove_digits_and_spaces(key_name.as_str());
        let lookup = to_lowercase(new_key_name.as_str());
        match self.npcs.get(&lookup) {
            Some(npc) => {
                match locale {
                    Locales::enUS => npc.enUS.clone(),
                    Locales::zhTW => npc.zhTW.clone(),
                    Locales::deDE => npc.deDE.clone(),
                    Locales::esES => npc.esES.clone(),
                    Locales::frFR => npc.frFR.clone(),
                    Locales::itIT => npc.itIT.clone(),
                    Locales::koKR => npc.koKR.clone(),
                    Locales::plPL => npc.plPL.clone(),
                    Locales::enBG => npc.enUS.clone(),
                    Locales::Unknown => npc.enUS.clone(),
                }
            },
            None => String::new(),
        }
    }
}

/// Builds every string table of the game from its list of entries.
pub fn load_localisation_data(
    item_gems_data: Vec<LocalisationEntry>,
    item_modifiers_data: Vec<LocalisationEntry>,
    item_nameaffixes_data: Vec<LocalisationEntry>,
    item_names_data: Vec<LocalisationEntry>,
    item_runes_data: Vec<LocalisationEntry>,
    levels_data: Vec<LocalisationEntry>,
    mercenaries_data: Vec<LocalisationEntry>,
    monsters_data: Vec<LocalisationEntry>,
    npcs_data: Vec<LocalisationEntry>,
    objects_data: Vec<LocalisationEntry>,
    quests_data: Vec<LocalisationEntry>,
    shrines_data: Vec<LocalisationEntry>,
    skills_data: Vec<LocalisationEntry>,
    primemh_data: Vec<LocalisationEntry>,
) -> (l: Localisation)
    ensures
        l.item_gems@ == table_of(item_gems_data@),
        l.item_modifiers@ == table_of(item_modifiers_data@),
        l.item_nameaffixes@ == table_of(item_nameaffixes_data@),
        l.item_names@ == table_of(item_names_data@),
        l.item_runes@ == table_of(item_runes_data@),
        l.levels@ == table_of(levels_data@),
        l.mercenaries@ == table_of(mercenaries_data@),
        l.monsters@ == table_of(monsters_data@),
        l.npcs@ == table_of(npcs_data@),
        l.objects@ == table_of(objects_data@),
        l.quests@ == table_of(quests_data@),
        l.shrines@ == table_of(shrines_data@),
        l.skills@ == table_of(skills_data@),
        l.primemh@ == table_of(primemh_data@),
{
    let item_gems = vec_to_hashmap(item_gems_data);
    let item_modifiers = vec_to_hashmap(item_modifiers_data);
    let item_nameaffixes = vec_to_hashmap(item_nameaffixes_data);
    let item_names = vec_to_hashmap(item_names_data);
    let item_runes = vec_to_hashmap(item_runes_data);
    let levels = vec_to_hashmap(levels_data);
    let mercenaries = vec_to_hashmap(mercenaries_data);
    let monsters = vec_to_hashmap(monsters_data);
    let npcs = vec_to_hashmap(npcs_data);
    let objects = vec_to_hashmap(objects_data);
    let quests = vec_to_hashmap(quests_data);
    let shrines = vec_to_hashmap(shrines_data);
    let skills = vec_to_hashmap(skills_data);
    let primemh = vec_to_hashmap(primemh_data);
    Localisation {
        item_gems,
        item_modifiers,
        item_nameaffixes,
        item_names,
        item_runes,
        levels,
        mercenaries,
        monsters,
        npcs,
        objects,
        quests,
        shrines,
        skills,
        primemh,
    }
}

} // verus!
