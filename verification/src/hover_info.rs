use vstd::prelude::*;
use crate::text::{decimal, signed_decimal, write_decimal, write_signed_decimal};

verus! {

broadcast use vstd::string::group_string_axioms;

/// One entry of a unit's stat list as the game stores it: the stat's id and
/// its value in two 16-bit halves.
#[derive(Debug, Clone, Copy, PartialEq, Eq)]
pub struct StatValue {
    pub stat: u16,
    pub value: i16,
    pub value2: i16,
}

/// The stat ids read from a hovered monster.
pub const STAT_HP: u16 = 6;
pub const STAT_MAX_HP: u16 = 7;
pub const STAT_LEVEL: u16 = 12;
pub const STAT_RES_PHYSICAL: u16 = 36;
pub const STAT_RES_MAGIC: u16 = 37;
pub const STAT_RES_FIRE: u16 = 39;
pub const STAT_RES_LIGHTNING: u16 = 41;
pub const STAT_RES_COLD: u16 = 43;
pub const STAT_RES_POISON: u16 = 45;

/// The 32-bit value of a stat: the low half from `value`, the high half from `value2`.
pub open spec fn full_value_spec(s: StatValue) -> u32 {
    ((s.value as u16) as int + (s.value2 as u16) as int * 65536) as u32
}

/// The 32-bit value of a stat.
pub fn stat_full_value(s: &StatValue) -> (v: u32)
    ensures
        v == full_value_spec(*s),
{
    let lo: i16 = s.value;
    let hi: i16 = s.value2;
    let v: u32 = ((lo as u32) & 0xFFFF) | (((hi as u32) & 0xFFFF) << 16);
    assert(((lo as u32) & 0xFFFF) | (((hi as u32) & 0xFFFF) << 16) == (lo as u16) as u32 + (
    hi as u16) as u32 * 65536) by (bit_vector);
    v
}

/// The last entry of the list with the given stat id, if any.
pub open spec fn last_stat(stats: Seq<StatValue>, id: u16) -> Option<StatValue>
    decreases stats.len(),
{
    if stats.len() == 0 {
        None
    } else if stats.last().stat == id {
        Some(stats.last())
    } else {
        last_stat(stats.drop_last(), id)
    }
}

/// What the overlay shows of a hovered monster.
#[derive(Debug, Clone, Copy, PartialEq, Eq)]
pub struct MonsterStats {
    pub level: Option<u32>,
    pub cur_hp: Option<u32>,
    pub max_hp: Option<u32>,
    pub res_physical: Option<i32>,
    pub res_magic: Option<i32>,
    pub res_fire: Option<i32>,
    pub res_cold: Option<i32>,
    pub res_lightning: Option<i32>,
    pub res_poison: Option<i32>,
}

/// A hit point stat counts in 1/256ths of a point.
pub open spec fn hp_of(s: Option<StatValue>) -> Option<u32> {
    match s {
        Some(v) => Some((full_value_spec(v) / 256) as u32),
        None => None,
    }
}

/// The level is the stat's full value.
pub open spec fn level_of(s: Option<StatValue>) -> Option<u32> {
    match s {
        Some(v) => Some(full_value_spec(v)),
        None => None,
    }
}

/// A resistance is the stat's low half, signed.
pub open spec fn resist_of(s: Option<StatValue>) -> Option<i32> {
    match s {
        Some(v) => Some(v.value as i32),
        None => None,
    }
}

/// The monster's level and hit points from its stat list and its resistances
/// from its extra stat list; for each, the last entry with its id counts.
pub open spec fn monster_stats_of(stats: Seq<StatValue>, stats_ex: Seq<StatValue>) -> MonsterStats {
    MonsterStats {
        level: level_of(last_stat(stats, STAT_LEVEL)),
        cur_hp: hp_of(last_stat(stats, STAT_HP)),
        max_hp: hp_of(last_stat(stats, STAT_MAX_HP)),
        res_physical: resist_of(last_stat(stats_ex, STAT_RES_PHYSICAL)),
        res_magic: resist_of(last_stat(stats_ex, STAT_RES_MAGIC)),
        res_fire: resist_of(last_stat(stats_ex, STAT_RES_FIRE)),
        res_cold: resist_of(last_stat(stats_ex, STAT_RES_COLD)),
        res_lightning: resist_of(last_stat(stats_ex, STAT_RES_LIGHTNING)),
        res_poison: resist_of(last_stat(stats_ex, STAT_RES_POISON)),
    }
}

/// Reads a monster's level and hit points from its stat list and its
/// resistances from its extra stat list.
pub fn read_monster_stats(stats: &Vec<StatValue>, stats_ex: &Vec<StatValue>) -> (m: MonsterStats)
    ensures
        m == monster_stats_of(stats@, stats_ex@),
{
    let mut monster_lv: Option<u32> = None;
    let mut cur_hp_raw: Option<u32> = None;
    let mut max_hp_raw: Option<u32> = None;
    for i in 0..stats.len()
        invariant
            monster_lv == level_of(last_stat(stats@.take(i as int), STAT_LEVEL)),
            cur_hp_raw == hp_of(last_stat(stats@.take(i as int), STAT_HP)),
            max_hp_raw == hp_of(last_stat(stats@.take(i as int), STAT_MAX_HP)),
    {
        assert(stats@.take(i + 1).drop_last() =~= stats@.take(i as int));
        let item = stats[i];
        let full_value = stat_full_value(&item);
        assert(full_value >> 8 == full_value / 256) by (bit_vector);
        if item.stat == STAT_HP {
            cur_hp_raw = Some(full_value >> 8);
        } else if item.stat == STAT_MAX_HP {
            max_hp_raw = Some(full_value >> 8);
        } else if item.stat == STAT_LEVEL {
            monster_lv = Some(full_value);
        }
    }
    assert(stats@.take(stats@.len() as int) =~= stats@);
    let mut res_phys: Option<i32> = None;
    let mut res_mag: Option<i32> = None;
    let mut res_fire: Option<i32> = None;
    let mut res_cold: Option<i32> = None;
    let mut res_light: Option<i32> = None;
    let mut res_pois: Option<i32> = None;
    for i in 0..stats_ex.len()
        invariant
            res_phys == resist_of(last_stat(stats_ex@.take(i as int), STAT_RES_PHYSICAL)),
            res_mag == resist_of(last_stat(stats_ex@.take(i as int), STAT_RES_MAGIC)),
            res_fire == resist_of(last_stat(stats_ex@.take(i as int), STAT_RES_FIRE)),
            res_cold == resist_of(last_stat(stats_ex@.take(i as int), STAT_RES_COLD)),
            res_light == resist_of(last_stat(stats_ex@.take(i as int), STAT_RES_LIGHTNING)),
            res_pois == resist_of(last_stat(stats_ex@.take(i as int), STAT_RES_POISON)),
    {
        assert(stats_ex@.take(i + 1).drop_last() =~= stats_ex@.take(i as int));
        let item = stats_ex[i];
        let v: i32 = item.value as i32;
        if item.stat == STAT_RES_PHYSICAL {
            res_phys = Some(v);
        } else if item.stat == STAT_RES_MAGIC {
            res_mag = Some(v);
        } else if item.stat == STAT_RES_FIRE {
            res_fire = Some(v);
        } else if item.stat == STAT_RES_LIGHTNING {
            res_light = Some(v);
        } else if item.stat == STAT_RES_COLD {
            res_cold = Some(v);
        } else if item.stat == STAT_RES_POISON {
            res_pois = Some(v);
        }
    }
    assert(stats_ex@.take(stats_ex@.len() as int) =~= stats_ex@);
    MonsterStats {
        level: monster_lv,
        cur_hp: cur_hp_raw,
        max_hp: max_hp_raw,
        res_physical: res_phys,
        res_magic: res_mag,
        res_fire: res_fire,
        res_cold: res_cold,
        res_lightning: res_light,
        res_poison: res_pois,
    }
}


/// `i` is the last position of the list holding an entry with stat id `id`.
pub open spec fn is_last_with(stats: Seq<StatValue>, id: u16, i: int) -> bool {
    &&& 0 <= i < stats.len()
    &&& stats[i].stat == id
    &&& forall|j: int| i < j < stats.len() ==> #[trigger] stats[j].stat != id
}

/// No entry of the list has stat id `id`.
pub open spec fn has_none_with(stats: Seq<StatValue>, id: u16) -> bool {
    forall|j: int| 0 <= j < stats.len() ==> #[trigger] stats[j].stat != id
}

/// The last entry with an id is the one found; with no such entry none is.
pub proof fn lemma_last_stat_found(stats: Seq<StatValue>, id: u16)
    ensures
        forall|i: int| is_last_with(stats, id, i) ==> last_stat(stats, id) == Some(stats[i]),
        has_none_with(stats, id) ==> last_stat(stats, id) is None,
    decreases stats.len(),
{
    if stats.len() > 0 {
        let rest = stats.drop_last();
        lemma_last_stat_found(rest, id);
        assert forall|i: int| is_last_with(stats, id, i) implies last_stat(stats, id) == Some(stats[i]) by {
            if i < stats.len() - 1 {
                assert(stats[stats.len() - 1].stat != id);
                assert forall|j: int| i < j < rest.len() implies #[trigger] rest[j].stat != id by {
                    assert(rest[j] == stats[j]);
                }
                assert(is_last_with(rest, id, i));
            }
        }
        if has_none_with(stats, id) {
            assert(stats[stats.len() - 1].stat != id);
            assert forall|j: int| 0 <= j < rest.len() implies #[trigger] rest[j].stat != id by {
                assert(rest[j] == stats[j]);
            }
        }
    }
}

/// Which stat the overlay shows where, by the game's stat ids: the current hit
/// points are the last entry with id 6 and the maximum the last with id 7, both
/// in 1/256ths of a point; the level is the last entry with id 12; among the
/// extra stats the last entry with id 36 is the physical resistance, 37 magic,
/// 39 fire, 41 lightning, 43 cold and 45 poison, each the entry's low half,
/// signed. A value whose id is missing is not shown.
pub proof fn lemma_monster_stat_ids(stats: Seq<StatValue>, stats_ex: Seq<StatValue>)
    ensures
        forall|i: int| is_last_with(stats, 6, i) ==> monster_stats_of(stats, stats_ex).cur_hp == Some(
            (((stats[i].value as u16) as int + (stats[i].value2 as u16) as int * 65536) / 256) as u32,
        ),
        forall|i: int| is_last_with(stats, 7, i) ==> monster_stats_of(stats, stats_ex).max_hp == Some(
            (((stats[i].value as u16) as int + (stats[i].value2 as u16) as int * 65536) / 256) as u32,
        ),
        forall|i: int| is_last_with(stats, 12, i) ==> monster_stats_of(stats, stats_ex).level == Some(
            ((stats[i].value as u16) as int + (stats[i].value2 as u16) as int * 65536) as u32,
        ),
        forall|i: int| is_last_with(stats_ex, 36, i) ==> monster_stats_of(stats, stats_ex).res_physical
            == Some(stats_ex[i].value as i32),
        forall|i: int| is_last_with(stats_ex, 37, i) ==> monster_stats_of(stats, stats_ex).res_magic
            == Some(stats_ex[i].value as i32),
        forall|i: int| is_last_with(stats_ex, 39, i) ==> monster_stats_of(stats, stats_ex).res_fire
            == Some(stats_ex[i].value as i32),
        forall|i: int| is_last_with(stats_ex, 41, i) ==> monster_stats_of(stats, stats_ex).res_lightning
            == Some(stats_ex[i].value as i32),
        forall|i: int| is_last_with(stats_ex, 43, i) ==> monster_stats_of(stats, stats_ex).res_cold
            == Some(stats_ex[i].value as i32),
        forall|i: int| is_last_with(stats_ex, 45, i) ==> monster_stats_of(stats, stats_ex).res_poison
            == Some(stats_ex[i].value as i32),
        has_none_with(stats, 6) ==> monster_stats_of(stats, stats_ex).cur_hp is None,
        has_none_with(stats, 7) ==> monster_stats_of(stats, stats_ex).max_hp is None,
        has_none_with(stats, 12) ==> monster_stats_of(stats, stats_ex).level is None,
        has_none_with(stats_ex, 36) ==> monster_stats_of(stats, stats_ex).res_physical is None,
        has_none_with(stats_ex, 37) ==> monster_stats_of(stats, stats_ex).res_magic is None,
        has_none_with(stats_ex, 39) ==> monster_stats_of(stats, stats_ex).res_fire is None,
        has_none_with(stats_ex, 41) ==> monster_stats_of(stats, stats_ex).res_lightning is None,
        has_none_with(stats_ex, 43) ==> monster_stats_of(stats, stats_ex).res_cold is None,
        has_none_with(stats_ex, 45) ==> monster_stats_of(stats, stats_ex).res_poison is None,
{
    lemma_last_stat_found(stats, 6);
    lemma_last_stat_found(stats, 7);
    lemma_last_stat_found(stats, 12);
    lemma_last_stat_found(stats_ex, 36);
    lemma_last_stat_found(stats_ex, 37);
    lemma_last_stat_found(stats_ex, 39);
    lemma_last_stat_found(stats_ex, 41);
    lemma_last_stat_found(stats_ex, 43);
    lemma_last_stat_found(stats_ex, 45);
}

/// The share of hit points left, in whole percent (0 when the maximum is 0).
pub open spec fn hp_percent_spec(cur: u32, max: u32) -> u32 {
    if max > 0 {
        ((cur as int * 100) / (max as int)) as u32
    } else {
        0
    }
}

/// The share of hit points left, in whole percent (0 when the maximum is 0).
pub fn hp_percent(cur: u32, max: u32) -> (pct: u32)
    ensures
        pct == hp_percent_spec(cur, max),
{
    if max > 0 {
        (cur as u64 * 100 / max as u64) as u32
    } else {
        0
    }
}

/// The text colours of the hovered monster's line, as RGBA.
pub const COLOR_GOLD: u32 = 0xC6B276FF;
pub const COLOR_WHITE: u32 = 0xFFFFFFFF;
pub const COLOR_MAGIC: u32 = 0xE67E22FF;
pub const COLOR_FIRE: u32 = 0xE74C3CFF;
pub const COLOR_COLD: u32 = 0x5DADE2FF;
pub const COLOR_LIGHTNING: u32 = 0xF4D03FFF;
pub const COLOR_POISON: u32 = 0x2ECC71FF;

/// The segment of a resistance, `<label>:<value>`, when the monster has it.
pub open spec fn resist_segment(label: Seq<char>, r: Option<i32>, color: u32) -> Seq<(Seq<char>, u32)> {
    match r {
        Some(v) => seq![(label + ":"@ + signed_decimal(v as int), color)],
        None => seq![],
    }
}

/// The coloured text segments of the hovered monster's line: its level, its
/// hit points with their share, then its resistances (physical, magic, fire,
/// cold, lightning, poison), each only when known.
pub open spec fn monster_segments_spec(m: MonsterStats) -> Seq<(Seq<char>, u32)> {
    (match m.level {
        Some(lv) => seq![("Lv: "@ + decimal(lv as nat), COLOR_GOLD)],
        None => seq![],
    }) + (match (m.cur_hp, m.max_hp) {
        (Some(c), Some(x)) => seq![
            ("HP: "@ + decimal(c as nat) + "/"@ + decimal(x as nat) + " ("@ + decimal(
                hp_percent_spec(c, x) as nat,
            ) + "%)"@, COLOR_WHITE),
        ],
        _ => seq![],
    }) + resist_segment("物"@, m.res_physical, COLOR_GOLD) + resist_segment(
        "魔"@,
        m.res_magic,
        COLOR_MAGIC,
    ) + resist_segment("火"@, m.res_fire, COLOR_FIRE) + resist_segment("冰"@, m.res_cold, COLOR_COLD)
        + resist_segment("电"@, m.res_lightning, COLOR_LIGHTNING) + resist_segment(
        "毒"@,
        m.res_poison,
        COLOR_POISON,
    )
}


/// How each value of a hovered monster is labelled and coloured: the level as
/// `Lv: <n>` in gold, the hit points as `HP: <cur>/<max> (<pct>%)` in white,
/// and the resistances as `物` physical in gold, `魔` magic in orange, `火` fire
/// in red, `冰` cold in blue, `电` lightning in yellow and `毒` poison in green,
/// each followed by `:` and its signed value.
pub proof fn lemma_monster_segment_labels(v: i32, lv: u32, cur: u32, max: u32)
    ensures
        monster_segments_spec(MonsterStats { level: None, cur_hp: None, max_hp: None, res_physical: Some(v), res_magic: None, res_fire: None, res_cold: None, res_lightning: None, res_poison: None }) =~= seq![("物"@ + ":"@ + signed_decimal(v as int), 0xC6B276FFu32)],
        monster_segments_spec(MonsterStats { level: None, cur_hp: None, max_hp: None, res_physical: None, res_magic: Some(v), res_fire: None, res_cold: None, res_lightning: None, res_poison: None }) =~= seq![("魔"@ + ":"@ + signed_decimal(v as int), 0xE67E22FFu32)],
        monster_segments_spec(MonsterStats { level: None, cur_hp: None, max_hp: None, res_physical: None, res_magic: None, res_fire: Some(v), res_cold: None, res_lightning: None, res_poison: None }) =~= seq![("火"@ + ":"@ + signed_decimal(v as int), 0xE74C3CFFu32)],
        monster_segments_spec(MonsterStats { level: None, cur_hp: None, max_hp: None, res_physical: None, res_magic: None, res_fire: None, res_cold: Some(v), res_lightning: None, res_poison: None }) =~= seq![("冰"@ + ":"@ + signed_decimal(v as int), 0x5DADE2FFu32)],
        monster_segments_spec(MonsterStats { level: None, cur_hp: None, max_hp: None, res_physical: None, res_magic: None, res_fire: None, res_cold: None, res_lightning: Some(v), res_poison: None }) =~= seq![("电"@ + ":"@ + signed_decimal(v as int), 0xF4D03FFFu32)],
        monster_segments_spec(MonsterStats { level: None, cur_hp: None, max_hp: None, res_physical: None, res_magic: None, res_fire: None, res_cold: None, res_lightning: None, res_poison: Some(v) }) =~= seq![("毒"@ + ":"@ + signed_decimal(v as int), 0x2ECC71FFu32)],
        monster_segments_spec(MonsterStats { level: Some(lv), cur_hp: None, max_hp: None, res_physical: None, res_magic: None, res_fire: None, res_cold: None, res_lightning: None, res_poison: None }) =~= seq![("Lv: "@ + decimal(lv as nat), 0xC6B276FFu32)],
        monster_segments_spec(MonsterStats { level: None, cur_hp: Some(cur), max_hp: Some(max), res_physical: None, res_magic: None, res_fire: None, res_cold: None, res_lightning: None, res_poison: None })
            =~= seq![("HP: "@ + decimal(cur as nat) + "/"@ + decimal(max as nat) + " ("@ + decimal(hp_percent_spec(cur, max) as nat) + "%)"@, 0xFFFFFFFFu32)],
        monster_segments_spec(MonsterStats { level: None, cur_hp: Some(cur), max_hp: None, res_physical: None, res_magic: None, res_fire: None, res_cold: None, res_lightning: None, res_poison: None }).len() == 0,
        hp_percent_spec(cur, max) == (if max == 0 { 0 } else { ((cur as int * 100) / (max as int)) as u32 }),
{
}

/// The (text, colour) view of a list of segments.
pub open spec fn segments_view(s: Seq<(String, u32)>) -> Seq<(Seq<char>, u32)> {
    s.map_values(|p: (String, u32)| (p.0@, p.1))
}

fn push_resist(segments: &mut Vec<(String, u32)>, label: &str, r: Option<i32>, color: u32)
    ensures
        segments_view(final(segments)@) == segments_view(old(segments)@) + resist_segment(label@, r, color),
{
    match r {
        Some(v) => {
            let mut text = String::from_str(label);
            text.append(":");
            write_signed_decimal(&mut text, v as i64);
            segments.push((text, color));
            assert(segments_view(final(segments)@) =~= segments_view(old(segments)@) + resist_segment(label@, r, color));
        },
        None => {
            assert(segments_view(old(segments)@) + resist_segment(label@, r, color) =~= segments_view(old(segments)@));
        },
    }
}

/// The coloured text segments of the hovered monster's line.
pub fn monster_text_segments(m: &MonsterStats) -> (segments: Vec<(String, u32)>)
    ensures
        segments_view(segments@) == monster_segments_spec(*m),
{
    let mut segments: Vec<(String, u32)> = Vec::new();
    let ghost g0 = segments_view(segments@);
    match m.level {
        Some(lv) => {
            let mut text = String::from_str("Lv: ");
            write_decimal(&mut text, lv as u64);
            segments.push((text, COLOR_GOLD));
        },
        None => {},
    }
    let ghost g1 = segments_view(segments@);
    assert(g1 =~= g0 + (match m.level {
        Some(lv) => seq![("Lv: "@ + decimal(lv as nat), COLOR_GOLD)],
        None => seq![],
    }));
    match (m.cur_hp, m.max_hp) {
        (Some(cur_hp), Some(max_hp)) => {
            let pct = hp_percent(cur_hp, max_hp);
            let mut text = String::from_str("HP: ");
            write_decimal(&mut text, cur_hp as u64);
            text.append("/");
            write_decimal(&mut text, max_hp as u64);
            text.append(" (");
            write_decimal(&mut text, pct as u64);
            text.append("%)");
            segments.push((text, COLOR_WHITE));
        },
        _ => {},
    }
    let ghost g2 = segments_view(segments@);
    assert(g2 =~= g1 + (match (m.cur_hp, m.max_hp) {
        (Some(c), Some(x)) => seq![
            ("HP: "@ + decimal(c as nat) + "/"@ + decimal(x as nat) + " ("@ + decimal(
                hp_percent_spec(c, x) as nat,
            ) + "%)"@, COLOR_WHITE),
        ],
        _ => seq![],
    }));
    push_resist(&mut segments, "物", m.res_physical, COLOR_GOLD);
    push_resist(&mut segments, "魔", m.res_magic, COLOR_MAGIC);
    push_resist(&mut segments, "火", m.res_fire, COLOR_FIRE);
    push_resist(&mut segments, "冰", m.res_cold, COLOR_COLD);
    push_resist(&mut segments, "电", m.res_lightning, COLOR_LIGHTNING);
    push_resist(&mut segments, "毒", m.res_poison, COLOR_POISON);
    assert(segments_view(segments@) =~= monster_segments_spec(*m));
    segments
}

/// The id of the unit under the cursor when the game reports that the cursor
/// is over a monster: the hover flag is 1 and the unit kind is 1.
pub fn hovered_monster_id(hover_flag: u32, unit_kind: u32, unit_id: u32) -> (id: Option<u32>)
    ensures
        id == (if hover_flag == 1 && unit_kind == 1 { Some(unit_id) } else { None }),
{
    if hover_flag == 1 && unit_kind == 1 {
        Some(unit_id)
    } else {
        None
    }
}

/// The bucket of the game's unit table that holds a unit id.
pub fn unit_bucket_index(unit_id: u32) -> (bucket: usize)
    ensures
        bucket == unit_id % 128,
{
    let b: u32 = unit_id & 0x7F;
    assert(unit_id & 0x7F == unit_id % 128) by (bit_vector);
    b as usize
}

/// The next step of a walk along a bucket's chain of units.
#[derive(Debug, Clone, Copy, PartialEq, Eq)]
pub enum UnitSearch {
    /// The unit at the current link is the one looked for.
    Found,
    /// Follow the chain to this link.
    Next(u64),
    /// The chain ends without the unit.
    NotFound,
}

/// Whether a link of the unit chain ends it (0 and 1 both do).
pub open spec fn is_chain_end(link: u64) -> bool {
    link == 0 || link == 1
}

/// Whether a link of the unit chain ends it.
pub fn chain_ended(link: u64) -> (end: bool)
    ensures
        end == is_chain_end(link),
{
    link == 0 || link == 1
}

/// One step of the walk: the unit read at the current link is the one looked
/// for, or the walk goes on to its next link, or that link ends the chain.
pub fn unit_chain_step(unit_id: u32, next_link: u64, target: u32) -> (step: UnitSearch)
    ensures
        step == (if unit_id == target {
            UnitSearch::Found
        } else if is_chain_end(next_link) {
            UnitSearch::NotFound
        } else {
            UnitSearch::Next(next_link)
        }),
{
    if unit_id == target {
        UnitSearch::Found
    } else if chain_ended(next_link) {
        UnitSearch::NotFound
    } else {
        UnitSearch::Next(next_link)
    }
}

} // verus!
