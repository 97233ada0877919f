use vstd::prelude::*;
use crate::text::{decimal_pad2, upper_hex, write_decimal_pad2, write_digits};

verus! {

broadcast use vstd::string::group_string_axioms;

/// The states that never get a timer line: no state, the healing and mana
/// potion effects, the entrance cooldown, the shared cooldown and miasma chains.
pub open spec fn is_hidden_state(state_id: u32) -> bool {
    state_id == 0x00 || state_id == 0x64 || state_id == 0x66 || state_id == 0x6A || state_id == 0xB9
        || state_id == 0xE6
}

/// Whether a state never gets a timer line.
pub fn is_blacklisted_state(state_id: u32) -> (hidden: bool)
    ensures
        hidden == is_hidden_state(state_id),
{
    state_id == 0x00 || state_id == 0x64 || state_id == 0x66 || state_id == 0x6A || state_id == 0xB9
        || state_id == 0xE6
}

/// The name under which a state's timer is shown, for the states that have one.
pub open spec fn known_state_name(state_id: u32) -> Option<Seq<char>> {
    match state_id {
        0x01 => Some("冻结状态"@),
        0x02 => Some("中毒状态"@),
        0x09 => Some("伤害加深"@),
        0x0B => Some("冰寒状态"@),
        0x1C => Some("审判光环"@),
        0x2C => Some("冰冻光环"@),
        0x80 => Some("护甲神殿"@),
        0x82 => Some("抗电神殿"@),
        0x83 => Some("抗火神殿"@),
        0x84 => Some("抗寒神殿"@),
        0x85 => Some("抗毒神殿"@),
        0x86 => Some("技能神殿"@),
        0x89 => Some("经验神殿"@),
        0xB2 => Some("解毒药水"@),
        0xB3 => Some("融冰药水"@),
        0xB4 => Some("精力药水"@),
        0xCD => Some("咒印状态"@),
        0xD0 => Some("吞噬状态"@),
        _ => None,
    }
}

fn known_state_label(state_id: u32) -> (name: Option<&'static str>)
    ensures
        match name {
            Some(n) => known_state_name(state_id) == Some(n@),
            None => known_state_name(state_id) is None,
        },
{
    match state_id {
        0x01 => Some("冻结状态"),
        0x02 => Some("中毒状态"),
        0x09 => Some("伤害加深"),
        0x0B => Some("冰寒状态"),
        0x1C => Some("审判光环"),
        0x2C => Some("冰冻光环"),
        0x80 => Some("护甲神殿"),
        0x82 => Some("抗电神殿"),
        0x83 => Some("抗火神殿"),
        0x84 => Some("抗寒神殿"),
        0x85 => Some("抗毒神殿"),
        0x86 => Some("技能神殿"),
        0x89 => Some("经验神殿"),
        0xB2 => Some("解毒药水"),
        0xB3 => Some("融冰药水"),
        0xB4 => Some("精力药水"),
        0xCD => Some("咒印状态"),
        0xD0 => Some("吞噬状态"),
        _ => None,
    }
}

/// The name shown for a state: its own name when it has one, else its id in
/// upper-case hexadecimal.
pub open spec fn state_display_name_spec(state_id: u32) -> Seq<char> {
    match known_state_name(state_id) {
        Some(n) => n,
        None => upper_hex(state_id as nat),
    }
}

/// The name shown for a state.
pub fn state_display_name(state_id: u32) -> (name: String)
    ensures
        name@ == state_display_name_spec(state_id),
{
    match known_state_label(state_id) {
        Some(n) => String::from_str(n),
        None => {
            let mut s = String::new();
            write_digits(&mut s, state_id as u64, 16);
            assert(s@ =~= upper_hex(state_id as nat));
            s
        },
    }
}

/// Whether a state gets a timer line: it is not of unit type 4 and it has an
/// end frame.
pub fn shows_timer(unit_type: u32, duration_end_frame_low: u32) -> (shown: bool)
    ensures
        shown == (unit_type != 4 && duration_end_frame_low > 0),
{
    unit_type != 4 && duration_end_frame_low > 0
}

/// The game runs 25 frames a second.
pub const FRAMES_PER_SECOND: u32 = 25;

/// A duration in seconds as `hh:mm:ss` (hours take more digits when needed).
pub open spec fn hms_text(total_seconds: nat) -> Seq<char> {
    decimal_pad2(total_seconds / 3600) + ":"@ + decimal_pad2((total_seconds % 3600) / 60) + ":"@
        + decimal_pad2(total_seconds % 60)
}

/// The timer line of a state: its name, a full-width colon, and the whole
/// seconds left until its end frame.
pub open spec fn buff_timer_text_spec(state_id: u32, end_frame: u32, current_frame: u32) -> Seq<char> {
    state_display_name_spec(state_id) + "："@ + hms_text(((end_frame - current_frame) / 25) as nat)
}

/// The timer line of a state that ends at `end_frame`, seen at `current_frame`.
pub fn buff_timer_text(state_id: u32, end_frame: u32, current_frame: u32) -> (text: String)
    requires
        current_frame <= end_frame,
    ensures
        text@ == buff_timer_text_spec(state_id, end_frame, current_frame),
{
    let total_seconds = (end_frame - current_frame) / FRAMES_PER_SECOND;
    let hours = total_seconds / 3600;
    let minutes = (total_seconds % 3600) / 60;
    let seconds = total_seconds % 60;
    let mut text = state_display_name(state_id);
    text.append("：");
    write_decimal_pad2(&mut text, hours as u64);
    text.append(":");
    write_decimal_pad2(&mut text, minutes as u64);
    text.append(":");
    write_decimal_pad2(&mut text, seconds as u64);
    assert(text@ =~= buff_timer_text_spec(state_id, end_frame, current_frame));
    text
}

/// The hours, minutes and seconds shown add up to the seconds left, with
/// minutes and seconds below 60.
pub proof fn lemma_hms_decomposes(total_seconds: nat)
    ensures
        (total_seconds / 3600) * 3600 + ((total_seconds % 3600) / 60) * 60 + total_seconds % 60
            == total_seconds,
        (total_seconds % 3600) / 60 < 60,
        total_seconds % 60 < 60,
{
    assert((total_seconds / 3600) * 3600 + ((total_seconds % 3600) / 60) * 60 + total_seconds % 60
        == total_seconds) by (nonlinear_arith);
    assert((total_seconds % 3600) / 60 < 60) by (nonlinear_arith);
}

/// One record of the player's chain of states, as read from the game: the
/// state's id, the type of the unit that set it, the low word of its end
/// frame, and that end frame in whole frames.
#[derive(Debug, Clone, Copy, PartialEq, Eq)]
pub struct StateRecord {
    pub state_id: u32,
    pub unit_type: u32,
    pub duration_end_frame_low: u32,
    pub end_frame: u32,
}

/// Whether a record of the chain gets a timer line: its state is not hidden,
/// it was not set by a unit of type 4, and it has an end frame.
pub open spec fn record_shown(r: StateRecord) -> bool {
    !is_hidden_state(r.state_id) && r.unit_type != 4 && r.duration_end_frame_low > 0
}

/// The timer lines of a chain of states, top to bottom, in the order of the chain.
pub open spec fn timer_lines_spec(records: Seq<StateRecord>, current_frame: u32) -> Seq<Seq<char>>
    decreases records.len(),
{
    if records.len() == 0 {
        seq![]
    } else {
        let rest = timer_lines_spec(records.drop_last(), current_frame);
        let r = records.last();
        if record_shown(r) {
            rest.push(buff_timer_text_spec(r.state_id, r.end_frame, current_frame))
        } else {
            rest
        }
    }
}

/// The timer lines shown for the player's chain of states at `current_frame`.
pub fn buff_timer_lines(records: &Vec<StateRecord>, current_frame: u32) -> (lines: Vec<String>)
    requires
        forall|i: int|
            0 <= i < records@.len() && record_shown(#[trigger] records@[i]) ==> current_frame
                <= records@[i].end_frame,
    ensures
        lines@.map_values(|l: String| l@) == timer_lines_spec(records@, current_frame),
{
    let mut lines: Vec<String> = Vec::new();
    for i in 0..records.len()
        invariant
            forall|k: int|
                0 <= k < records@.len() && record_shown(#[trigger] records@[k]) ==> current_frame
                    <= records@[k].end_frame,
            lines@.map_values(|l: String| l@) == timer_lines_spec(records@.take(i as int), current_frame),
    {
        assert(records@.take(i + 1).drop_last() =~= records@.take(i as int));
        let r = records[i];
        if !is_blacklisted_state(r.state_id) && shows_timer(r.unit_type, r.duration_end_frame_low) {
            assert(record_shown(records@[i as int]));
            let line = buff_timer_text(r.state_id, r.end_frame, current_frame);
            lines.push(line);
            assert(lines@.map_values(|l: String| l@) =~= timer_lines_spec(records@.take(i + 1), current_frame));
        }
    }
    assert(records@.take(records@.len() as int) =~= records@);
    lines
}

/// The six hidden states (no state 0x00, healing potion 0x64, entrance
/// cooldown 0x66, mana potion 0x6A, shared cooldown 0xB9, miasma chains 0xE6)
/// never get a timer line, whatever their unit type and end frame.
pub proof fn lemma_hidden_states_have_no_line(r: StateRecord)
    requires
        r.state_id == 0x00 || r.state_id == 0x64 || r.state_id == 0x66 || r.state_id == 0x6A
            || r.state_id == 0xB9 || r.state_id == 0xE6,
    ensures
        is_hidden_state(r.state_id),
        !record_shown(r),
{
}

/// Every timer line comes from a record of the chain that is shown: a chain
/// has at most as many lines as records, and a chain made only of hidden
/// states (ids 0x00, 0x64, 0x66, 0x6A, 0xB9, 0xE6) has none.
pub proof fn lemma_timer_lines_only_for_shown(records: Seq<StateRecord>, current_frame: u32)
    ensures
        timer_lines_spec(records, current_frame).len() <= records.len(),
        (forall|i: int|
            0 <= i < records.len() ==> (#[trigger] records[i].state_id == 0x00 || records[i].state_id
                == 0x64 || records[i].state_id == 0x66 || records[i].state_id == 0x6A
                || records[i].state_id == 0xB9 || records[i].state_id == 0xE6))
            ==> timer_lines_spec(records, current_frame).len() == 0,
    decreases records.len(),
{
    if records.len() > 0 {
        lemma_timer_lines_only_for_shown(records.drop_last(), current_frame);
        let rest = records.drop_last();
        if forall|i: int|
            0 <= i < records.len() ==> (#[trigger] records[i].state_id == 0x00 || records[i].state_id
                == 0x64 || records[i].state_id == 0x66 || records[i].state_id == 0x6A
                || records[i].state_id == 0xB9 || records[i].state_id == 0xE6) {
            assert forall|i: int|
                0 <= i < rest.len() implies (#[trigger] rest[i].state_id == 0x00 || rest[i].state_id
                == 0x64 || rest[i].state_id == 0x66 || rest[i].state_id == 0x6A
                || rest[i].state_id == 0xB9 || rest[i].state_id == 0xE6) by {
                assert(rest[i] == records[i]);
            }
            assert(records[records.len() - 1].state_id == records.last().state_id);
        }
    }
}

/// A timer line is the state's name, a full-width colon, and the hours,
/// minutes and seconds left (two digits at least each, separated by `:`): the
/// game runs 25 frames a second, and the hours, minutes below 60 and seconds
/// below 60 add up to the whole seconds between the current and the end frame.
pub proof fn lemma_timer_text_parts(state_id: u32, end_frame: u32, current_frame: u32)
    requires
        current_frame <= end_frame,
    ensures
        exists|h: nat, m: nat, sec: nat|
            {
                &&& #[trigger] buff_timer_text_spec(state_id, end_frame, current_frame)
                    == state_display_name_spec(state_id) + "："@ + decimal_pad2(h) + ":"@ + decimal_pad2(m)
                    + ":"@ + decimal_pad2(sec)
                &&& h * 3600 + m * 60 + sec == (end_frame - current_frame) / 25
                &&& m < 60
                &&& sec < 60
            },
{
    let total = ((end_frame - current_frame) / 25) as nat;
    lemma_hms_decomposes(total);
    let h = total / 3600;
    let m = (total % 3600) / 60;
    let sec = total % 60;
    assert(buff_timer_text_spec(state_id, end_frame, current_frame) == state_display_name_spec(
        state_id,
    ) + "："@ + decimal_pad2(h) + ":"@ + decimal_pad2(m) + ":"@ + decimal_pad2(sec));
}

/// The states shown by name: frozen, poisoned, amplified damage, chilled,
/// conviction, holy freeze, the armor, lightning, fire, cold, poison, skill and
/// experience shrines, the antidote, thawing and stamina potions, and the states
/// 0xCD and 0xD0; every other state is shown by its id in upper-case hexadecimal.
pub proof fn lemma_state_names(id: u32)
    requires
        id != 0x01,
        id != 0x02,
        id != 0x09,
        id != 0x0B,
        id != 0x1C,
        id != 0x2C,
        id != 0x80,
        id != 0x82,
        id != 0x83,
        id != 0x84,
        id != 0x85,
        id != 0x86,
        id != 0x89,
        id != 0xB2,
        id != 0xB3,
        id != 0xB4,
        id != 0xCD,
        id != 0xD0,
    ensures
        state_display_name_spec(0x01) == "冻结状态"@,
        state_display_name_spec(0x02) == "中毒状态"@,
        state_display_name_spec(0x09) == "伤害加深"@,
        state_display_name_spec(0x0B) == "冰寒状态"@,
        state_display_name_spec(0x1C) == "审判光环"@,
        state_display_name_spec(0x2C) == "冰冻光环"@,
        state_display_name_spec(0x80) == "护甲神殿"@,
        state_display_name_spec(0x82) == "抗电神殿"@,
        state_display_name_spec(0x83) == "抗火神殿"@,
        state_display_name_spec(0x84) == "抗寒神殿"@,
        state_display_name_spec(0x85) == "抗毒神殿"@,
        state_display_name_spec(0x86) == "技能神殿"@,
        state_display_name_spec(0x89) == "经验神殿"@,
        state_display_name_spec(0xB2) == "解毒药水"@,
        state_display_name_spec(0xB3) == "融冰药水"@,
        state_display_name_spec(0xB4) == "精力药水"@,
        state_display_name_spec(0xCD) == "咒印状态"@,
        state_display_name_spec(0xD0) == "吞噬状态"@,
        state_display_name_spec(id) == upper_hex(id as nat),
{
}

} // verus!
