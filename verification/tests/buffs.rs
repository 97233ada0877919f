use primemh::buffs::shown_buff_bar_icons;
use primemh::buffs::{buff_bar_icons, get_buff_bar_icon, BuffGroup, FrameColor, State};

#[test]
fn aura_buff_and_debuff_icons() {
    let icon = get_buff_bar_icon(&State::Conviction).unwrap();
    assert_eq!(icon.image_name, "Conviction");
    assert_eq!(icon.buff_group, BuffGroup::Aura);
    let icon = get_buff_bar_icon(&State::BattleOrders).unwrap();
    assert_eq!(icon.image_name, "BattleOrders");
    assert_eq!(icon.buff_group, BuffGroup::Buff);
    let icon = get_buff_bar_icon(&State::AmplifyDamage).unwrap();
    assert_eq!(icon.image_name, "AmplifyDamage");
    assert_eq!(icon.buff_group, BuffGroup::Debuff);
}

#[test]
fn no_state_has_no_icon() {
    assert!(get_buff_bar_icon(&State::NoState).is_none());
    assert_eq!(State::NoState.to_string(), "None");
}

#[test]
fn bar_keeps_order_and_skips_no_state() {
    let states = vec![State::NoState, State::Might, State::NoState, State::Poison, State::Fade];
    let icons = buff_bar_icons(&states);
    let names: Vec<&str> = icons.iter().map(|i| i.image_name.as_str()).collect();
    assert_eq!(names, vec!["Might", "Poison", "Fade"]);
    assert_eq!(icons[1].buff_group, BuffGroup::Debuff);
    assert!(buff_bar_icons(&vec![]).is_empty());
}

#[test]
fn frame_colours_follow_groups() {
    assert_eq!(BuffGroup::Debuff.frame_color(), FrameColor::Red);
    assert_eq!(BuffGroup::Buff.frame_color(), FrameColor::Green);
    assert_eq!(BuffGroup::Aura.frame_color(), FrameColor::Yellow);
    assert_eq!(BuffGroup::Passive.frame_color(), FrameColor::Gray);
}

#[test]
fn disabled_bar_shows_nothing() {
    let states = vec![State::Might, State::Poison];
    assert!(shown_buff_bar_icons(false, &states).is_empty());
    assert_eq!(shown_buff_bar_icons(true, &states).len(), 2);
}
