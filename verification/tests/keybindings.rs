use primemh::keybindings::{KeyBind, KeyBinding, KeyBindings, SkillBinding, SkillBindings};

#[test]
fn commands_are_numbered_in_order() {
    assert_eq!(KeyBind::from_u16(0), Some(KeyBind::CharacterScreen));
    assert_eq!(KeyBind::from_u16(14), Some(KeyBind::Skill1));
    assert_eq!(KeyBind::from_u16(60), Some(KeyBind::HoradricCube));
    assert_eq!(KeyBind::from_u16(64), Some(KeyBind::NoBinding));
    assert_eq!(KeyBind::from_u16(65), None);
    assert_eq!(KeyBind::from_u16(u16::MAX), None);
}

#[test]
fn defaults_are_empty() {
    let b = KeyBinding::default();
    assert_eq!(b.command, KeyBind::NoBinding);
    assert_eq!((b.key, b.is_primary, b._dummy, b._dummy2), (0, 0, 0, 0));
    let s = SkillBinding::default();
    assert_eq!(s.skill_id, 0);
    assert_eq!(s.dummy, [0u8; 26]);
    let all = KeyBindings::default();
    assert!(all.bindings.iter().all(|b| b.command == KeyBind::NoBinding && b.key == 0));
    assert!(all.skill_keys.iter().all(|s| s.skill_id == 0));
    assert!(SkillBindings::default().skill_keys.iter().all(|s| s.skill_id == 0));
}

#[test]
fn new_takes_bindings_and_skill_keys_from_their_blocks() {
    let mut bindings = KeyBindings::default();
    bindings.bindings[3].command = KeyBind::Automap;
    bindings.bindings[3].key = 9;
    bindings.skill_keys[0].skill_id = 77;
    let mut skills = SkillBindings::default();
    skills.skill_keys[5].skill_id = 42;
    let kb = KeyBindings::new(&bindings, &skills);
    assert_eq!(kb.bindings[3].command, KeyBind::Automap);
    assert_eq!(kb.bindings[3].key, 9);
    assert_eq!(kb.skill_keys[5].skill_id, 42);
    assert_eq!(kb.skill_keys[0].skill_id, 0);
}
