use primemh::localisation::char_is_whitespace;
use primemh::localisation::{
    a_default, load_localisation_data, trim_byte_order_marks, vec_to_hashmap, LocalisationEntry,
    LocalisationTable, Locales,
};

fn entry(id: u32, key: &str, en: &str, de: &str) -> LocalisationEntry {
    LocalisationEntry {
        id,
        Key: key.to_string(),
        enUS: en.to_string(),
        zhTW: format!("{}-zh", en),
        deDE: de.to_string(),
        esES: format!("{}-es", en),
        frFR: format!("{}-fr", en),
        itIT: format!("{}-it", en),
        koKR: format!("{}-ko", en),
        plPL: format!("{}-pl", en),
        enBG: format!("{}-bg", en),
    }
}

fn npcs() -> Vec<LocalisationEntry> {
    vec![
        entry(1, "Akara", "Akara", "Akara (de)"),
        entry(2, "Deckard-Cain", "Deckard Cain", "Deckard Cain (de)"),
        entry(3, "Warriv", "Warriv", "Warriv (de)"),
    ]
}

fn load(npcs: Vec<LocalisationEntry>) -> primemh::localisation::Localisation {
    load_localisation_data(
        vec![], vec![], vec![], vec![], vec![], vec![], vec![], vec![], npcs, vec![], vec![],
        vec![], vec![], vec![],
    )
}

#[test]
fn default_id_is_one() {
    assert_eq!(a_default(), 1);
}

#[test]
fn table_keys_are_lower_case_without_dashes() {
    let table = vec_to_hashmap(npcs());
    assert_eq!(table.get(&"deckardcain".to_string()).unwrap().id, 2);
    assert_eq!(table.get(&"akara".to_string()).unwrap().id, 1);
    assert!(table.get(&"Akara".to_string()).is_none());
    assert!(table.get(&"deckard-cain".to_string()).is_none());
}

#[test]
fn later_entry_replaces_earlier_one() {
    let table = vec_to_hashmap(vec![
        entry(1, "Kashya", "Kashya", "a"),
        entry(2, "KASH-YA", "Kashya 2", "b"),
    ]);
    assert_eq!(table.get(&"kashya".to_string()).unwrap().id, 2);
}

#[test]
fn insert_then_get() {
    let mut t = LocalisationTable::new();
    assert!(t.get(&"x".to_string()).is_none());
    t.insert("x".to_string(), entry(5, "X", "x", "x"));
    t.insert("y".to_string(), entry(6, "Y", "y", "y"));
    t.insert("x".to_string(), entry(7, "X", "x2", "x2"));
    assert_eq!(t.get(&"x".to_string()).unwrap().id, 7);
    assert_eq!(t.get(&"y".to_string()).unwrap().id, 6);
}

#[test]
fn npc_name_ignores_digits_spaces_and_case() {
    let l = load(npcs());
    assert_eq!(l.get_npc_name(&"Akara".to_string(), &Locales::enUS), "Akara");
    assert_eq!(l.get_npc_name(&"akara 2".to_string(), &Locales::deDE), "Akara (de)");
    assert_eq!(l.get_npc_name(&" War riv\t7".to_string(), &Locales::zhTW), "Warriv-zh");
}

#[test]
fn npc_name_in_each_locale() {
    let l = load(npcs());
    let k = "Warriv".to_string();
    assert_eq!(l.get_npc_name(&k, &Locales::esES), "Warriv-es");
    assert_eq!(l.get_npc_name(&k, &Locales::frFR), "Warriv-fr");
    assert_eq!(l.get_npc_name(&k, &Locales::itIT), "Warriv-it");
    assert_eq!(l.get_npc_name(&k, &Locales::koKR), "Warriv-ko");
    assert_eq!(l.get_npc_name(&k, &Locales::plPL), "Warriv-pl");
    assert_eq!(l.get_npc_name(&k, &Locales::enBG), "Warriv");
    assert_eq!(l.get_npc_name(&k, &Locales::Unknown), "Warriv");
}

#[test]
fn unknown_npc_gives_empty_name() {
    let l = load(npcs());
    assert_eq!(l.get_npc_name(&"Charsi".to_string(), &Locales::enUS), "");
    // the dash of a lookup name is kept, so it does not match the table key
    assert_eq!(l.get_npc_name(&"Deckard-Cain".to_string(), &Locales::enUS), "");
    assert_eq!(l.get_npc_name(&"Deckard Cain".to_string(), &Locales::enUS), "Deckard Cain");
}

#[test]
fn unicode_lower_casing_is_used() {
    let l = load(vec![entry(9, "ÄRGER", "Ärger", "Ärger")]);
    assert_eq!(l.get_npc_name(&"ärger".to_string(), &Locales::enUS), "Ärger");
    // U+3000 is white space
    assert_eq!(l.get_npc_name(&"Är\u{3000}ger".to_string(), &Locales::enUS), "Ärger");
}

#[test]
fn byte_order_marks_are_trimmed() {
    assert_eq!(trim_byte_order_marks("\u{feff}[1]"), "[1]");
    assert_eq!(trim_byte_order_marks("\u{feff}\u{feff}x\u{feff}"), "x\u{feff}");
    assert_eq!(trim_byte_order_marks("plain"), "plain");
    assert_eq!(trim_byte_order_marks(""), "");
    assert_eq!(trim_byte_order_marks("\u{feff}"), "");
}

#[test]
fn npc_is_found_by_its_own_key() {
    let l = load(vec![
        entry(1, "Gheed", "Gheed", "Gheed (de)"),
        entry(2, "Kashya", "Kashya", "Kashya (de)"),
    ]);
    assert_eq!(l.get_npc_name(&"Gheed".to_string(), &Locales::enUS), "Gheed");
    assert_eq!(l.get_npc_name(&"Kashya".to_string(), &Locales::frFR), "Kashya-fr");
}

#[test]
fn white_space_characters_are_dropped_from_npc_names() {
    let l = load(vec![entry(1, "Gheed", "Gheed", "Gheed (de)")]);
    for ws in ["\u{85}", "\u{a0}", "\u{1680}", "\u{2000}", "\u{200a}", "\u{2028}", "\u{2029}", "\u{202f}", "\u{205f}", "\r\n"] {
        assert_eq!(l.get_npc_name(&format!("Gh{}eed", ws), &Locales::enUS), "Gheed");
    }
    // U+200B (zero width space) is not white space
    assert_eq!(l.get_npc_name(&"Gh\u{200b}eed".to_string(), &Locales::enUS), "");
}

#[test]
fn white_space_agrees_with_std_on_every_char() {
    for u in 0..=0x10FFFFu32 {
        if let Some(c) = char::from_u32(u) {
            assert_eq!(char_is_whitespace(c), c.is_whitespace(), "U+{:04X}", u);
        }
    }
}
