use vstd::prelude::*;

verus! {

/// A game command that a key can be bound to, in the game's numbering
/// (the first command is 0, the next 1, and so on; `NoBinding` is last).
#[derive(Debug, Clone, Copy, PartialEq, Eq)]
pub enum KeyBind {
    CharacterScreen,
    Inventory,
    PartyScreen,
    MessageLog,
    QuestLog,
    Chat,
    HelpScreen,
    Automap,
    CenterAutomap,
    FadeAutomap,
    PartyOnAutomap,
    NamesOnAutomap,
    SkillTree,
    SkillSpeedBar,
    Skill1,
    Skill2,
    Skill3,
    Skill4,
    Skill5,
    Skill6,
    Skill7,
    Skill8,
    ShowBelt,
    UsePotion1,
    UsePotion2,
    UsePotion3,
    UsePotion4,
    SayHelp,
    SayFollowMe,
    SayThisIsForYou,
    SayThanks,
    SaySorry,
    SayBye,
    SayNowYouDie,
    HoldRun,
    ToggleRunWalk,
    StandStill,
    ShowItems,
    ClearScreen,
    SelectPreviousSkill,
    SelectNextSkill,
    ClearMessages,
    ScreenShot,
    ShowPortraits,
    SwapWeapons,
    ToggleMiniMap,
    Skill9,
    Skill10,
    Skill11,
    Skill12,
    Skill13,
    Skill14,
    Skill15,
    Skill16,
    MercenaryScreen,
    SayRetreat,
    OpenMenu,
    Zoom,
    LegacyToggle,
    ForceMove,
    HoradricCube,
    Unknown1,
    Unknown2,
    Unknown3,
    /// No command (the game's `None`).
    NoBinding,
}

/// The game's number for a command.
pub open spec fn keybind_index(k: KeyBind) -> nat {
    match k {
        KeyBind::CharacterScreen => 0,
        KeyBind::Inventory => 1,
        KeyBind::PartyScreen => 2,
        KeyBind::MessageLog => 3,
        KeyBind::QuestLog => 4,
        KeyBind::Chat => 5,
        KeyBind::HelpScreen => 6,
        KeyBind::Automap => 7,
        KeyBind::CenterAutomap => 8,
        KeyBind::FadeAutomap => 9,
        KeyBind::PartyOnAutomap => 10,
        KeyBind::NamesOnAutomap => 11,
        KeyBind::SkillTree => 12,
        KeyBind::SkillSpeedBar => 13,
        KeyBind::Skill1 => 14,
        KeyBind::Skill2 => 15,
        KeyBind::Skill3 => 16,
        KeyBind::Skill4 => 17,
        KeyBind::Skill5 => 18,
        KeyBind::Skill6 => 19,
        KeyBind::Skill7 => 20,
        KeyBind::Skill8 => 21,
        KeyBind::ShowBelt => 22,
        KeyBind::UsePotion1 => 23,
        KeyBind::UsePotion2 => 24,
        KeyBind::UsePotion3 => 25,
        KeyBind::UsePotion4 => 26,
        KeyBind::SayHelp => 27,
        KeyBind::SayFollowMe => 28,
        KeyBind::SayThisIsForYou => 29,
        KeyBind::SayThanks => 30,
        KeyBind::SaySorry => 31,
        KeyBind::SayBye => 32,
        KeyBind::SayNowYouDie => 33,
        KeyBind::HoldRun => 34,
        KeyBind::ToggleRunWalk => 35,
        KeyBind::StandStill => 36,
        KeyBind::ShowItems => 37,
        KeyBind::ClearScreen => 38,
        KeyBind::SelectPreviousSkill => 39,
        KeyBind::SelectNextSkill => 40,
        KeyBind::ClearMessages => 41,
        KeyBind::ScreenShot => 42,
        KeyBind::ShowPortraits => 43,
        KeyBind::SwapWeapons => 44,
        KeyBind::ToggleMiniMap => 45,
        KeyBind::Skill9 => 46,
        KeyBind::Skill10 => 47,
        KeyBind::Skill11 => 48,
        KeyBind::Skill12 => 49,
        KeyBind::Skill13 => 50,
        KeyBind::Skill14 => 51,
        KeyBind::Skill15 => 52,
        KeyBind::Skill16 => 53,
        KeyBind::MercenaryScreen => 54,
        KeyBind::SayRetreat => 55,
        KeyBind::OpenMenu => 56,
        KeyBind::Zoom => 57,
        KeyBind::LegacyToggle => 58,
        KeyBind::ForceMove => 59,
        KeyBind::HoradricCube => 60,
        KeyBind::Unknown1 => 61,
        KeyBind::Unknown2 => 62,
        KeyBind::Unknown3 => 63,
        KeyBind::NoBinding => 64,
    }
}

/// How many commands there are.
pub const KEYBIND_COUNT: u16 = 65;

impl KeyBind {
    /// The command with the given number, if there is one.
    pub fn from_u16(n: u16) -> (k: Option<KeyBind>)
        ensures
            k is Some <==> n < KEYBIND_COUNT,
            k matches Some(b) ==> keybind_index(b) == n,
    {
        match n {
            0 => Some(KeyBind::CharacterScreen),
            1 => Some(KeyBind::Inventory),
            2 => Some(KeyBind::PartyScreen),
            3 => Some(KeyBind::MessageLog),
            4 => Some(KeyBind::QuestLog),
            5 => Some(KeyBind::Chat),
            6 => Some(KeyBind::HelpScreen),
            7 => Some(KeyBind::Automap),
            8 => Some(KeyBind::CenterAutomap),
            9 => Some(KeyBind::FadeAutomap),
            10 => Some(KeyBind::PartyOnAutomap),
            11 => Some(KeyBind::NamesOnAutomap),
            12 => Some(KeyBind::SkillTree),
            13 => Some(KeyBind::SkillSpeedBar),
            14 => Some(KeyBind::Skill1),
            15 => Some(KeyBind::Skill2),
            16 => Some(KeyBind::Skill3),
            17 => Some(KeyBind::Skill4),
            18 => Some(KeyBind::Skill5),
            19 => Some(KeyBind::Skill6),
            20 => Some(KeyBind::Skill7),
            21 => Some(KeyBind::Skill8),
            22 => Some(KeyBind::ShowBelt),
            23 => Some(KeyBind::UsePotion1),
            24 => Some(KeyBind::UsePotion2),
            25 => Some(KeyBind::UsePotion3),
            26 => Some(KeyBind::UsePotion4),
            27 => Some(KeyBind::SayHelp),
            28 => Some(KeyBind::SayFollowMe),
            29 => Some(KeyBind::SayThisIsForYou),
            30 => Some(KeyBind::SayThanks),
            31 => Some(KeyBind::SaySorry),
            32 => Some(KeyBind::SayBye),
            33 => Some(KeyBind::SayNowYouDie),
            34 => Some(KeyBind::HoldRun),
            35 => Some(KeyBind::ToggleRunWalk),
            36 => Some(KeyBind::StandStill),
            37 => Some(KeyBind::ShowItems),
            38 => Some(KeyBind::ClearScreen),
            39 => Some(KeyBind::SelectPreviousSkill),
            40 => Some(KeyBind::SelectNextSkill),
            41 => Some(KeyBind::ClearMessages),
            42 => Some(KeyBind::ScreenShot),
            43 => Some(KeyBind::ShowPortraits),
            44 => Some(KeyBind::SwapWeapons),
            45 => Some(KeyBind::ToggleMiniMap),
            46 => Some(KeyBind::Skill9),
            47 => Some(KeyBind::Skill10),
            48 => Some(KeyBind::Skill11),
            49 => Some(KeyBind::Skill12),
            50 => Some(KeyBind::Skill13),
            51 => Some(KeyBind::Skill14),
            52 => Some(KeyBind::Skill15),
            53 => Some(KeyBind::Skill16),
            54 => Some(KeyBind::MercenaryScreen),
            55 => Some(KeyBind::SayRetreat),
            56 => Some(KeyBind::OpenMenu),
            57 => Some(KeyBind::Zoom),
            58 => Some(KeyBind::LegacyToggle),
            59 => Some(KeyBind::ForceMove),
            60 => Some(KeyBind::HoradricCube),
            61 => Some(KeyBind::Unknown1),
            62 => Some(KeyBind::Unknown2),
            63 => Some(KeyBind::Unknown3),
            64 => Some(KeyBind::NoBinding),
            _ => None,
        }
    }
}

/// Different commands have different numbers, so a command is found again
/// from its number.
pub proof fn lemma_keybind_index_injective(a: KeyBind, b: KeyBind)
    requires
        keybind_index(a) == keybind_index(b),
    ensures
        a == b,
{
}

/// The game numbers its commands in the order of its command list, from 0:
/// character screen 0, inventory 1, ..., skill 1 to skill 8 at 14 to 21,
/// skill 9 to skill 16 at 46 to 53, ..., no command at 64.
pub proof fn lemma_keybind_numbers()
    ensures
        keybind_index(KeyBind::CharacterScreen) == 0,
        keybind_index(KeyBind::Inventory) == 1,
        keybind_index(KeyBind::PartyScreen) == 2,
        keybind_index(KeyBind::MessageLog) == 3,
        keybind_index(KeyBind::QuestLog) == 4,
        keybind_index(KeyBind::Chat) == 5,
        keybind_index(KeyBind::HelpScreen) == 6,
        keybind_index(KeyBind::Automap) == 7,
        keybind_index(KeyBind::CenterAutomap) == 8,
        keybind_index(KeyBind::FadeAutomap) == 9,
        keybind_index(KeyBind::PartyOnAutomap) == 10,
        keybind_index(KeyBind::NamesOnAutomap) == 11,
        keybind_index(KeyBind::SkillTree) == 12,
        keybind_index(KeyBind::SkillSpeedBar) == 13,
        keybind_index(KeyBind::Skill1) == 14,
        keybind_index(KeyBind::Skill2) == 15,
        keybind_index(KeyBind::Skill3) == 16,
        keybind_index(KeyBind::Skill4) == 17,
        keybind_index(KeyBind::Skill5) == 18,
        keybind_index(KeyBind::Skill6) == 19,
        keybind_index(KeyBind::Skill7) == 20,
        keybind_index(KeyBind::Skill8) == 21,
        keybind_index(KeyBind::ShowBelt) == 22,
        keybind_index(KeyBind::UsePotion1) == 23,
        keybind_index(KeyBind::UsePotion2) == 24,
        keybind_index(KeyBind::UsePotion3) == 25,
        keybind_index(KeyBind::UsePotion4) == 26,
        keybind_index(KeyBind::SayHelp) == 27,
        keybind_index(KeyBind::SayFollowMe) == 28,
        keybind_index(KeyBind::SayThisIsForYou) == 29,
        keybind_index(KeyBind::SayThanks) == 30,
        keybind_index(KeyBind::SaySorry) == 31,
        keybind_index(KeyBind::SayBye) == 32,
        keybind_index(KeyBind::SayNowYouDie) == 33,
        keybind_index(KeyBind::HoldRun) == 34,
        keybind_index(KeyBind::ToggleRunWalk) == 35,
        keybind_index(KeyBind::StandStill) == 36,
        keybind_index(KeyBind::ShowItems) == 37,
        keybind_index(KeyBind::ClearScreen) == 38,
        keybind_index(KeyBind::SelectPreviousSkill) == 39,
        keybind_index(KeyBind::SelectNextSkill) == 40,
        keybind_index(KeyBind::ClearMessages) == 41,
        keybind_index(KeyBind::ScreenShot) == 42,
        keybind_index(KeyBind::ShowPortraits) == 43,
        keybind_index(KeyBind::SwapWeapons) == 44,
        keybind_index(KeyBind::ToggleMiniMap) == 45,
        keybind_index(KeyBind::Skill9) == 46,
        keybind_index(KeyBind::Skill10) == 47,
        keybind_index(KeyBind::Skill11) == 48,
        keybind_index(KeyBind::Skill12) == 49,
        keybind_index(KeyBind::Skill13) == 50,
        keybind_index(KeyBind::Skill14) == 51,
        keybind_index(KeyBind::Skill15) == 52,
        keybind_index(KeyBind::Skill16) == 53,
        keybind_index(KeyBind::MercenaryScreen) == 54,
        keybind_index(KeyBind::SayRetreat) == 55,
        keybind_index(KeyBind::OpenMenu) == 56,
        keybind_index(KeyBind::Zoom) == 57,
        keybind_index(KeyBind::LegacyToggle) == 58,
        keybind_index(KeyBind::ForceMove) == 59,
        keybind_index(KeyBind::HoradricCube) == 60,
        keybind_index(KeyBind::Unknown1) == 61,
        keybind_index(KeyBind::Unknown2) == 62,
        keybind_index(KeyBind::Unknown3) == 63,
        keybind_index(KeyBind::NoBinding) == 64,
{
}

/// A command number decodes to the command of that number and to no other.
pub proof fn lemma_keybind_number_decodes(k: KeyBind, n: nat)
    requires
        keybind_index(k) == n,
    ensures
        forall|b: KeyBind| keybind_index(b) == n ==> b == k,
{
    assert forall|b: KeyBind| keybind_index(b) == n implies b == k by {
        lemma_keybind_index_injective(b, k);
    }
}

/// One of the 16 skill hotkeys of the game.
#[derive(Debug, Clone, Copy)]
pub struct SkillBinding {
    pub skill_id: i16,
    pub dummy: [u8; 26],
}

impl Default for SkillBinding {
    fn default() -> (b: Self)
        ensures
            b.skill_id == 0,
            b.dummy@ == Seq::new(26, |i: int| 0u8),
    {
        let b = Self { skill_id: 0, dummy: [0; 26] };
        assert(b.dummy@ =~= Seq::new(26, |i: int| 0u8));
        b
    }
}

/// The skill hotkeys of the game.
#[derive(Debug, Clone)]
pub struct SkillBindings {
    pub skill_keys: [SkillBinding; 16],
}

impl Default for SkillBindings {
    fn default() -> (b: Self)
        ensures
            forall|i: int| 0 <= i < 16 ==> (#[trigger] b.skill_keys@[i]).skill_id == 0 && b.skill_keys@[i].dummy@
                == Seq::new(26, |j: int| 0u8),
    {
        Self { skill_keys: [SkillBinding::default(); 16] }
    }
}

/// One key assignment of the game's controls.
#[derive(Debug, Clone, Copy)]
pub struct KeyBinding {
    pub command: KeyBind,
    pub _dummy: u16,
    pub key: u16,
    pub is_primary: u16,
    pub _dummy2: u16,
}

impl Default for KeyBinding {
    fn default() -> (b: KeyBinding)
        ensures
            b.command == KeyBind::NoBinding,
            b._dummy == 0,
            b.key == 0,
            b.is_primary == 0,
            b._dummy2 == 0,
    {
        KeyBinding { command: KeyBind::NoBinding, _dummy: 0, key: 0, is_primary: 0, _dummy2: 0 }
    }
}

/// All key assignments of the game, with its skill hotkeys.
#[derive(Debug, Clone)]
pub struct KeyBindings {
    pub bindings: [KeyBinding; 128],
    pub skill_keys: [SkillBinding; 16],
}

impl Default for KeyBindings {
    fn default() -> (b: Self)
        ensures
            forall|i: int| 0 <= i < 128 ==> (#[trigger] b.bindings@[i]).command == KeyBind::NoBinding
                && b.bindings@[i].key == 0 && b.bindings@[i].is_primary == 0 && b.bindings@[i]._dummy
                == 0 && b.bindings@[i]._dummy2 == 0,
            forall|i: int| 0 <= i < 16 ==> (#[trigger] b.skill_keys@[i]).skill_id == 0 && b.skill_keys@[i].dummy@
                == Seq::new(26, |j: int| 0u8),
    {
        Self { bindings: [KeyBinding::default(); 128], skill_keys: [SkillBinding::default(); 16] }
    }
}

impl KeyBindings {
    /// The key assignments of one block of game memory together with the
    /// skill hotkeys of another.
    pub fn new(bindings: &KeyBindings, skill_keys: &SkillBindings) -> (kb: Self)
        ensures
            kb.bindings == bindings.bindings,
            kb.skill_keys == skill_keys.skill_keys,
    {
        Self { bindings: bindings.bindings, skill_keys: skill_keys.skill_keys }
    }
}

} // verus!
