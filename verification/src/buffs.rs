use vstd::prelude::*;

verus! {

/// A player state (buff, aura, curse, ...) as the game reports it.
#[derive(Debug, Clone, Copy, PartialEq, Eq)]
pub enum State {
    ResistFire,
    ResistCold,
    ResistLight,
    ResistAll,
    Conviction,
    Might,
    Prayer,
    HolyFire,
    Thorns,
    Defiance,
    BlessedAim,
    Stamina,
    Concentration,
    HolyWind,
    Cleansing,
    HolyShock,
    Sanctuary,
    Meditation,
    Fanaticism,
    Redemption,
    Barbs,
    Wolverine,
    OakSage,
    FrozenArmor,
    Inferno,
    Blaze,
    BoneArmor,
    Enchant,
    InnerSight,
    ChillingArmor,
    Shout,
    EnergyShield,
    VenomClaws,
    BattleOrders,
    Thunderstorm,
    BattleCommand,
    SlowMissiles,
    ShiverArmor,
    Valkyrie,
    Frenzy,
    Berserk,
    HolyShield,
    ShadowWarrior,
    FeralRage,
    Wolf,
    Bear,
    Hurricane,
    Armageddon,
    CycloneArmor,
    CloakOfShadows,
    Cloaked,
    Quickness,
    Bladeshield,
    Fade,
    Poison,
    AmplifyDamage,
    Cold,
    Weaken,
    DimVision,
    Slowed,
    Convicted,
    Conversion,
    IronMaiden,
    Terror,
    Attract,
    LifeTap,
    Confuse,
    Decrepify,
    LowerResist,
    DefenseCurse,
    BloodMana,
    /// No state at all (the game shows it as `None`).
    NoState,
}

/// The name of a state, which is also the name of its icon image.
pub open spec fn state_name(state: State) -> Seq<char> {
    match state {
        State::ResistFire => "ResistFire"@,
        State::ResistCold => "ResistCold"@,
        State::ResistLight => "ResistLight"@,
        State::ResistAll => "ResistAll"@,
        State::Conviction => "Conviction"@,
        State::Might => "Might"@,
        State::Prayer => "Prayer"@,
        State::HolyFire => "HolyFire"@,
        State::Thorns => "Thorns"@,
        State::Defiance => "Defiance"@,
        State::BlessedAim => "BlessedAim"@,
        State::Stamina => "Stamina"@,
        State::Concentration => "Concentration"@,
        State::HolyWind => "HolyWind"@,
        State::Cleansing => "Cleansing"@,
        State::HolyShock => "HolyShock"@,
        State::Sanctuary => "Sanctuary"@,
        State::Meditation => "Meditation"@,
        State::Fanaticism => "Fanaticism"@,
        State::Redemption => "Redemption"@,
        State::Barbs => "Barbs"@,
        State::Wolverine => "Wolverine"@,
        State::OakSage => "OakSage"@,
        State::FrozenArmor => "FrozenArmor"@,
        State::Inferno => "Inferno"@,
        State::Blaze => "Blaze"@,
        State::BoneArmor => "BoneArmor"@,
        State::Enchant => "Enchant"@,
        State::InnerSight => "InnerSight"@,
        State::ChillingArmor => "ChillingArmor"@,
        State::Shout => "Shout"@,
        State::EnergyShield => "EnergyShield"@,
        State::VenomClaws => "VenomClaws"@,
        State::BattleOrders => "BattleOrders"@,
        State::Thunderstorm => "Thunderstorm"@,
        State::BattleCommand => "BattleCommand"@,
        State::SlowMissiles => "SlowMissiles"@,
        State::ShiverArmor => "ShiverArmor"@,
        State::Valkyrie => "Valkyrie"@,
        State::Frenzy => "Frenzy"@,
        State::Berserk => "Berserk"@,
        State::HolyShield => "HolyShield"@,
        State::ShadowWarrior => "ShadowWarrior"@,
        State::FeralRage => "FeralRage"@,
        State::Wolf => "Wolf"@,
        State::Bear => "Bear"@,
        State::Hurricane => "Hurricane"@,
        State::Armageddon => "Armageddon"@,
        State::CycloneArmor => "CycloneArmor"@,
        State::CloakOfShadows => "CloakOfShadows"@,
        State::Cloaked => "Cloaked"@,
        State::Quickness => "Quickness"@,
        State::Bladeshield => "Bladeshield"@,
        State::Fade => "Fade"@,
        State::Poison => "Poison"@,
        State::AmplifyDamage => "AmplifyDamage"@,
        State::Cold => "Cold"@,
        State::Weaken => "Weaken"@,
        State::DimVision => "DimVision"@,
        State::Slowed => "Slowed"@,
        State::Convicted => "Convicted"@,
        State::Conversion => "Conversion"@,
        State::IronMaiden => "IronMaiden"@,
        State::Terror => "Terror"@,
        State::Attract => "Attract"@,
        State::LifeTap => "LifeTap"@,
        State::Confuse => "Confuse"@,
        State::Decrepify => "Decrepify"@,
        State::LowerResist => "LowerResist"@,
        State::DefenseCurse => "DefenseCurse"@,
        State::BloodMana => "BloodMana"@,
        State::NoState => "None"@,
    }
}

impl State {
    /// The state's name, as `to_string` gives it.
    pub fn to_string(&self) -> (name: String)
        ensures
            name@ == state_name(*self),
    {
        match self {
            State::ResistFire => String::from_str("ResistFire"),
            State::ResistCold => String::from_str("ResistCold"),
            State::ResistLight => String::from_str("ResistLight"),
            State::ResistAll => String::from_str("ResistAll"),
            State::Conviction => String::from_str("Conviction"),
            State::Might => String::from_str("Might"),
            State::Prayer => String::from_str("Prayer"),
            State::HolyFire => String::from_str("HolyFire"),
            State::Thorns => String::from_str("Thorns"),
            State::Defiance => String::from_str("Defiance"),
            State::BlessedAim => String::from_str("BlessedAim"),
            State::Stamina => String::from_str("Stamina"),
            State::Concentration => String::from_str("Concentration"),
            State::HolyWind => String::from_str("HolyWind"),
            State::Cleansing => String::from_str("Cleansing"),
            State::HolyShock => String::from_str("HolyShock"),
            State::Sanctuary => String::from_str("Sanctuary"),
            State::Meditation => String::from_str("Meditation"),
            State::Fanaticism => String::from_str("Fanaticism"),
            State::Redemption => String::from_str("Redemption"),
            State::Barbs => String::from_str("Barbs"),
            State::Wolverine => String::from_str("Wolverine"),
            State::OakSage => String::from_str("OakSage"),
            State::FrozenArmor => String::from_str("FrozenArmor"),
            State::Inferno => String::from_str("Inferno"),
            State::Blaze => String::from_str("Blaze"),
            State::BoneArmor => String::from_str("BoneArmor"),
            State::Enchant => String::from_str("Enchant"),
            State::InnerSight => String::from_str("InnerSight"),
            State::ChillingArmor => String::from_str("ChillingArmor"),
            State::Shout => String::from_str("Shout"),
            State::EnergyShield => String::from_str("EnergyShield"),
            State::VenomClaws => String::from_str("VenomClaws"),
            State::BattleOrders => String::from_str("BattleOrders"),
            State::Thunderstorm => String::from_str("Thunderstorm"),
            State::BattleCommand => String::from_str("BattleCommand"),
            State::SlowMissiles => String::from_str("SlowMissiles"),
            State::ShiverArmor => String::from_str("ShiverArmor"),
            State::Valkyrie => String::from_str("Valkyrie"),
            State::Frenzy => String::from_str("Frenzy"),
            State::Berserk => String::from_str("Berserk"),
            State::HolyShield => String::from_str("HolyShield"),
            State::ShadowWarrior => String::from_str("ShadowWarrior"),
            State::FeralRage => String::from_str("FeralRage"),
            State::Wolf => String::from_str("Wolf"),
            State::Bear => String::from_str("Bear"),
            State::Hurricane => String::from_str("Hurricane"),
            State::Armageddon => String::from_str("Armageddon"),
            State::CycloneArmor => String::from_str("CycloneArmor"),
            State::CloakOfShadows => String::from_str("CloakOfShadows"),
            State::Cloaked => String::from_str("Cloaked"),
            State::Quickness => String::from_str("Quickness"),
            State::Bladeshield => String::from_str("Bladeshield"),
            State::Fade => String::from_str("Fade"),
            State::Poison => String::from_str("Poison"),
            State::AmplifyDamage => String::from_str("AmplifyDamage"),
            State::Cold => String::from_str("Cold"),
            State::Weaken => String::from_str("Weaken"),
            State::DimVision => String::from_str("DimVision"),
            State::Slowed => String::from_str("Slowed"),
            State::Convicted => String::from_str("Convicted"),
            State::Conversion => String::from_str("Conversion"),
            State::IronMaiden => String::from_str("IronMaiden"),
            State::Terror => String::from_str("Terror"),
            State::Attract => String::from_str("Attract"),
            State::LifeTap => String::from_str("LifeTap"),
            State::Confuse => String::from_str("Confuse"),
            State::Decrepify => String::from_str("Decrepify"),
            State::LowerResist => String::from_str("LowerResist"),
            State::DefenseCurse => String::from_str("DefenseCurse"),
            State::BloodMana => String::from_str("BloodMana"),
            State::NoState => String::from_str("None"),
        }
    }
}

/// How a state affects the player, which decides the frame colour of its icon.
#[derive(Debug, Clone, Copy, PartialEq, Eq)]
pub enum BuffGroup {
    Debuff,
    Buff,
    Aura,
    Passive,
}

/// The colour of the frame drawn around an icon.
#[derive(Debug, Clone, Copy, PartialEq, Eq)]
pub enum FrameColor {
    Red,
    Green,
    Yellow,
    Gray,
}

impl BuffGroup {
    /// The frame colour of a group.
    pub open spec fn frame_color_spec(self) -> FrameColor {
        match self {
            BuffGroup::Debuff => FrameColor::Red,
            BuffGroup::Buff => FrameColor::Green,
            BuffGroup::Aura => FrameColor::Yellow,
            BuffGroup::Passive => FrameColor::Gray,
        }
    }

    /// Debuffs are framed red, buffs green, auras yellow and passives gray.
    pub fn frame_color(&self) -> (color: FrameColor)
        ensures
            color == self.frame_color_spec(),
    {
        match self {
            BuffGroup::Debuff => FrameColor::Red,
            BuffGroup::Buff => FrameColor::Green,
            BuffGroup::Aura => FrameColor::Yellow,
            BuffGroup::Passive => FrameColor::Gray,
        }
    }
}

/// An icon shown on the buff bar.
pub struct BuffIcon {
    pub image_name: String,
    pub buff_group: BuffGroup,
}

/// The group under which a state is shown on the buff bar, if it is shown at all.
pub open spec fn buff_group_of(state: State) -> Option<BuffGroup> {
    match state {
        State::ResistFire |
        State::ResistCold |
        State::ResistLight |
        State::ResistAll |
        State::Conviction |
        State::Might |
        State::Prayer |
        State::HolyFire |
        State::Thorns |
        State::Defiance |
        State::BlessedAim |
        State::Stamina |
        State::Concentration |
        State::HolyWind |
        State::Cleansing |
        State::HolyShock |
        State::Sanctuary |
        State::Meditation |
        State::Fanaticism |
        State::Redemption |
        State::Barbs |
        State::Wolverine |
        State::OakSage => Some(BuffGroup::Aura),
        State::FrozenArmor |
        State::Inferno |
        State::Blaze |
        State::BoneArmor |
        State::Enchant |
        State::InnerSight |
        State::ChillingArmor |
        State::Shout |
        State::EnergyShield |
        State::VenomClaws |
        State::BattleOrders |
        State::Thunderstorm |
        State::BattleCommand |
        State::SlowMissiles |
        State::ShiverArmor |
        State::Valkyrie |
        State::Frenzy |
        State::Berserk |
        State::HolyShield |
        State::ShadowWarrior |
        State::FeralRage |
        State::Wolf |
        State::Bear |
        State::Hurricane |
        State::Armageddon |
        State::CycloneArmor |
        State::CloakOfShadows |
        State::Cloaked |
        State::Quickness |
        State::Bladeshield |
        State::Fade => Some(BuffGroup::Buff),
        State::Poison |
        State::AmplifyDamage |
        State::Cold |
        State::Weaken |
        State::DimVision |
        State::Slowed |
        State::Convicted |
        State::Conversion |
        State::IronMaiden |
        State::Terror |
        State::Attract |
        State::LifeTap |
        State::Confuse |
        State::Decrepify |
        State::LowerResist |
        State::DefenseCurse |
        State::BloodMana => Some(BuffGroup::Debuff),
        State::NoState => None,
    }
}

/// The buff bar icon of a state: auras, buffs and debuffs have one, named
/// after the state; other states have none.
pub fn get_buff_bar_icon(state: &State) -> (icon: Option<BuffIcon>)
    ensures
        icon is Some <==> buff_group_of(*state) is Some,
        icon matches Some(i) ==> i.image_name@ == state_name(*state) && Some(i.buff_group)
            == buff_group_of(*state),
{
    match state {
        State::ResistFire |
        State::ResistCold |
        State::ResistLight |
        State::ResistAll |
        State::Conviction |
        State::Might |
        State::Prayer |
        State::HolyFire |
        State::Thorns |
        State::Defiance |
        State::BlessedAim |
        State::Stamina |
        State::Concentration |
        State::HolyWind |
        State::Cleansing |
        State::HolyShock |
        State::Sanctuary |
        State::Meditation |
        State::Fanaticism |
        State::Redemption |
        State::Barbs |
        State::Wolverine |
        State::OakSage => {
            Some(BuffIcon { image_name: state.to_string(), buff_group: BuffGroup::Aura })
        },
        State::FrozenArmor |
        State::Inferno |
        State::Blaze |
        State::BoneArmor |
        State::Enchant |
        State::InnerSight |
        State::ChillingArmor |
        State::Shout |
        State::EnergyShield |
        State::VenomClaws |
        State::BattleOrders |
        State::Thunderstorm |
        State::BattleCommand |
        State::SlowMissiles |
        State::ShiverArmor |
        State::Valkyrie |
        State::Frenzy |
        State::Berserk |
        State::HolyShield |
        State::ShadowWarrior |
        State::FeralRage |
        State::Wolf |
        State::Bear |
        State::Hurricane |
        State::Armageddon |
        State::CycloneArmor |
        State::CloakOfShadows |
        State::Cloaked |
        State::Quickness |
        State::Bladeshield |
        State::Fade => {
            Some(BuffIcon { image_name: state.to_string(), buff_group: BuffGroup::Buff })
        },
        State::Poison |
        State::AmplifyDamage |
        State::Cold |
        State::Weaken |
        State::DimVision |
        State::Slowed |
        State::Convicted |
        State::Conversion |
        State::IronMaiden |
        State::Terror |
        State::Attract |
        State::LifeTap |
        State::Confuse |
        State::Decrepify |
        State::LowerResist |
        State::DefenseCurse |
        State::BloodMana => {
            Some(BuffIcon { image_name: state.to_string(), buff_group: BuffGroup::Debuff })
        },
        _ => None,
    }
}

/// The icons of the buff bar, as (image name, group), for a list of player
/// states: one per state that has an icon, in the order of the states.
pub open spec fn buff_bar_icons_spec(states: Seq<State>) -> Seq<(Seq<char>, BuffGroup)>
    decreases states.len(),
{
    if states.len() == 0 {
        seq![]
    } else {
        let rest = buff_bar_icons_spec(states.drop_last());
        match buff_group_of(states.last()) {
            Some(g) => rest.push((state_name(states.last()), g)),
            None => rest,
        }
    }
}

/// The (image name, group) view of a list of icons.
pub open spec fn icons_view(icons: Seq<BuffIcon>) -> Seq<(Seq<char>, BuffGroup)> {
    icons.map_values(|i: BuffIcon| (i.image_name@, i.buff_group))
}

/// The icons the buff bar shows for the player's states, in order.
pub fn buff_bar_icons(states: &Vec<State>) -> (icons: Vec<BuffIcon>)
    ensures
        icons_view(icons@) == buff_bar_icons_spec(states@),
{
    let mut icons: Vec<BuffIcon> = Vec::new();
    for i in 0..states.len()
        invariant
            icons_view(icons@) == buff_bar_icons_spec(states@.take(i as int)),
    {
        assert(states@.take(i + 1).drop_last() =~= states@.take(i as int));
        let state = &states[i];
        if !matches!(state, State::NoState) {
            match get_buff_bar_icon(state) {
                Some(icon) => {
                    icons.push(icon);
                    assert(icons_view(icons@) =~= buff_bar_icons_spec(states@.take(i + 1)));
                },
                None => {},
            }
        }
    }
    assert(states@.take(states@.len() as int) =~= states@);
    icons
}

/// The icons the buff bar shows when it is enabled in the settings; a
/// disabled bar shows none.
pub fn shown_buff_bar_icons(enabled: bool, states: &Vec<State>) -> (icons: Vec<BuffIcon>)
    ensures
        enabled ==> icons_view(icons@) == buff_bar_icons_spec(states@),
        !enabled ==> icons@.len() == 0,
{
    if !enabled {
        return Vec::new();
    }
    buff_bar_icons(states)
}

/// The curses (poison, amplify damage, cold, weaken, dim vision, slowed,
/// convicted, conversion, iron maiden, terror, attract, life tap, confuse,
/// decrepify, lower resist, defense curse, blood mana) are debuffs and get a
/// red frame.
pub proof fn lemma_curses_are_debuffs()
    ensures
        buff_group_of(State::Poison) == Some(BuffGroup::Debuff),
        buff_group_of(State::AmplifyDamage) == Some(BuffGroup::Debuff),
        buff_group_of(State::Cold) == Some(BuffGroup::Debuff),
        buff_group_of(State::Weaken) == Some(BuffGroup::Debuff),
        buff_group_of(State::DimVision) == Some(BuffGroup::Debuff),
        buff_group_of(State::Slowed) == Some(BuffGroup::Debuff),
        buff_group_of(State::Convicted) == Some(BuffGroup::Debuff),
        buff_group_of(State::Conversion) == Some(BuffGroup::Debuff),
        buff_group_of(State::IronMaiden) == Some(BuffGroup::Debuff),
        buff_group_of(State::Terror) == Some(BuffGroup::Debuff),
        buff_group_of(State::Attract) == Some(BuffGroup::Debuff),
        buff_group_of(State::LifeTap) == Some(BuffGroup::Debuff),
        buff_group_of(State::Confuse) == Some(BuffGroup::Debuff),
        buff_group_of(State::Decrepify) == Some(BuffGroup::Debuff),
        buff_group_of(State::LowerResist) == Some(BuffGroup::Debuff),
        buff_group_of(State::DefenseCurse) == Some(BuffGroup::Debuff),
        buff_group_of(State::BloodMana) == Some(BuffGroup::Debuff),
        BuffGroup::Debuff.frame_color_spec() == FrameColor::Red,
{
}

/// The auras (resist fire, resist cold, resist lightning, salvation,
/// conviction, might, prayer, holy fire, thorns, defiance, blessed aim,
/// vigor, concentration, holy freeze, cleansing, holy shock, sanctuary,
/// meditation, fanaticism, redemption and the druid spirits) are auras and get
/// a yellow frame.
pub proof fn lemma_auras_are_auras()
    ensures
        buff_group_of(State::ResistFire) == Some(BuffGroup::Aura),
        buff_group_of(State::ResistCold) == Some(BuffGroup::Aura),
        buff_group_of(State::ResistLight) == Some(BuffGroup::Aura),
        buff_group_of(State::ResistAll) == Some(BuffGroup::Aura),
        buff_group_of(State::Conviction) == Some(BuffGroup::Aura),
        buff_group_of(State::Might) == Some(BuffGroup::Aura),
        buff_group_of(State::Prayer) == Some(BuffGroup::Aura),
        buff_group_of(State::HolyFire) == Some(BuffGroup::Aura),
        buff_group_of(State::Thorns) == Some(BuffGroup::Aura),
        buff_group_of(State::Defiance) == Some(BuffGroup::Aura),
        buff_group_of(State::BlessedAim) == Some(BuffGroup::Aura),
        buff_group_of(State::Stamina) == Some(BuffGroup::Aura),
        buff_group_of(State::Concentration) == Some(BuffGroup::Aura),
        buff_group_of(State::HolyWind) == Some(BuffGroup::Aura),
        buff_group_of(State::Cleansing) == Some(BuffGroup::Aura),
        buff_group_of(State::HolyShock) == Some(BuffGroup::Aura),
        buff_group_of(State::Sanctuary) == Some(BuffGroup::Aura),
        buff_group_of(State::Meditation) == Some(BuffGroup::Aura),
        buff_group_of(State::Fanaticism) == Some(BuffGroup::Aura),
        buff_group_of(State::Redemption) == Some(BuffGroup::Aura),
        buff_group_of(State::Barbs) == Some(BuffGroup::Aura),
        buff_group_of(State::Wolverine) == Some(BuffGroup::Aura),
        buff_group_of(State::OakSage) == Some(BuffGroup::Aura),
        BuffGroup::Aura.frame_color_spec() == FrameColor::Yellow,
{
}

/// The player's own enhancements (armors, shouts, shapes, fades and the like)
/// are buffs and get a green frame.
pub proof fn lemma_enhancements_are_buffs()
    ensures
        buff_group_of(State::FrozenArmor) == Some(BuffGroup::Buff),
        buff_group_of(State::Inferno) == Some(BuffGroup::Buff),
        buff_group_of(State::Blaze) == Some(BuffGroup::Buff),
        buff_group_of(State::BoneArmor) == Some(BuffGroup::Buff),
        buff_group_of(State::Enchant) == Some(BuffGroup::Buff),
        buff_group_of(State::InnerSight) == Some(BuffGroup::Buff),
        buff_group_of(State::ChillingArmor) == Some(BuffGroup::Buff),
        buff_group_of(State::Shout) == Some(BuffGroup::Buff),
        buff_group_of(State::EnergyShield) == Some(BuffGroup::Buff),
        buff_group_of(State::VenomClaws) == Some(BuffGroup::Buff),
        buff_group_of(State::BattleOrders) == Some(BuffGroup::Buff),
        buff_group_of(State::Thunderstorm) == Some(BuffGroup::Buff),
        buff_group_of(State::BattleCommand) == Some(BuffGroup::Buff),
        buff_group_of(State::SlowMissiles) == Some(BuffGroup::Buff),
        buff_group_of(State::ShiverArmor) == Some(BuffGroup::Buff),
        buff_group_of(State::Valkyrie) == Some(BuffGroup::Buff),
        buff_group_of(State::Frenzy) == Some(BuffGroup::Buff),
        buff_group_of(State::Berserk) == Some(BuffGroup::Buff),
        buff_group_of(State::HolyShield) == Some(BuffGroup::Buff),
        buff_group_of(State::ShadowWarrior) == Some(BuffGroup::Buff),
        buff_group_of(State::FeralRage) == Some(BuffGroup::Buff),
        buff_group_of(State::Wolf) == Some(BuffGroup::Buff),
        buff_group_of(State::Bear) == Some(BuffGroup::Buff),
        buff_group_of(State::Hurricane) == Some(BuffGroup::Buff),
        buff_group_of(State::Armageddon) == Some(BuffGroup::Buff),
        buff_group_of(State::CycloneArmor) == Some(BuffGroup::Buff),
        buff_group_of(State::CloakOfShadows) == Some(BuffGroup::Buff),
        buff_group_of(State::Cloaked) == Some(BuffGroup::Buff),
        buff_group_of(State::Quickness) == Some(BuffGroup::Buff),
        buff_group_of(State::Bladeshield) == Some(BuffGroup::Buff),
        buff_group_of(State::Fade) == Some(BuffGroup::Buff),
        BuffGroup::Buff.frame_color_spec() == FrameColor::Green,
{
}

/// No state has no icon, and passive effects get a gray frame.
pub proof fn lemma_no_state_no_icon()
    ensures
        buff_group_of(State::NoState) is None,
        BuffGroup::Passive.frame_color_spec() == FrameColor::Gray,
{
}

/// Each icon is named after its state, spelled as the state's name.
pub proof fn lemma_icon_names()
    ensures
        state_name(State::ResistFire) == "ResistFire"@,
        state_name(State::ResistCold) == "ResistCold"@,
        state_name(State::ResistLight) == "ResistLight"@,
        state_name(State::ResistAll) == "ResistAll"@,
        state_name(State::Conviction) == "Conviction"@,
        state_name(State::Might) == "Might"@,
        state_name(State::Prayer) == "Prayer"@,
        state_name(State::HolyFire) == "HolyFire"@,
        state_name(State::Thorns) == "Thorns"@,
        state_name(State::Defiance) == "Defiance"@,
        state_name(State::BlessedAim) == "BlessedAim"@,
        state_name(State::Stamina) == "Stamina"@,
        state_name(State::Concentration) == "Concentration"@,
        state_name(State::HolyWind) == "HolyWind"@,
        state_name(State::Cleansing) == "Cleansing"@,
        state_name(State::HolyShock) == "HolyShock"@,
        state_name(State::Sanctuary) == "Sanctuary"@,
        state_name(State::Meditation) == "Meditation"@,
        state_name(State::Fanaticism) == "Fanaticism"@,
        state_name(State::Redemption) == "Redemption"@,
        state_name(State::Barbs) == "Barbs"@,
        state_name(State::Wolverine) == "Wolverine"@,
        state_name(State::OakSage) == "OakSage"@,
        state_name(State::FrozenArmor) == "FrozenArmor"@,
        state_name(State::Inferno) == "Inferno"@,
        state_name(State::Blaze) == "Blaze"@,
        state_name(State::BoneArmor) == "BoneArmor"@,
        state_name(State::Enchant) == "Enchant"@,
        state_name(State::InnerSight) == "InnerSight"@,
        state_name(State::ChillingArmor) == "ChillingArmor"@,
        state_name(State::Shout) == "Shout"@,
        state_name(State::EnergyShield) == "EnergyShield"@,
        state_name(State::VenomClaws) == "VenomClaws"@,
        state_name(State::BattleOrders) == "BattleOrders"@,
        state_name(State::Thunderstorm) == "Thunderstorm"@,
        state_name(State::BattleCommand) == "BattleCommand"@,
        state_name(State::SlowMissiles) == "SlowMissiles"@,
        state_name(State::ShiverArmor) == "ShiverArmor"@,
        state_name(State::Valkyrie) == "Valkyrie"@,
        state_name(State::Frenzy) == "Frenzy"@,
        state_name(State::Berserk) == "Berserk"@,
        state_name(State::HolyShield) == "HolyShield"@,
        state_name(State::ShadowWarrior) == "ShadowWarrior"@,
        state_name(State::FeralRage) == "FeralRage"@,
        state_name(State::Wolf) == "Wolf"@,
        state_name(State::Bear) == "Bear"@,
        state_name(State::Hurricane) == "Hurricane"@,
        state_name(State::Armageddon) == "Armageddon"@,
        state_name(State::CycloneArmor) == "CycloneArmor"@,
        state_name(State::CloakOfShadows) == "CloakOfShadows"@,
        state_name(State::Cloaked) == "Cloaked"@,
        state_name(State::Quickness) == "Quickness"@,
        state_name(State::Bladeshield) == "Bladeshield"@,
        state_name(State::Fade) == "Fade"@,
        state_name(State::Poison) == "Poison"@,
        state_name(State::AmplifyDamage) == "AmplifyDamage"@,
        state_name(State::Cold) == "Cold"@,
        state_name(State::Weaken) == "Weaken"@,
        state_name(State::DimVision) == "DimVision"@,
        state_name(State::Slowed) == "Slowed"@,
        state_name(State::Convicted) == "Convicted"@,
        state_name(State::Conversion) == "Conversion"@,
        state_name(State::IronMaiden) == "IronMaiden"@,
        state_name(State::Terror) == "Terror"@,
        state_name(State::Attract) == "Attract"@,
        state_name(State::LifeTap) == "LifeTap"@,
        state_name(State::Confuse) == "Confuse"@,
        state_name(State::Decrepify) == "Decrepify"@,
        state_name(State::LowerResist) == "LowerResist"@,
        state_name(State::DefenseCurse) == "DefenseCurse"@,
        state_name(State::BloodMana) == "BloodMana"@,
        state_name(State::NoState) == "None"@,
{
}

} // verus!
