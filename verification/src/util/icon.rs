//! Icons that the game can show for pickups.

use vstd::prelude::*;

use super::{lemma_spell_number_round_trip, spell_number, Spell};
use crate::text::{decimal, lemma_decimal, push_decimal};

verus! {

/// An icon for a pickup: one of the game's icons, or an image file.
#[derive(Debug, PartialEq, Eq, PartialOrd, Ord, Hash, Clone)]
pub enum Icon {
    /// The icon of a spirit shard, given by the shard's number.
    Shard(u8),
    Spell(Spell),
    Opher(OpherIcon),
    Lupo(LupoIcon),
    Grom(GromIcon),
    Tuley(TuleyIcon),
    File(String),
}

/// How an icon is written in seed code: its kind, `:`, and its number or file path.
pub open spec fn icon_code(icon: Icon) -> Seq<char> {
    match icon {
        Icon::Shard(shard) => "shard:"@ + decimal(shard as nat),
        Icon::Spell(spell) => "spell:"@ + decimal(spell_number(spell) as nat),
        Icon::Opher(opher) => "opher:"@ + decimal(opher_icon_number(opher) as nat),
        Icon::Lupo(lupo) => "lupo:"@ + decimal(lupo_icon_number(lupo) as nat),
        Icon::Grom(grom) => "grom:"@ + decimal(grom_icon_number(grom) as nat),
        Icon::Tuley(tuley) => "tuley:"@ + decimal(tuley_icon_number(tuley) as nat),
        Icon::File(file) => "file:"@ + file@,
    }
}

impl Icon {
    /// The icon as seed code writes it, e.g. `spell:1000` or `file:assets/icon.png`.
    pub fn code(&self) -> (r: String)
        ensures
            r@ == icon_code(*self),
    {
        match self {
            Icon::Shard(shard) => {
                let mut out = String::from_str("shard:");
                push_decimal(&mut out, *shard as u32);
                out
            },
            Icon::Spell(spell) => {
                let mut out = String::from_str("spell:");
                push_decimal(&mut out, spell.to_primitive() as u32);
                out
            },
            Icon::Opher(opher) => {
                let mut out = String::from_str("opher:");
                push_decimal(&mut out, opher.to_primitive() as u32);
                out
            },
            Icon::Lupo(lupo) => {
                let mut out = String::from_str("lupo:");
                push_decimal(&mut out, lupo.to_primitive() as u32);
                out
            },
            Icon::Grom(grom) => {
                let mut out = String::from_str("grom:");
                push_decimal(&mut out, grom.to_primitive() as u32);
                out
            },
            Icon::Tuley(tuley) => {
                let mut out = String::from_str("tuley:");
                push_decimal(&mut out, tuley.to_primitive() as u32);
                out
            },
            Icon::File(file) => {
                let mut out = String::from_str("file:");
                out.append(file.as_str());
                out
            },
        }
    }
}

/// The icons of Opher's shop.
#[derive(Debug, PartialEq, Eq, PartialOrd, Ord, Hash, Clone, Copy, Structural)]
pub enum OpherIcon {
    Sentry,
    SentryUpgrade,
    Hammer,
    HammerUpgrade,
    Shuriken,
    ShurikenUpgrade,
    Spear,
    SpearUpgrade,
    Blaze,
    BlazeUpgrade,
    WaterBreath,
    FastTravel,
}

/// The number that the game gives each OpherIcon variant.
pub open spec fn opher_icon_number(x: OpherIcon) -> u8 {
    match x {
        OpherIcon::Sentry => 0,
        OpherIcon::SentryUpgrade => 1,
        OpherIcon::Hammer => 2,
        OpherIcon::HammerUpgrade => 3,
        OpherIcon::Shuriken => 4,
        OpherIcon::ShurikenUpgrade => 5,
        OpherIcon::Spear => 6,
        OpherIcon::SpearUpgrade => 7,
        OpherIcon::Blaze => 8,
        OpherIcon::BlazeUpgrade => 9,
        OpherIcon::WaterBreath => 10,
        OpherIcon::FastTravel => 11,
    }
}

/// The OpherIcon variant with the number `n`, if any.
pub open spec fn opher_icon_from_number(n: u8) -> Option<OpherIcon> {
    match n {
        0 => Some(OpherIcon::Sentry),
        1 => Some(OpherIcon::SentryUpgrade),
        2 => Some(OpherIcon::Hammer),
        3 => Some(OpherIcon::HammerUpgrade),
        4 => Some(OpherIcon::Shuriken),
        5 => Some(OpherIcon::ShurikenUpgrade),
        6 => Some(OpherIcon::Spear),
        7 => Some(OpherIcon::SpearUpgrade),
        8 => Some(OpherIcon::Blaze),
        9 => Some(OpherIcon::BlazeUpgrade),
        10 => Some(OpherIcon::WaterBreath),
        11 => Some(OpherIcon::FastTravel),
        _ => None,
    }
}

impl OpherIcon {
    /// The variant's number.
    pub fn to_primitive(self) -> (r: u8)
        ensures
            r == opher_icon_number(self),
    {
        match self {
            OpherIcon::Sentry => 0,
            OpherIcon::SentryUpgrade => 1,
            OpherIcon::Hammer => 2,
            OpherIcon::HammerUpgrade => 3,
            OpherIcon::Shuriken => 4,
            OpherIcon::ShurikenUpgrade => 5,
            OpherIcon::Spear => 6,
            OpherIcon::SpearUpgrade => 7,
            OpherIcon::Blaze => 8,
            OpherIcon::BlazeUpgrade => 9,
            OpherIcon::WaterBreath => 10,
            OpherIcon::FastTravel => 11,
        }
    }

    /// The variant with the number `n`, or `None` where no variant has it.
    pub fn try_from_primitive(n: u8) -> (r: Option<OpherIcon>)
        ensures
            r == opher_icon_from_number(n),
    {
        match n {
            0 => Some(OpherIcon::Sentry),
            1 => Some(OpherIcon::SentryUpgrade),
            2 => Some(OpherIcon::Hammer),
            3 => Some(OpherIcon::HammerUpgrade),
            4 => Some(OpherIcon::Shuriken),
            5 => Some(OpherIcon::ShurikenUpgrade),
            6 => Some(OpherIcon::Spear),
            7 => Some(OpherIcon::SpearUpgrade),
            8 => Some(OpherIcon::Blaze),
            9 => Some(OpherIcon::BlazeUpgrade),
            10 => Some(OpherIcon::WaterBreath),
            11 => Some(OpherIcon::FastTravel),
            _ => None,
        }
    }
}

/// Each OpherIcon variant is found again by its number, and a number finds only the variant
/// that has it.
pub proof fn lemma_opher_icon_number_round_trip(x: OpherIcon, n: u8)
    ensures
        opher_icon_from_number(opher_icon_number(x)) == Some(x),
        opher_icon_from_number(n) matches Some(y) ==> opher_icon_number(y) == n,
{
}

/// The numbers that the game gives the OpherIcon variants.
pub proof fn lemma_opher_icon_numbers()
    ensures
        opher_icon_number(OpherIcon::Sentry) == 0,
        opher_icon_number(OpherIcon::SentryUpgrade) == 1,
        opher_icon_number(OpherIcon::Hammer) == 2,
        opher_icon_number(OpherIcon::HammerUpgrade) == 3,
        opher_icon_number(OpherIcon::Shuriken) == 4,
        opher_icon_number(OpherIcon::ShurikenUpgrade) == 5,
        opher_icon_number(OpherIcon::Spear) == 6,
        opher_icon_number(OpherIcon::SpearUpgrade) == 7,
        opher_icon_number(OpherIcon::Blaze) == 8,
        opher_icon_number(OpherIcon::BlazeUpgrade) == 9,
        opher_icon_number(OpherIcon::WaterBreath) == 10,
        opher_icon_number(OpherIcon::FastTravel) == 11,
{
}

/// The icons of Lupo's shop.
#[derive(Debug, PartialEq, Eq, PartialOrd, Ord, Hash, Clone, Copy, Structural)]
pub enum LupoIcon {
    EnergyFragmentsMap,
    HealthFragmentsMap,
    ShardsMap,
}

/// The number that the game gives each LupoIcon variant.
pub open spec fn lupo_icon_number(x: LupoIcon) -> u8 {
    match x {
        LupoIcon::EnergyFragmentsMap => 0,
        LupoIcon::HealthFragmentsMap => 1,
        LupoIcon::ShardsMap => 2,
    }
}

/// The LupoIcon variant with the number `n`, if any.
pub open spec fn lupo_icon_from_number(n: u8) -> Option<LupoIcon> {
    match n {
        0 => Some(LupoIcon::EnergyFragmentsMap),
        1 => Some(LupoIcon::HealthFragmentsMap),
        2 => Some(LupoIcon::ShardsMap),
        _ => None,
    }
}

impl LupoIcon {
    /// The variant's number.
    pub fn to_primitive(self) -> (r: u8)
        ensures
            r == lupo_icon_number(self),
    {
        match self {
            LupoIcon::EnergyFragmentsMap => 0,
            LupoIcon::HealthFragmentsMap => 1,
            LupoIcon::ShardsMap => 2,
        }
    }

    /// The variant with the number `n`, or `None` where no variant has it.
    pub fn try_from_primitive(n: u8) -> (r: Option<LupoIcon>)
        ensures
            r == lupo_icon_from_number(n),
    {
        match n {
            0 => Some(LupoIcon::EnergyFragmentsMap),
            1 => Some(LupoIcon::HealthFragmentsMap),
            2 => Some(LupoIcon::ShardsMap),
            _ => None,
        }
    }
}

/// Each LupoIcon variant is found again by its number, and a number finds only the variant
/// that has it.
pub proof fn lemma_lupo_icon_number_round_trip(x: LupoIcon, n: u8)
    ensures
        lupo_icon_from_number(lupo_icon_number(x)) == Some(x),
        lupo_icon_from_number(n) matches Some(y) ==> lupo_icon_number(y) == n,
{
}

/// The numbers that the game gives the LupoIcon variants.
pub proof fn lemma_lupo_icon_numbers()
    ensures
        lupo_icon_number(LupoIcon::EnergyFragmentsMap) == 0,
        lupo_icon_number(LupoIcon::HealthFragmentsMap) == 1,
        lupo_icon_number(LupoIcon::ShardsMap) == 2,
{
}

/// The icons of Grom's projects.
#[derive(Debug, PartialEq, Eq, PartialOrd, Ord, Hash, Clone, Copy, Structural)]
pub enum GromIcon {
    RepairTheSpiritWell,
    DwellingRepairs,
    RoofsOverHeads,
    OnwardsAndUpwards,
    ClearTheCaveEntrance,
    ThornySituation,
    TheGorlekTouch,
}

/// The number that the game gives each GromIcon variant.
pub open spec fn grom_icon_number(x: GromIcon) -> u8 {
    match x {
        GromIcon::RepairTheSpiritWell => 0,
        GromIcon::DwellingRepairs => 1,
        GromIcon::RoofsOverHeads => 2,
        GromIcon::OnwardsAndUpwards => 3,
        GromIcon::ClearTheCaveEntrance => 4,
        GromIcon::ThornySituation => 5,
        GromIcon::TheGorlekTouch => 6,
    }
}

/// The GromIcon variant with the number `n`, if any.
pub open spec fn grom_icon_from_number(n: u8) -> Option<GromIcon> {
    match n {
        0 => Some(GromIcon::RepairTheSpiritWell),
        1 => Some(GromIcon::DwellingRepairs),
        2 => Some(GromIcon::RoofsOverHeads),
        3 => Some(GromIcon::OnwardsAndUpwards),
        4 => Some(GromIcon::ClearTheCaveEntrance),
        5 => Some(GromIcon::ThornySituation),
        6 => Some(GromIcon::TheGorlekTouch),
        _ => None,
    }
}

impl GromIcon {
    /// The variant's number.
    pub fn to_primitive(self) -> (r: u8)
        ensures
            r == grom_icon_number(self),
    {
        match self {
            GromIcon::RepairTheSpiritWell => 0,
            GromIcon::DwellingRepairs => 1,
            GromIcon::RoofsOverHeads => 2,
            GromIcon::OnwardsAndUpwards => 3,
            GromIcon::ClearTheCaveEntrance => 4,
            GromIcon::ThornySituation => 5,
            GromIcon::TheGorlekTouch => 6,
        }
    }

    /// The variant with the number `n`, or `None` where no variant has it.
    pub fn try_from_primitive(n: u8) -> (r: Option<GromIcon>)
        ensures
            r == grom_icon_from_number(n),
    {
        match n {
            0 => Some(GromIcon::RepairTheSpiritWell),
            1 => Some(GromIcon::DwellingRepairs),
            2 => Some(GromIcon::RoofsOverHeads),
            3 => Some(GromIcon::OnwardsAndUpwards),
            4 => Some(GromIcon::ClearTheCaveEntrance),
            5 => Some(GromIcon::ThornySituation),
            6 => Some(GromIcon::TheGorlekTouch),
            _ => None,
        }
    }
}

/// Each GromIcon variant is found again by its number, and a number finds only the variant
/// that has it.
pub proof fn lemma_grom_icon_number_round_trip(x: GromIcon, n: u8)
    ensures
        grom_icon_from_number(grom_icon_number(x)) == Some(x),
        grom_icon_from_number(n) matches Some(y) ==> grom_icon_number(y) == n,
{
}

/// The numbers that the game gives the GromIcon variants.
pub proof fn lemma_grom_icon_numbers()
    ensures
        grom_icon_number(GromIcon::RepairTheSpiritWell) == 0,
        grom_icon_number(GromIcon::DwellingRepairs) == 1,
        grom_icon_number(GromIcon::RoofsOverHeads) == 2,
        grom_icon_number(GromIcon::OnwardsAndUpwards) == 3,
        grom_icon_number(GromIcon::ClearTheCaveEntrance) == 4,
        grom_icon_number(GromIcon::ThornySituation) == 5,
        grom_icon_number(GromIcon::TheGorlekTouch) == 6,
{
}

/// The icons of Tuley's shop.
#[derive(Debug, PartialEq, Eq, PartialOrd, Ord, Hash, Clone, Copy, Structural)]
pub enum TuleyIcon {
    SelaFlowers,
    StickyGrass,
    Lightcatchers,
    BlueMoon,
    SpringPlants,
    TheLastSeed,
}

/// The number that the game gives each TuleyIcon variant.
pub open spec fn tuley_icon_number(x: TuleyIcon) -> u8 {
    match x {
        TuleyIcon::SelaFlowers => 0,
        TuleyIcon::StickyGrass => 1,
        TuleyIcon::Lightcatchers => 2,
        TuleyIcon::BlueMoon => 3,
        TuleyIcon::SpringPlants => 4,
        TuleyIcon::TheLastSeed => 5,
    }
}

/// The TuleyIcon variant with the number `n`, if any.
pub open spec fn tuley_icon_from_number(n: u8) -> Option<TuleyIcon> {
    match n {
        0 => Some(TuleyIcon::SelaFlowers),
        1 => Some(TuleyIcon::StickyGrass),
        2 => Some(TuleyIcon::Lightcatchers),
        3 => Some(TuleyIcon::BlueMoon),
        4 => Some(TuleyIcon::SpringPlants),
        5 => Some(TuleyIcon::TheLastSeed),
        _ => None,
    }
}

impl TuleyIcon {
    /// The variant's number.
    pub fn to_primitive(self) -> (r: u8)
        ensures
            r == tuley_icon_number(self),
    {
        match self {
            TuleyIcon::SelaFlowers => 0,
            TuleyIcon::StickyGrass => 1,
            TuleyIcon::Lightcatchers => 2,
            TuleyIcon::BlueMoon => 3,
            TuleyIcon::SpringPlants => 4,
            TuleyIcon::TheLastSeed => 5,
        }
    }

    /// The variant with the number `n`, or `None` where no variant has it.
    pub fn try_from_primitive(n: u8) -> (r: Option<TuleyIcon>)
        ensures
            r == tuley_icon_from_number(n),
    {
        match n {
            0 => Some(TuleyIcon::SelaFlowers),
            1 => Some(TuleyIcon::StickyGrass),
            2 => Some(TuleyIcon::Lightcatchers),
            3 => Some(TuleyIcon::BlueMoon),
            4 => Some(TuleyIcon::SpringPlants),
            5 => Some(TuleyIcon::TheLastSeed),
            _ => None,
        }
    }
}

/// Each TuleyIcon variant is found again by its number, and a number finds only the variant
/// that has it.
pub proof fn lemma_tuley_icon_number_round_trip(x: TuleyIcon, n: u8)
    ensures
        tuley_icon_from_number(tuley_icon_number(x)) == Some(x),
        tuley_icon_from_number(n) matches Some(y) ==> tuley_icon_number(y) == n,
{
}

/// The numbers that the game gives the TuleyIcon variants.
pub proof fn lemma_tuley_icon_numbers()
    ensures
        tuley_icon_number(TuleyIcon::SelaFlowers) == 0,
        tuley_icon_number(TuleyIcon::StickyGrass) == 1,
        tuley_icon_number(TuleyIcon::Lightcatchers) == 2,
        tuley_icon_number(TuleyIcon::BlueMoon) == 3,
        tuley_icon_number(TuleyIcon::SpringPlants) == 4,
        tuley_icon_number(TuleyIcon::TheLastSeed) == 5,
{
}

/// Whether two icons are of the same kind with the same number, or both files with the
/// same path.
pub open spec fn icons_match(a: Icon, b: Icon) -> bool {
    match (a, b) {
        (Icon::Shard(x), Icon::Shard(y)) => x == y,
        (Icon::Spell(x), Icon::Spell(y)) => x == y,
        (Icon::Opher(x), Icon::Opher(y)) => x == y,
        (Icon::Lupo(x), Icon::Lupo(y)) => x == y,
        (Icon::Grom(x), Icon::Grom(y)) => x == y,
        (Icon::Tuley(x), Icon::Tuley(y)) => x == y,
        (Icon::File(x), Icon::File(y)) => x@ == y@,
        _ => false,
    }
}

/// The kind prefix of an icon's code, `shard:` to `file:`.
pub open spec fn icon_prefix(icon: Icon) -> Seq<char> {
    match icon {
        Icon::Shard(_) => "shard:"@,
        Icon::Spell(_) => "spell:"@,
        Icon::Opher(_) => "opher:"@,
        Icon::Lupo(_) => "lupo:"@,
        Icon::Grom(_) => "grom:"@,
        Icon::Tuley(_) => "tuley:"@,
        Icon::File(_) => "file:"@,
    }
}

/// The part of an icon's code after its kind prefix.
pub open spec fn icon_payload(icon: Icon) -> Seq<char> {
    match icon {
        Icon::Shard(shard) => decimal(shard as nat),
        Icon::Spell(spell) => decimal(spell_number(spell) as nat),
        Icon::Opher(opher) => decimal(opher_icon_number(opher) as nat),
        Icon::Lupo(lupo) => decimal(lupo_icon_number(lupo) as nat),
        Icon::Grom(grom) => decimal(grom_icon_number(grom) as nat),
        Icon::Tuley(tuley) => decimal(tuley_icon_number(tuley) as nat),
        Icon::File(file) => file@,
    }
}

proof fn lemma_icon_prefix(icon: Icon)
    ensures
        icon_code(icon) == icon_prefix(icon) + icon_payload(icon),
        icon_prefix(icon).len() >= 5,
{
    reveal_strlit("shard:");
    reveal_strlit("spell:");
    reveal_strlit("opher:");
    reveal_strlit("lupo:");
    reveal_strlit("grom:");
    reveal_strlit("tuley:");
    reveal_strlit("file:");
}

/// Equal decimal representations stand for equal numbers.
proof fn lemma_decimal_injective(n: nat, m: nat)
    requires
        decimal(n) == decimal(m),
    ensures
        n == m,
{
    lemma_decimal(n);
    lemma_decimal(m);
}

/// Different icons have different codes: the code names the icon's kind and then its
/// number, or the file's path.
pub proof fn lemma_icon_code_injective(a: Icon, b: Icon)
    requires
        icon_code(a) == icon_code(b),
    ensures
        icons_match(a, b),
{
    lemma_icon_prefix(a);
    lemma_icon_prefix(b);
    let pa = icon_prefix(a);
    let pb = icon_prefix(b);
    let c = icon_code(a);
    assert(c[0] == pa[0] && c[1] == pa[1]);
    assert(icon_code(b)[0] == pb[0] && icon_code(b)[1] == pb[1]);
    reveal_strlit("shard:");
    reveal_strlit("spell:");
    reveal_strlit("opher:");
    reveal_strlit("lupo:");
    reveal_strlit("grom:");
    reveal_strlit("tuley:");
    reveal_strlit("file:");
    // The first two characters of the prefix tell the kinds apart.
    assert(pa == pb);
    assert(c.skip(pa.len() as int) =~= icon_payload(a));
    assert(icon_code(b).skip(pb.len() as int) =~= icon_payload(b));
    assert(icon_payload(a) == icon_payload(b));
    match (a, b) {
        (Icon::Shard(x), Icon::Shard(y)) => {
            lemma_decimal_injective(x as nat, y as nat);
        },
        (Icon::Spell(x), Icon::Spell(y)) => {
            lemma_decimal_injective(spell_number(x) as nat, spell_number(y) as nat);
            lemma_spell_number_round_trip(x, 0);
            lemma_spell_number_round_trip(y, 0);
        },
        (Icon::Opher(x), Icon::Opher(y)) => {
            lemma_decimal_injective(opher_icon_number(x) as nat, opher_icon_number(y) as nat);
            lemma_opher_icon_number_round_trip(x, 0);
            lemma_opher_icon_number_round_trip(y, 0);
        },
        (Icon::Lupo(x), Icon::Lupo(y)) => {
            lemma_decimal_injective(lupo_icon_number(x) as nat, lupo_icon_number(y) as nat);
            lemma_lupo_icon_number_round_trip(x, 0);
            lemma_lupo_icon_number_round_trip(y, 0);
        },
        (Icon::Grom(x), Icon::Grom(y)) => {
            lemma_decimal_injective(grom_icon_number(x) as nat, grom_icon_number(y) as nat);
            lemma_grom_icon_number_round_trip(x, 0);
            lemma_grom_icon_number_round_trip(y, 0);
        },
        (Icon::Tuley(x), Icon::Tuley(y)) => {
            lemma_decimal_injective(tuley_icon_number(x) as nat, tuley_icon_number(y) as nat);
            lemma_tuley_icon_number_round_trip(x, 0);
            lemma_tuley_icon_number_round_trip(y, 0);
        },
        _ => {},
    }
}

/// The icons of the in-game map.
pub enum MapIcon {
    Keystone,
    Health,
    Energy,
    Ore,
    ShardSlot,
    SpiritLight,
    Skill,
    Shard,
    Teleporter,
    QuestItem,
    Other,
}

} // verus!
