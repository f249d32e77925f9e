//! Game data used throughout the generator, and helpers for seed text.

pub mod icon;

pub use icon::{Icon, MapIcon};

use vstd::prelude::*;

use crate::text::{chars_of, trim, trim_bounds};

verus! {

/// A boolean as the game stores it, 0 or 1.
#[derive(Debug, PartialEq, Eq, PartialOrd, Ord, Hash, Clone, Copy, Structural)]
pub enum NumericBool {
    False,
    True,
}

/// The number that the game gives each NumericBool variant.
pub open spec fn numeric_bool_number(x: NumericBool) -> u8 {
    match x {
        NumericBool::False => 0,
        NumericBool::True => 1,
    }
}

/// The NumericBool variant with the number `n`, if any.
pub open spec fn numeric_bool_from_number(n: u8) -> Option<NumericBool> {
    match n {
        0 => Some(NumericBool::False),
        1 => Some(NumericBool::True),
        _ => None,
    }
}

impl NumericBool {
    /// The variant's number.
    pub fn to_primitive(self) -> (r: u8)
        ensures
            r == numeric_bool_number(self),
    {
        match self {
            NumericBool::False => 0,
            NumericBool::True => 1,
        }
    }

    /// The variant with the number `n`, or `None` where no variant has it.
    pub fn try_from_primitive(n: u8) -> (r: Option<NumericBool>)
        ensures
            r == numeric_bool_from_number(n),
    {
        match n {
            0 => Some(NumericBool::False),
            1 => Some(NumericBool::True),
            _ => None,
        }
    }
}

/// Each NumericBool variant is found again by its number, and a number finds only the variant
/// that has it.
pub proof fn lemma_numeric_bool_number_round_trip(x: NumericBool, n: u8)
    ensures
        numeric_bool_from_number(numeric_bool_number(x)) == Some(x),
        numeric_bool_from_number(n) matches Some(y) ==> numeric_bool_number(y) == n,
{
}

/// The numbers that the game gives the NumericBool variants.
pub proof fn lemma_numeric_bool_numbers()
    ensures
        numeric_bool_number(NumericBool::False) == 0,
        numeric_bool_number(NumericBool::True) == 1,
{
}

/// An ability or spell of the game, numbered as the game numbers them.
#[derive(Debug, PartialEq, Eq, PartialOrd, Ord, Hash, Clone, Copy, Structural)]
pub enum Spell {
    Hammer,
    Bow,
    Sword,
    Torch,
    Swordstaff,
    Chainsword,
    Shot,
    HomingMissiles,
    Wave,
    Whirl,
    Glow,
    LockOn,
    Shield,
    Invisibility,
    LifeAbsorb,
    Shards,
    Grenade,
    Sentry,
    Spear,
    Regenerate,
    Teleport,
    Shuriken,
    Blaze,
    Turret,
    Sein,
    Launch,
    Bash,
    Grapple,
    Burrow,
    Drill,
    DoubleJump,
    Flap,
    Dash,
    Bounce,
    Glide,
    ChargeJump,
    WaterDash,
    Climb,
    WeaponCharge,
    DamageUpgradeA,
    DamageUpgradeB,
    WaterBreath,
}

/// The number that the game gives each Spell variant.
pub open spec fn spell_number(x: Spell) -> u16 {
    match x {
        Spell::Hammer => 1000,
        Spell::Bow => 1001,
        Spell::Sword => 1002,
        Spell::Torch => 1003,
        Spell::Swordstaff => 1004,
        Spell::Chainsword => 1005,
        Spell::Shot => 2000,
        Spell::HomingMissiles => 2001,
        Spell::Wave => 2002,
        Spell::Whirl => 2003,
        Spell::Glow => 2004,
        Spell::LockOn => 2005,
        Spell::Shield => 2006,
        Spell::Invisibility => 2007,
        Spell::LifeAbsorb => 2008,
        Spell::Shards => 2009,
        Spell::Grenade => 2010,
        Spell::Sentry => 2011,
        Spell::Spear => 2012,
        Spell::Regenerate => 2013,
        Spell::Teleport => 2014,
        Spell::Shuriken => 2015,
        Spell::Blaze => 2016,
        Spell::Turret => 2017,
        Spell::Sein => 2018,
        Spell::Launch => 2019,
        Spell::Bash => 3000,
        Spell::Grapple => 3001,
        Spell::Burrow => 3002,
        Spell::Drill => 3003,
        Spell::DoubleJump => 3004,
        Spell::Flap => 3005,
        Spell::Dash => 4000,
        Spell::Bounce => 4001,
        Spell::Glide => 4002,
        Spell::ChargeJump => 4003,
        Spell::WaterDash => 4004,
        Spell::Climb => 4005,
        Spell::WeaponCharge => 4006,
        Spell::DamageUpgradeA => 4007,
        Spell::DamageUpgradeB => 4008,
        Spell::WaterBreath => 4009,
    }
}

/// The Spell variant with the number `n`, if any.
pub open spec fn spell_from_number(n: u16) -> Option<Spell> {
    match n {
        1000 => Some(Spell::Hammer),
        1001 => Some(Spell::Bow),
        1002 => Some(Spell::Sword),
        1003 => Some(Spell::Torch),
        1004 => Some(Spell::Swordstaff),
        1005 => Some(Spell::Chainsword),
        2000 => Some(Spell::Shot),
        2001 => Some(Spell::HomingMissiles),
        2002 => Some(Spell::Wave),
        2003 => Some(Spell::Whirl),
        2004 => Some(Spell::Glow),
        2005 => Some(Spell::LockOn),
        2006 => Some(Spell::Shield),
        2007 => Some(Spell::Invisibility),
        2008 => Some(Spell::LifeAbsorb),
        2009 => Some(Spell::Shards),
        2010 => Some(Spell::Grenade),
        2011 => Some(Spell::Sentry),
        2012 => Some(Spell::Spear),
        2013 => Some(Spell::Regenerate),
        2014 => Some(Spell::Teleport),
        2015 => Some(Spell::Shuriken),
        2016 => Some(Spell::Blaze),
        2017 => Some(Spell::Turret),
        2018 => Some(Spell::Sein),
        2019 => Some(Spell::Launch),
        3000 => Some(Spell::Bash),
        3001 => Some(Spell::Grapple),
        3002 => Some(Spell::Burrow),
        3003 => Some(Spell::Drill),
        3004 => Some(Spell::DoubleJump),
        3005 => Some(Spell::Flap),
        4000 => Some(Spell::Dash),
        4001 => Some(Spell::Bounce),
        4002 => Some(Spell::Glide),
        4003 => Some(Spell::ChargeJump),
        4004 => Some(Spell::WaterDash),
        4005 => Some(Spell::Climb),
        4006 => Some(Spell::WeaponCharge),
        4007 => Some(Spell::DamageUpgradeA),
        4008 => Some(Spell::DamageUpgradeB),
        4009 => Some(Spell::WaterBreath),
        _ => None,
    }
}

impl Spell {
    /// The variant's number.
    pub fn to_primitive(self) -> (r: u16)
        ensures
            r == spell_number(self),
    {
        match self {
            Spell::Hammer => 1000,
            Spell::Bow => 1001,
            Spell::Sword => 1002,
            Spell::Torch => 1003,
            Spell::Swordstaff => 1004,
            Spell::Chainsword => 1005,
            Spell::Shot => 2000,
            Spell::HomingMissiles => 2001,
            Spell::Wave => 2002,
            Spell::Whirl => 2003,
            Spell::Glow => 2004,
            Spell::LockOn => 2005,
            Spell::Shield => 2006,
            Spell::Invisibility => 2007,
            Spell::LifeAbsorb => 2008,
            Spell::Shards => 2009,
            Spell::Grenade => 2010,
            Spell::Sentry => 2011,
            Spell::Spear => 2012,
            Spell::Regenerate => 2013,
            Spell::Teleport => 2014,
            Spell::Shuriken => 2015,
            Spell::Blaze => 2016,
            Spell::Turret => 2017,
            Spell::Sein => 2018,
            Spell::Launch => 2019,
            Spell::Bash => 3000,
            Spell::Grapple => 3001,
            Spell::Burrow => 3002,
            Spell::Drill => 3003,
            Spell::DoubleJump => 3004,
            Spell::Flap => 3005,
            Spell::Dash => 4000,
            Spell::Bounce => 4001,
            Spell::Glide => 4002,
            Spell::ChargeJump => 4003,
            Spell::WaterDash => 4004,
            Spell::Climb => 4005,
            Spell::WeaponCharge => 4006,
            Spell::DamageUpgradeA => 4007,
            Spell::DamageUpgradeB => 4008,
            Spell::WaterBreath => 4009,
        }
    }

    /// The variant with the number `n`, or `None` where no variant has it.
    pub fn try_from_primitive(n: u16) -> (r: Option<Spell>)
        ensures
            r == spell_from_number(n),
    {
        match n {
            1000 => Some(Spell::Hammer),
            1001 => Some(Spell::Bow),
            1002 => Some(Spell::Sword),
            1003 => Some(Spell::Torch),
            1004 => Some(Spell::Swordstaff),
            1005 => Some(Spell::Chainsword),
            2000 => Some(Spell::Shot),
            2001 => Some(Spell::HomingMissiles),
            2002 => Some(Spell::Wave),
            2003 => Some(Spell::Whirl),
            2004 => Some(Spell::Glow),
            2005 => Some(Spell::LockOn),
            2006 => Some(Spell::Shield),
            2007 => Some(Spell::Invisibility),
            2008 => Some(Spell::LifeAbsorb),
            2009 => Some(Spell::Shards),
            2010 => Some(Spell::Grenade),
            2011 => Some(Spell::Sentry),
            2012 => Some(Spell::Spear),
            2013 => Some(Spell::Regenerate),
            2014 => Some(Spell::Teleport),
            2015 => Some(Spell::Shuriken),
            2016 => Some(Spell::Blaze),
            2017 => Some(Spell::Turret),
            2018 => Some(Spell::Sein),
            2019 => Some(Spell::Launch),
            3000 => Some(Spell::Bash),
            3001 => Some(Spell::Grapple),
            3002 => Some(Spell::Burrow),
            3003 => Some(Spell::Drill),
            3004 => Some(Spell::DoubleJump),
            3005 => Some(Spell::Flap),
            4000 => Some(Spell::Dash),
            4001 => Some(Spell::Bounce),
            4002 => Some(Spell::Glide),
            4003 => Some(Spell::ChargeJump),
            4004 => Some(Spell::WaterDash),
            4005 => Some(Spell::Climb),
            4006 => Some(Spell::WeaponCharge),
            4007 => Some(Spell::DamageUpgradeA),
            4008 => Some(Spell::DamageUpgradeB),
            4009 => Some(Spell::WaterBreath),
            _ => None,
        }
    }
}

/// Each Spell variant is found again by its number, and a number finds only the variant
/// that has it.
pub proof fn lemma_spell_number_round_trip(x: Spell, n: u16)
    ensures
        spell_from_number(spell_number(x)) == Some(x),
        spell_from_number(n) matches Some(y) ==> spell_number(y) == n,
{
}

/// The numbers that the game gives the Spell variants.
pub proof fn lemma_spell_numbers()
    ensures
        spell_number(Spell::Hammer) == 1000,
        spell_number(Spell::Bow) == 1001,
        spell_number(Spell::Sword) == 1002,
        spell_number(Spell::Torch) == 1003,
        spell_number(Spell::Swordstaff) == 1004,
        spell_number(Spell::Chainsword) == 1005,
        spell_number(Spell::Shot) == 2000,
        spell_number(Spell::HomingMissiles) == 2001,
        spell_number(Spell::Wave) == 2002,
        spell_number(Spell::Whirl) == 2003,
        spell_number(Spell::Glow) == 2004,
        spell_number(Spell::LockOn) == 2005,
        spell_number(Spell::Shield) == 2006,
        spell_number(Spell::Invisibility) == 2007,
        spell_number(Spell::LifeAbsorb) == 2008,
        spell_number(Spell::Shards) == 2009,
        spell_number(Spell::Grenade) == 2010,
        spell_number(Spell::Sentry) == 2011,
        spell_number(Spell::Spear) == 2012,
        spell_number(Spell::Regenerate) == 2013,
        spell_number(Spell::Teleport) == 2014,
        spell_number(Spell::Shuriken) == 2015,
        spell_number(Spell::Blaze) == 2016,
        spell_number(Spell::Turret) == 2017,
        spell_number(Spell::Sein) == 2018,
        spell_number(Spell::Launch) == 2019,
        spell_number(Spell::Bash) == 3000,
        spell_number(Spell::Grapple) == 3001,
        spell_number(Spell::Burrow) == 3002,
        spell_number(Spell::Drill) == 3003,
        spell_number(Spell::DoubleJump) == 3004,
        spell_number(Spell::Flap) == 3005,
        spell_number(Spell::Dash) == 4000,
        spell_number(Spell::Bounce) == 4001,
        spell_number(Spell::Glide) == 4002,
        spell_number(Spell::ChargeJump) == 4003,
        spell_number(Spell::WaterDash) == 4004,
        spell_number(Spell::Climb) == 4005,
        spell_number(Spell::WeaponCharge) == 4006,
        spell_number(Spell::DamageUpgradeA) == 4007,
        spell_number(Spell::DamageUpgradeB) == 4008,
        spell_number(Spell::WaterBreath) == 4009,
{
}

/// An area of the game's map. The variants stand in the order of their numbers.
#[derive(Debug, PartialEq, Eq, PartialOrd, Ord, Hash, Clone, Copy, Structural)]
pub enum Zone {
    Marsh,
    Hollow,
    Glades,
    Wellspring,
    Pools,
    Burrows,
    Reach,
    Woods,
    Depths,
    Wastes,
    Ruins,
    Willow,
    Shop,
    Void,
    Spawn,
}

/// The number that the game gives each Zone variant.
pub open spec fn zone_number(x: Zone) -> u8 {
    match x {
        Zone::Marsh => 0,
        Zone::Hollow => 1,
        Zone::Glades => 2,
        Zone::Wellspring => 3,
        Zone::Pools => 4,
        Zone::Burrows => 5,
        Zone::Reach => 6,
        Zone::Woods => 7,
        Zone::Depths => 8,
        Zone::Wastes => 9,
        Zone::Ruins => 10,
        Zone::Willow => 11,
        Zone::Shop => 12,
        Zone::Void => 13,
        Zone::Spawn => 14,
    }
}

/// The Zone variant with the number `n`, if any.
pub open spec fn zone_from_number(n: u8) -> Option<Zone> {
    match n {
        0 => Some(Zone::Marsh),
        1 => Some(Zone::Hollow),
        2 => Some(Zone::Glades),
        3 => Some(Zone::Wellspring),
        4 => Some(Zone::Pools),
        5 => Some(Zone::Burrows),
        6 => Some(Zone::Reach),
        7 => Some(Zone::Woods),
        8 => Some(Zone::Depths),
        9 => Some(Zone::Wastes),
        10 => Some(Zone::Ruins),
        11 => Some(Zone::Willow),
        12 => Some(Zone::Shop),
        13 => Some(Zone::Void),
        14 => Some(Zone::Spawn),
        _ => None,
    }
}

impl Zone {
    /// The variant's number.
    pub fn to_primitive(self) -> (r: u8)
        ensures
            r == zone_number(self),
    {
        match self {
            Zone::Marsh => 0,
            Zone::Hollow => 1,
            Zone::Glades => 2,
            Zone::Wellspring => 3,
            Zone::Pools => 4,
            Zone::Burrows => 5,
            Zone::Reach => 6,
            Zone::Woods => 7,
            Zone::Depths => 8,
            Zone::Wastes => 9,
            Zone::Ruins => 10,
            Zone::Willow => 11,
            Zone::Shop => 12,
            Zone::Void => 13,
            Zone::Spawn => 14,
        }
    }

    /// The variant with the number `n`, or `None` where no variant has it.
    pub fn try_from_primitive(n: u8) -> (r: Option<Zone>)
        ensures
            r == zone_from_number(n),
    {
        match n {
            0 => Some(Zone::Marsh),
            1 => Some(Zone::Hollow),
            2 => Some(Zone::Glades),
            3 => Some(Zone::Wellspring),
            4 => Some(Zone::Pools),
            5 => Some(Zone::Burrows),
            6 => Some(Zone::Reach),
            7 => Some(Zone::Woods),
            8 => Some(Zone::Depths),
            9 => Some(Zone::Wastes),
            10 => Some(Zone::Ruins),
            11 => Some(Zone::Willow),
            12 => Some(Zone::Shop),
            13 => Some(Zone::Void),
            14 => Some(Zone::Spawn),
            _ => None,
        }
    }

    /// The variant with the number `n`, or `Zone::Void` where no variant has it.
    pub fn from_primitive(n: u8) -> (r: Zone)
        ensures
            r == match zone_from_number(n) {
                Some(x) => x,
                None => Zone::Void,
            },
    {
        match Zone::try_from_primitive(n) {
            Some(x) => x,
            None => Zone::Void,
        }
    }
}

/// Each Zone variant is found again by its number, and a number finds only the variant
/// that has it.
pub proof fn lemma_zone_number_round_trip(x: Zone, n: u8)
    ensures
        zone_from_number(zone_number(x)) == Some(x),
        zone_from_number(n) matches Some(y) ==> zone_number(y) == n,
{
}

/// The numbers that the game gives the Zone variants.
pub proof fn lemma_zone_numbers()
    ensures
        zone_number(Zone::Marsh) == 0,
        zone_number(Zone::Hollow) == 1,
        zone_number(Zone::Glades) == 2,
        zone_number(Zone::Wellspring) == 3,
        zone_number(Zone::Pools) == 4,
        zone_number(Zone::Burrows) == 5,
        zone_number(Zone::Reach) == 6,
        zone_number(Zone::Woods) == 7,
        zone_number(Zone::Depths) == 8,
        zone_number(Zone::Wastes) == 9,
        zone_number(Zone::Ruins) == 10,
        zone_number(Zone::Willow) == 11,
        zone_number(Zone::Shop) == 12,
        zone_number(Zone::Void) == 13,
        zone_number(Zone::Spawn) == 14,
{
}

/// An enemy of the game.
#[derive(Debug, PartialEq, Eq, Hash, Clone, Copy, Structural)]
pub enum Enemy {
    Mantis,
    Slug,
    WeakSlug,
    BombSlug,
    CorruptSlug,
    SneezeSlug,
    ShieldSlug,
    Lizard,
    Bat,
    Hornbug,
    Skeeto,
    SmallSkeeto,
    Bee,
    Nest,
    Crab,
    SpinCrab,
    Tentacle,
    Balloon,
    Miner,
    MaceMiner,
    ShieldMiner,
    CrystalMiner,
    ShieldCrystalMiner,
    Sandworm,
    Spiderling,
    EnergyRefill,
}

/// The health of an enemy, in whole points.
pub open spec fn enemy_health(e: Enemy) -> u32 {
    match e {
        Enemy::BombSlug | Enemy::CorruptSlug | Enemy::Balloon => 1,
        Enemy::SmallSkeeto => 8,
        Enemy::WeakSlug | Enemy::Spiderling => 12,
        Enemy::Slug => 13,
        Enemy::Skeeto | Enemy::Sandworm | Enemy::Tentacle => 20,
        Enemy::ShieldSlug | Enemy::Lizard | Enemy::Bee => 24,
        Enemy::Nest => 25,
        Enemy::Mantis | Enemy::SneezeSlug | Enemy::Bat | Enemy::Crab | Enemy::SpinCrab => 32,
        Enemy::Hornbug | Enemy::Miner => 40,
        Enemy::ShieldCrystalMiner => 50,
        Enemy::MaceMiner | Enemy::ShieldMiner => 60,
        Enemy::CrystalMiner => 80,
        Enemy::EnergyRefill => 0,
    }
}

pub open spec fn spec_shielded(e: Enemy) -> bool {
    e is Hornbug || e is ShieldSlug || e is ShieldMiner || e is ShieldCrystalMiner
}

pub open spec fn spec_armored(e: Enemy) -> bool {
    e is Tentacle
}

pub open spec fn spec_aerial(e: Enemy) -> bool {
    e is Bat || e is Skeeto || e is SmallSkeeto || e is Bee || e is Nest || e is Tentacle
}

pub open spec fn spec_flying(e: Enemy) -> bool {
    e is Skeeto || e is SmallSkeeto || e is Bee
}

pub open spec fn spec_ranged(e: Enemy) -> bool {
    e is BombSlug || e is CorruptSlug || e is Balloon || e is Bat
}

pub open spec fn spec_dangerous(e: Enemy) -> bool {
    e is SneezeSlug || e is Hornbug || e is Crab || e is SpinCrab || e is Miner || e is MaceMiner
        || e is ShieldMiner || e is CrystalMiner || e is ShieldCrystalMiner
}

impl Enemy {
    /// The enemy's health; every enemy has a whole number of health points.
    pub fn health(self) -> (r: u32)
        ensures
            r == enemy_health(self),
    {
        match self {
            Enemy::BombSlug | Enemy::CorruptSlug | Enemy::Balloon => 1,
            Enemy::SmallSkeeto => 8,
            Enemy::WeakSlug | Enemy::Spiderling => 12,
            Enemy::Slug => 13,
            Enemy::Skeeto | Enemy::Sandworm | Enemy::Tentacle => 20,
            Enemy::ShieldSlug | Enemy::Lizard | Enemy::Bee => 24,
            Enemy::Nest => 25,
            Enemy::Mantis | Enemy::SneezeSlug | Enemy::Bat | Enemy::Crab | Enemy::SpinCrab => 32,
            Enemy::Hornbug | Enemy::Miner => 40,
            Enemy::ShieldCrystalMiner => 50,
            Enemy::MaceMiner | Enemy::ShieldMiner => 60,
            Enemy::CrystalMiner => 80,
            Enemy::EnergyRefill => 0,
        }
    }

    /// Whether the enemy carries a shield.
    pub fn shielded(self) -> (r: bool)
        ensures
            r == spec_shielded(self),
    {
        matches!(self, Enemy::Hornbug | Enemy::ShieldSlug | Enemy::ShieldMiner | Enemy::ShieldCrystalMiner)
    }

    /// Whether the enemy is armored.
    pub fn armored(self) -> (r: bool)
        ensures
            r == spec_armored(self),
    {
        matches!(self, Enemy::Tentacle)
    }

    /// Whether the enemy counts as flying for restrictions on movement.
    pub fn aerial(self) -> (r: bool)
        ensures
            r == spec_aerial(self),
    {
        matches!(self, Enemy::Bat | Enemy::Skeeto | Enemy::SmallSkeeto | Enemy::Bee | Enemy::Nest | Enemy::Tentacle)
    }

    /// Whether the game considers the enemy flying, for wingclips.
    pub fn flying(self) -> (r: bool)
        ensures
            r == spec_flying(self),
    {
        matches!(self, Enemy::Skeeto | Enemy::SmallSkeeto | Enemy::Bee)
    }

    /// Whether fighting the enemy takes a ranged weapon.
    pub fn ranged(self) -> (r: bool)
        ensures
            r == spec_ranged(self),
    {
        matches!(self, Enemy::BombSlug | Enemy::CorruptSlug | Enemy::Balloon | Enemy::Bat)
    }

    /// Whether the enemy is dangerous to fight.
    pub fn dangerous(self) -> (r: bool)
        ensures
            r == spec_dangerous(self),
    {
        matches!(self, Enemy::SneezeSlug | Enemy::Hornbug | Enemy::Crab | Enemy::SpinCrab | Enemy::Miner | Enemy::MaceMiner | Enemy::ShieldMiner | Enemy::CrystalMiner | Enemy::ShieldCrystalMiner)
    }
}

/// Every enemy that the game considers flying also counts as flying for movement.
pub proof fn lemma_flying_is_aerial(e: Enemy)
    ensures
        spec_flying(e) ==> spec_aerial(e),
{
}

/// The kinds of node of the logic graph.
#[derive(Debug, Clone, PartialEq)]
pub enum NodeKind {
    Anchor,
    Pickup,
    State,
    Quest,
}

/// The spawn location of a seed that names none.
pub const DEFAULT_SPAWN: &'static str = "MarshSpawn.Main";

/// `n` spaces.
pub open spec fn spaces(n: nat) -> Seq<char> {
    Seq::new(n, |_i: int| ' ')
}

/// The length in bytes of the UTF-8 encoding of `s`, which `String::len` gives.
pub open spec fn byte_len(s: Seq<char>) -> nat {
    vstd::utf8::encode_utf8(s).len()
}

/// The number of spaces that pad a string of `len` bytes to `target` bytes.
pub open spec fn padding(len: nat, target: nat) -> nat {
    if target > len {
        (target - len) as nat
    } else {
        0
    }
}

/// Pads `string` with spaces at its end to a length of at least `target_length` bytes.
pub fn add_trailing_spaces(string: &mut String, target_length: usize)
    requires
        byte_len(old(string)@) <= usize::MAX,
    ensures
        final(string)@ == old(string)@ + spaces(padding(byte_len(old(string)@), target_length as nat)),
{
    let ghost before = string@;
    let start = string.as_str().len();
    let mut length = start;
    assert(string@ =~= before + spaces(0));
    while target_length > length
        invariant
            start == byte_len(before),
            start <= length,
            length <= target_length || length == start,
            string@ == before + spaces((length - start) as nat),
        decreases target_length - length,
    {
        proof { reveal_strlit(" "); }
        string.append(" ");
        assert(string@ =~= before + spaces((length + 1 - start) as nat));
        length += 1;
    }
    assert(padding(byte_len(before), target_length as nat) == length - start);
}

proof fn lemma_encode_utf8_concat(a: Seq<char>, b: Seq<char>)
    ensures
        vstd::utf8::encode_utf8(a + b) == vstd::utf8::encode_utf8(a) + vstd::utf8::encode_utf8(b),
    decreases a.len(),
{
    if a.len() == 0 {
        assert(a + b =~= b);
        assert(vstd::utf8::encode_utf8(a) =~= Seq::<u8>::empty());
        assert(vstd::utf8::encode_utf8(a) + vstd::utf8::encode_utf8(b) =~= vstd::utf8::encode_utf8(b));
    } else {
        assert((a + b).drop_first() =~= a.drop_first() + b);
        assert((a + b)[0] == a[0]);
        lemma_encode_utf8_concat(a.drop_first(), b);
        assert(vstd::utf8::encode_utf8(a + b) =~= vstd::utf8::encode_utf8(a) + vstd::utf8::encode_utf8(b));
    }
}

proof fn lemma_spaces_byte_len(n: nat)
    ensures
        byte_len(spaces(n)) == n,
    decreases n,
{
    if n > 0 {
        assert(spaces(n).drop_first() =~= spaces((n - 1) as nat));
        lemma_spaces_byte_len((n - 1) as nat);
        assert(vstd::utf8::encode_scalar(' ' as u32).len() == 1);
    } else {
        assert(vstd::utf8::encode_utf8(spaces(n)) =~= Seq::<u8>::empty());
    }
}

/// After padding, a string is as long in bytes as the target, or as it was where it was
/// already longer.
pub proof fn lemma_padded_length(s: Seq<char>, target: nat)
    ensures
        byte_len(s + spaces(padding(byte_len(s), target))) == if target > byte_len(s) {
            target
        } else {
            byte_len(s)
        },
{
    lemma_encode_utf8_concat(s, spaces(padding(byte_len(s), target)));
    lemma_spaces_byte_len(padding(byte_len(s), target));
}

/// The number of characters of `s` before its first line break.
pub open spec fn line_length(s: Seq<char>) -> nat
    decreases s.len(),
{
    if s.len() == 0 || s[0] == '\n' {
        0
    } else {
        1 + line_length(s.drop_first())
    }
}

/// The first line of `s` as `str::lines` yields it: without its `\n`, nor a `\r` before that.
pub open spec fn first_line(s: Seq<char>) -> Seq<char> {
    let k = line_length(s) as int;
    if 0 < k < s.len() && s[k - 1] == '\r' {
        s.take(k - 1)
    } else {
        s.take(k)
    }
}

/// The position of the first `//` in `s`.
pub open spec fn double_slash_index(s: Seq<char>) -> Option<int>
    decreases s.len(),
{
    if s.len() < 2 {
        None
    } else if s[0] == '/' && s[1] == '/' {
        Some(0)
    } else {
        match double_slash_index(s.drop_first()) {
            Some(i) => Some(i + 1),
            None => None,
        }
    }
}

/// The start of a seed's spawn line.
pub open spec fn spawn_prefix() -> Seq<char> {
    seq!['S', 'p', 'a', 'w', 'n', ':', ' ']
}

pub open spec fn starts_with(s: Seq<char>, prefix: Seq<char>) -> bool {
    prefix.len() <= s.len() && s.take(prefix.len() as int) == prefix
}

/// What the rest of a spawn line (after `Spawn: `) names: the text after its first `//`,
/// trimmed; `None` where it holds no `//`.
pub open spec fn spawn_line_identifier(rest: Seq<char>) -> Option<Seq<char>> {
    match double_slash_index(rest) {
        Some(j) => Some(trim(rest.skip(j + 2))),
        None => None,
    }
}

/// The spawn line of a seed, if it has one: the first of its lines that starts with
/// `Spawn: `, read by `spawn_line_identifier`.
pub open spec fn seed_spawn(s: Seq<char>) -> Option<Option<Seq<char>>>
    decreases s.len(),
{
    let line = first_line(s);
    if starts_with(line, spawn_prefix()) {
        Some(spawn_line_identifier(line.skip(spawn_prefix().len() as int)))
    } else if line_length(s) >= s.len() {
        None
    } else {
        seed_spawn(s.skip(line_length(s) + 1int))
    }
}

pub proof fn lemma_line_length_concat(a: Seq<char>, b: Seq<char>)
    requires
        forall|i: int| 0 <= i < a.len() ==> #[trigger] a[i] != '\n',
        b.len() == 0 || b[0] == '\n',
    ensures
        line_length(a + b) == a.len(),
    decreases a.len(),
{
    if a.len() == 0 {
        assert(a + b =~= b);
    } else {
        assert((a + b).drop_first() =~= a.drop_first() + b);
        assert(a[0] != '\n');
        assert forall|i: int| 0 <= i < a.drop_first().len() implies #[trigger] a.drop_first()[i] != '\n' by {
            assert(a.drop_first()[i] == a[i + 1]);
        }
        lemma_line_length_concat(a.drop_first(), b);
    }
}

pub proof fn lemma_double_slash_index(s: Seq<char>, j: int)
    requires
        0 <= j,
        forall|i: int| 0 <= i < j && i + 1 < s.len() ==> !(#[trigger] s[i] == '/' && s[i + 1] == '/'),
    ensures
        j + 1 < s.len() && s[j] == '/' && s[j + 1] == '/' ==> double_slash_index(s) == Some(j),
        j + 1 >= s.len() ==> double_slash_index(s) is None,
    decreases s.len(),
{
    if s.len() >= 2 && j > 0 {
        assert(!(s[0] == '/' && s[1] == '/'));
        let t = s.drop_first();
        assert forall|i: int| 0 <= i < j - 1 && i + 1 < t.len() implies !(#[trigger] t[i] == '/' && t[i + 1] == '/') by {
            assert(t[i] == s[i + 1] && t[i + 1] == s[i + 2]);
        }
        lemma_double_slash_index(t, j - 1);
        if j + 1 < s.len() {
            assert(t[j - 1] == s[j] && t[j] == s[j + 1]);
        }
    }
}

/// Whether a line of `s` starts at position `i`: at the start of `s`, or right after a `\n`.
pub open spec fn line_starts_at(s: Seq<char>, i: int) -> bool {
    i == 0 || (1 <= i <= s.len() && s[i - 1] == '\n')
}

/// Whether the line of `s` that starts at `i` starts with `Spawn: `.
pub open spec fn spawn_line_at(s: Seq<char>, i: int) -> bool {
    &&& 0 <= i
    &&& i + 7 <= s.len()
    &&& line_starts_at(s, i)
    &&& s.subrange(i, i + 7) == spawn_prefix()
}

proof fn lemma_line_length_facts(s: Seq<char>)
    ensures
        line_length(s) <= s.len(),
        forall|j: int| 0 <= j < line_length(s) ==> #[trigger] s[j] != '\n',
        line_length(s) < s.len() ==> s[line_length(s) as int] == '\n',
    decreases s.len(),
{
    if s.len() > 0 && s[0] != '\n' {
        let t = s.drop_first();
        lemma_line_length_facts(t);
        assert forall|j: int| 0 <= j < line_length(s) implies #[trigger] s[j] != '\n' by {
            if j > 0 {
                assert(s[j] == t[j - 1]);
            }
        }
        if line_length(s) < s.len() {
            assert(s[line_length(s) as int] == t[line_length(t) as int]);
        }
    }
}

/// The first line of `s` starts with `Spawn: ` exactly when `s` has a spawn line at 0.
proof fn lemma_spawn_line_at_start(s: Seq<char>)
    ensures
        spawn_line_at(s, 0) == starts_with(first_line(s), spawn_prefix()),
{
    lemma_line_length_facts(s);
    let k = line_length(s) as int;
    let fl = first_line(s);
    let p = spawn_prefix();
    assert(p.len() == 7);
    assert(fl =~= s.take(fl.len() as int));
    if spawn_line_at(s, 0) {
        if k < 7 {
            assert(s[k] == p[k]);
        }
        if 0 < k < s.len() && s[k - 1] == '\r' {
            if k == 7 {
                assert(s[6] == p[6]);
            }
        }
        assert(fl.take(7) =~= s.subrange(0, 7));
    }
    if starts_with(fl, p) {
        assert(fl.take(7) =~= s.subrange(0, 7));
    }
}

/// Past the first line of `s`, the spawn lines of `s` are those of the rest of `s`.
proof fn lemma_spawn_line_shift(s: Seq<char>, i: int)
    requires
        line_length(s) < s.len(),
        i > 0,
    ensures
        spawn_line_at(s, i) == (i >= line_length(s) + 1 && spawn_line_at(
            s.skip(line_length(s) + 1int),
            i - line_length(s) - 1,
        )),
{
    lemma_line_length_facts(s);
    let k = line_length(s) as int;
    let t = s.skip(k + 1);
    if i >= k + 1 && i + 7 <= s.len() {
        assert(s.subrange(i, i + 7) =~= t.subrange(i - k - 1, i - k + 6));
        if i > k + 1 {
            assert(s[i - 1] == t[i - k - 2]);
        }
    }
    if i < k + 1 && i <= s.len() {
        assert(s[i - 1] != '\n');
    }
}

/// A line of `s` that has no line break after it is the last line.
proof fn lemma_no_spawn_line_after_last(s: Seq<char>, i: int)
    requires
        line_length(s) >= s.len(),
        i > 0,
    ensures
        !spawn_line_at(s, i),
{
    lemma_line_length_facts(s);
    if 1 <= i <= s.len() {
        assert(s[i - 1] != '\n');
    }
}

/// A seed with a line that starts with `Spawn: ` has a spawn line.
pub proof fn lemma_seed_spawn_some(s: Seq<char>, i: int)
    requires
        spawn_line_at(s, i),
    ensures
        seed_spawn(s) is Some,
    decreases s.len(),
{
    lemma_spawn_line_at_start(s);
    lemma_line_length_facts(s);
    if !spawn_line_at(s, 0) {
        let k = line_length(s) as int;
        if k >= s.len() {
            lemma_no_spawn_line_after_last(s, i);
        } else {
            lemma_spawn_line_shift(s, i);
            lemma_seed_spawn_some(s.skip(k + 1), i - k - 1);
        }
    }
}

/// A seed with no line that starts with `Spawn: ` has no spawn line.
pub proof fn lemma_seed_spawn_none(s: Seq<char>)
    requires
        forall|i: int| !#[trigger] spawn_line_at(s, i),
    ensures
        seed_spawn(s) is None,
    decreases s.len(),
{
    lemma_spawn_line_at_start(s);
    lemma_line_length_facts(s);
    assert(!spawn_line_at(s, 0));
    let k = line_length(s) as int;
    if k < s.len() {
        let t = s.skip(k + 1);
        assert forall|j: int| !#[trigger] spawn_line_at(t, j) by {
            if j >= 0 {
                lemma_spawn_line_shift(s, j + k + 1);
                assert(!spawn_line_at(s, j + k + 1));
            }
        }
        lemma_seed_spawn_none(t);
    }
}

/// A seed spawns at `DEFAULT_SPAWN` exactly when none of its lines starts with `Spawn: `.
pub proof fn lemma_seed_default_iff_no_spawn_line(s: Seq<char>)
    ensures
        (seed_spawn(s) is None) == (forall|i: int| !#[trigger] spawn_line_at(s, i)),
{
    if forall|i: int| !#[trigger] spawn_line_at(s, i) {
        lemma_seed_spawn_none(s);
    } else {
        let i = choose|i: int| #[trigger] spawn_line_at(s, i);
        lemma_seed_spawn_some(s, i);
    }
}

/// The first line of a seed that starts with `Spawn: `, wherever it stands, is the line
/// that is read: its rest after `Spawn: ` decides the result.
pub proof fn lemma_seed_first_spawn_line(s: Seq<char>, i: int)
    requires
        spawn_line_at(s, i),
        forall|j: int| 0 <= j < i ==> !#[trigger] spawn_line_at(s, j),
    ensures
        seed_spawn(s) == Some(spawn_line_identifier(first_line(s.skip(i)).skip(7))),
    decreases s.len(),
{
    lemma_spawn_line_at_start(s);
    lemma_line_length_facts(s);
    assert(spawn_prefix().len() == 7);
    if spawn_line_at(s, 0) {
        assert(i == 0);
        assert(s.skip(0) =~= s);
    } else {
        let k = line_length(s) as int;
        if k >= s.len() {
            lemma_no_spawn_line_after_last(s, i);
        } else {
            let t = s.skip(k + 1);
            lemma_spawn_line_shift(s, i);
            assert forall|j: int| 0 <= j < i - k - 1 implies !#[trigger] spawn_line_at(t, j) by {
                lemma_spawn_line_shift(s, j + k + 1);
            }
            lemma_seed_first_spawn_line(t, i - k - 1);
            assert(s.skip(i) =~= t.skip(i - k - 1));
        }
    }
}

/// Lines before the spawn line do not change what a seed reads: where `a` ends with a line
/// break and none of its lines starts with `Spawn: `, `a + b` reads as `b` does.
pub proof fn lemma_seed_spawn_skips_lines(a: Seq<char>, b: Seq<char>)
    requires
        a.len() > 0,
        a.last() == '\n',
        forall|i: int| !#[trigger] spawn_line_at(a, i),
    ensures
        seed_spawn(a + b) == seed_spawn(b),
    decreases a.len(),
{
    let s = a + b;
    lemma_line_length_facts(s);
    lemma_line_length_facts(a);
    let k = line_length(s) as int;
    if k > a.len() - 1 {
        assert(s[a.len() - 1] == a[a.len() - 1]);
    }
    assert(k <= a.len() - 1);
    // The first lines of `a` and of `a + b` are the same.
    assert forall|j: int| 0 <= j < k implies #[trigger] a.take(k)[j] != '\n' by {
        assert(a[j] == s[j]);
    }
    assert(s[k] == a[k]);
    assert(a =~= a.take(k) + a.skip(k));
    lemma_line_length_concat(a.take(k), a.skip(k));
    lemma_spawn_line_at_start(s);
    if spawn_line_at(s, 0) {
        if k < 7 {
            assert(s[k] == s.subrange(0, 7)[k]);
            assert(spawn_prefix()[k] != '\n');
        }
        assert(s.subrange(0, 7) =~= a.subrange(0, 7));
        assert(spawn_line_at(a, 0));
    }
    assert(!spawn_line_at(s, 0));
    let a2 = a.skip(k + 1);
    assert(s.skip(k + 1) =~= a2 + b);
    if a2.len() == 0 {
        assert(a2 + b =~= b);
    } else {
        assert(a2.last() == a.last());
        assert forall|j: int| !#[trigger] spawn_line_at(a2, j) by {
            if j >= 0 {
                lemma_spawn_line_shift(a, j + k + 1);
                assert(!spawn_line_at(a, j + k + 1));
            }
        }
        lemma_seed_spawn_skips_lines(a2, b);
    }
}

/// The end of the line of `v` that starts at `start`: the position of the next `\n`, or
/// the end of `v`.
fn line_end(v: &Vec<char>, start: usize) -> (e: usize)
    requires
        start <= v.len(),
    ensures
        start <= e <= v.len(),
        e - start == line_length(v@.skip(start as int)),
{
    let mut i = start;
    while i < v.len() && v[i] != '\n'
        invariant
            start <= i <= v.len(),
            forall|k: int| start <= k < i ==> #[trigger] v@[k] != '\n',
        decreases v.len() - i,
    {
        i = i + 1;
    }
    proof {
        let a = v@.subrange(start as int, i as int);
        let b = v@.skip(i as int);
        assert(v@.skip(start as int) =~= a + b);
        assert forall|k: int| 0 <= k < a.len() implies #[trigger] a[k] != '\n' by {
            assert(a[k] == v@[start + k]);
        }
        if b.len() > 0 {
            assert(b[0] == v@[i as int]);
        }
        lemma_line_length_concat(a, b);
    }
    i
}

/// The position of the first `//` in `v[start..end]`.
fn find_double_slash(v: &Vec<char>, start: usize, end: usize) -> (r: Option<usize>)
    requires
        start <= end <= v.len(),
    ensures
        match double_slash_index(v@.subrange(start as int, end as int)) {
            Some(j) => r == Some((start + j) as usize),
            None => r is None,
        },
        r matches Some(k) ==> start <= k && k + 2 <= end && double_slash_index(
            v@.subrange(start as int, end as int),
        ) == Some(k - start),
{
    let ghost s = v@.subrange(start as int, end as int);
    let mut i = start;
    while end - i > 1 && !(v[i] == '/' && v[i + 1] == '/')
        invariant
            start <= i <= end <= v.len(),
            s == v@.subrange(start as int, end as int),
            forall|k: int| 0 <= k < i - start && k + 1 < s.len() ==> !(#[trigger] s[k] == '/' && s[k + 1] == '/'),
        decreases end - i,
    {
        assert(s[i - start] == v@[i as int] && s[i - start + 1] == v@[i + 1]);
        i = i + 1;
    }
    proof {
        lemma_double_slash_index(s, i - start);
    }
    if end - i > 1 {
        assert(s[i - start] == v@[i as int] && s[i - start + 1] == v@[i + 1]);
        Some(i)
    } else {
        None
    }
}

/// Whether `v[start..]` starts with `Spawn: `.
fn has_spawn_prefix(v: &Vec<char>, start: usize, end: usize) -> (r: bool)
    requires
        start <= end <= v.len(),
    ensures
        r == starts_with(v@.subrange(start as int, end as int), spawn_prefix()),
{
    let ghost s = v@.subrange(start as int, end as int);
    if end - start < 7 {
        return false;
    }
    let r = v[start] == 'S' && v[start + 1] == 'p' && v[start + 2] == 'a' && v[start + 3] == 'w'
        && v[start + 4] == 'n' && v[start + 5] == ':' && v[start + 6] == ' ';
    assert(r == (s.take(7) =~= spawn_prefix()));
    r
}

/// Reads the spawn location from a generated seed: the identifier that its spawn line
/// names after `//`, e.g. `MarshSpawn.Main` in `Spawn: -799, -4310  // MarshSpawn.Main`.
/// A seed without a spawn line spawns at `DEFAULT_SPAWN`; a spawn line without `//` is an
/// error.
pub fn spawn_from_seed(input: &str) -> (r: Result<String, String>)
    ensures
        match seed_spawn(input@) {
            None => r is Ok && r->Ok_0@ == DEFAULT_SPAWN@,
            Some(Some(identifier)) => r is Ok && r->Ok_0@ == identifier,
            Some(None) => r is Err && r->Err_0@ == "Failed to read spawn location from seed"@,
        },
{
    let v = chars_of(input);
    let len = v.len();
    let mut pos: usize = 0;
    assert(v@.skip(0) =~= v@);
    loop
        invariant
            0 <= pos <= len,
            len == v.len(),
            v@ == input@,
            seed_spawn(v@) == seed_spawn(v@.skip(pos as int)),
        decreases len - pos,
    {
        let ghost s = v@.skip(pos as int);
        let e = line_end(&v, pos);
        let line_stop = if pos < e && e < len && v[e - 1] == '\r' {
            e - 1
        } else {
            e
        };
        assert(v@.subrange(pos as int, line_stop as int) =~= first_line(s));
        if has_spawn_prefix(&v, pos, line_stop) {
            let rest_start = pos + 7;
            let ghost rest = first_line(s).skip(7);
            assert(rest =~= v@.subrange(rest_start as int, line_stop as int));
            match find_double_slash(&v, rest_start, line_stop) {
                Some(j) => {
                    let (a, b) = trim_bounds(&v, j + 2, line_stop);
                    assert(rest.skip(j + 2 - rest_start) =~= v@.subrange(j + 2, line_stop as int));
                    let identifier = input.substring_char(a, b);
                    assert(spawn_prefix().len() == 7);
                    assert(double_slash_index(rest) == Some(j - rest_start));
                    assert(spawn_line_identifier(rest) == Some(identifier@));
                    assert(seed_spawn(s) == Some(spawn_line_identifier(rest)));
                    return Ok(String::from_str(identifier));
                },
                None => {
                    return Err(String::from_str("Failed to read spawn location from seed"));
                },
            }
        }
        if e >= len {
            return Ok(String::from_str(DEFAULT_SPAWN));
        }
        assert(s.skip(line_length(s) + 1int) =~= v@.skip(e + 1));
        pos = e + 1;
    }
}

} // verus!
