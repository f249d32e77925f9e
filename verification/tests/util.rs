use wotw_seedgen::util::icon::{GromIcon, LupoIcon, OpherIcon, TuleyIcon};
use wotw_seedgen::util::{
    add_trailing_spaces, spawn_from_seed, Enemy, Icon, NumericBool, Spell, Zone, DEFAULT_SPAWN,
};

#[test]
fn spawn_from_seed_reads_identifier() {
    let seed = "Flags: Random Spawn\nSpawn: -799, -4310  // MarshSpawn.Main \n3|0|8|9|0|int|1\n";
    assert_eq!(spawn_from_seed(seed), Ok("MarshSpawn.Main".to_string()));
    let crlf = "// header\r\nSpawn: 1, 2 //   WoodsEntry.Teleporter\r\nother";
    assert_eq!(spawn_from_seed(crlf), Ok("WoodsEntry.Teleporter".to_string()));
}

#[test]
fn spawn_from_seed_takes_first_spawn_line() {
    let seed = "Spawn: 1, 2 // First\nSpawn: 3, 4 // Second";
    assert_eq!(spawn_from_seed(seed), Ok("First".to_string()));
    let split = "Spawn: 1 // a // b";
    assert_eq!(spawn_from_seed(split), Ok("a // b".to_string()));
    let empty_identifier = "Spawn: 1 //   ";
    assert_eq!(spawn_from_seed(empty_identifier), Ok("".to_string()));
}

#[test]
fn spawn_from_seed_default_and_error() {
    assert_eq!(spawn_from_seed(""), Ok(DEFAULT_SPAWN.to_string()));
    assert_eq!(spawn_from_seed("Flags: none\n  Spawn: 1 // x\nSpawn:1//y"), Ok("MarshSpawn.Main".to_string()));
    assert_eq!(
        spawn_from_seed("Spawn: -799, -4310\n"),
        Err("Failed to read spawn location from seed".to_string()),
    );
    assert_eq!(
        spawn_from_seed("a\nSpawn: x / y\nSpawn: z // w"),
        Err("Failed to read spawn location from seed".to_string()),
    );
}

#[test]
fn trailing_spaces() {
    let mut s = String::from("abc");
    add_trailing_spaces(&mut s, 6);
    assert_eq!(s, "abc   ");
    add_trailing_spaces(&mut s, 2);
    assert_eq!(s, "abc   ");
    let mut wide = String::from("é");
    add_trailing_spaces(&mut wide, 4);
    assert_eq!(wide, "é  ");
    assert_eq!(wide.len(), 4);
}

#[test]
fn enemy_properties() {
    assert!(Enemy::Hornbug.shielded() && Enemy::Hornbug.dangerous());
    assert!(!Enemy::Mantis.shielded());
    assert!(Enemy::Tentacle.armored() && Enemy::Tentacle.aerial() && !Enemy::Tentacle.flying());
    assert!(Enemy::Bee.flying() && Enemy::Bee.aerial());
    assert!(Enemy::Bat.ranged() && Enemy::Bat.aerial());
    assert!(!Enemy::Slug.ranged() && !Enemy::Slug.dangerous());
    for e in [Enemy::Skeeto, Enemy::SmallSkeeto, Enemy::Bee] {
        assert!(e.flying() && e.aerial());
    }
}

#[test]
fn enemy_health_points() {
    assert_eq!(Enemy::BombSlug.health(), 1);
    assert_eq!(Enemy::Slug.health(), 13);
    assert_eq!(Enemy::Nest.health(), 25);
    assert_eq!(Enemy::Mantis.health(), 32);
    assert_eq!(Enemy::CrystalMiner.health(), 80);
    assert_eq!(Enemy::EnergyRefill.health(), 0);
}

#[test]
fn enum_numbers() {
    assert_eq!(NumericBool::True.to_primitive(), 1);
    assert_eq!(NumericBool::try_from_primitive(0), Some(NumericBool::False));
    assert_eq!(NumericBool::try_from_primitive(2), None);
    assert_eq!(Spell::DoubleJump.to_primitive(), 3004);
    assert_eq!(Spell::try_from_primitive(2019), Some(Spell::Launch));
    assert_eq!(Spell::try_from_primitive(1006), None);
    assert_eq!(Zone::Woods.to_primitive(), 7);
    assert_eq!(Zone::from_primitive(6), Zone::Reach);
    assert_eq!(Zone::from_primitive(200), Zone::Void);
    assert_eq!(Zone::try_from_primitive(15), None);
    assert!(Zone::Reach < Zone::Woods);
    for n in 0..=255u8 {
        if let Some(z) = Zone::try_from_primitive(n) {
            assert_eq!(z.to_primitive(), n);
        }
    }
    assert_eq!(OpherIcon::FastTravel.to_primitive(), 11);
    assert_eq!(LupoIcon::try_from_primitive(2), Some(LupoIcon::ShardsMap));
    assert_eq!(GromIcon::TheGorlekTouch.to_primitive(), 6);
    assert_eq!(TuleyIcon::try_from_primitive(6), None);
}

#[test]
fn icon_codes() {
    assert_eq!(Icon::Shard(13).code(), "shard:13");
    assert_eq!(Icon::Spell(Spell::Hammer).code(), "spell:1000");
    assert_eq!(Icon::Opher(OpherIcon::Spear).code(), "opher:6");
    assert_eq!(Icon::Lupo(LupoIcon::HealthFragmentsMap).code(), "lupo:1");
    assert_eq!(Icon::Grom(GromIcon::RepairTheSpiritWell).code(), "grom:0");
    assert_eq!(Icon::Tuley(TuleyIcon::BlueMoon).code(), "tuley:3");
    assert_eq!(Icon::File("assets/icon.png".to_string()).code(), "file:assets/icon.png");
}

#[test]
fn icon_codes_differ() {
    let icons = [
        Icon::Shard(1),
        Icon::Shard(10),
        Icon::Spell(Spell::Hammer),
        Icon::Spell(Spell::Bow),
        Icon::Opher(OpherIcon::Sentry),
        Icon::Lupo(LupoIcon::EnergyFragmentsMap),
        Icon::Grom(GromIcon::RepairTheSpiritWell),
        Icon::Tuley(TuleyIcon::SelaFlowers),
        Icon::File("1".to_string()),
        Icon::File("spell:1000".to_string()),
    ];
    for (i, a) in icons.iter().enumerate() {
        for (j, b) in icons.iter().enumerate() {
            assert_eq!(a.code() == b.code(), i == j);
        }
    }
}
