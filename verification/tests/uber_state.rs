use std::str::FromStr;

use wotw_seedgen::uber_state::{
    UberIdentifier, UberStateComparator, UberStateCondition, UberStateTrigger, UberType,
};

#[test]
fn trigger_eq() {
    let trigger = |s| UberStateTrigger::from_str(s).unwrap();

    assert!(trigger("9|0>1").functionally_eq(&trigger("9|0>=2")));
    assert!(trigger("9|0>=2").functionally_eq(&trigger("9|0>1")));
    assert!(!trigger("9|0=2").functionally_eq(&trigger("9|0>=2")));
    assert!(!trigger("9|0=2").functionally_eq(&trigger("9|0")));
    assert!(trigger("9|0<2").functionally_eq(&trigger("9|0<=1")));
    assert!(trigger("9|0<=1").functionally_eq(&trigger("9|0<2")));
}

fn condition(comparator: UberStateComparator, value: u32) -> UberStateCondition {
    UberStateCondition { comparator, value }
}

#[test]
fn trigger_parses_each_comparator() {
    let cases = [
        ("6|2=7", UberStateComparator::Equals),
        ("6|2>7", UberStateComparator::Greater),
        ("6|2>=7", UberStateComparator::GreaterOrEquals),
        ("6|2<7", UberStateComparator::Less),
        ("6|2<=7", UberStateComparator::LessOrEquals),
    ];
    for (code, comparator) in cases {
        let trigger = UberStateTrigger::parse(code).unwrap();
        assert_eq!(trigger.identifier, UberIdentifier::new(6, 2));
        assert_eq!(trigger.condition, Some(condition(comparator, 7)));
    }
    let bare = UberStateTrigger::parse("48248|19396").unwrap();
    assert_eq!(bare.identifier, UberIdentifier::new(48248, 19396));
    assert_eq!(bare.condition, None);
}

#[test]
fn trigger_parse_errors() {
    for bad in ["", "9", "9|", "|0", "9|0>", "9|0=>2", "9|0>=2x", "9|0 >= 2", "70000|0", "9|65536", "9|0>4294967296", "a|b"] {
        assert_eq!(
            UberStateTrigger::parse(bad),
            Err(format!("Invalid uberState trigger {}", bad)),
        );
    }
    assert_eq!(
        UberStateTrigger::parse("65535|65535>=4294967295").unwrap().condition,
        Some(condition(UberStateComparator::GreaterOrEquals, 4294967295)),
    );
}

#[test]
fn trigger_code_round_trip() {
    let triggers = [
        UberStateTrigger { identifier: UberIdentifier::new(0, 0), condition: None },
        UberStateTrigger {
            identifier: UberIdentifier::new(65535, 10),
            condition: Some(condition(UberStateComparator::LessOrEquals, 0)),
        },
        UberStateTrigger {
            identifier: UberIdentifier::new(945, 49747),
            condition: Some(condition(UberStateComparator::Greater, 4294967295)),
        },
    ];
    assert_eq!(triggers[0].code(), "0|0");
    assert_eq!(triggers[1].code(), "65535|10<=0");
    assert_eq!(triggers[2].code(), "945|49747>4294967295");
    for trigger in triggers {
        assert_eq!(UberStateTrigger::parse(&trigger.code()), Ok(trigger.clone()));
    }
}

#[test]
fn condition_and_comparator_display() {
    assert_eq!(UberStateComparator::Equals.to_string(), "=");
    assert_eq!(UberStateComparator::Greater.to_string(), ">");
    assert_eq!(UberStateComparator::GreaterOrEquals.to_string(), ">=");
    assert_eq!(UberStateComparator::Less.to_string(), "<");
    assert_eq!(UberStateComparator::LessOrEquals.to_string(), "<=");
    assert_eq!(condition(UberStateComparator::GreaterOrEquals, 12).to_string(), ">=12");
}

#[test]
fn condition_functional_equality() {
    let gt = |v| condition(UberStateComparator::Greater, v);
    let ge = |v| condition(UberStateComparator::GreaterOrEquals, v);
    let lt = |v| condition(UberStateComparator::Less, v);
    let le = |v| condition(UberStateComparator::LessOrEquals, v);
    assert!(gt(4).functionally_eq(&ge(5)));
    assert!(!gt(4).functionally_eq(&ge(4)));
    assert!(!gt(4).functionally_eq(&ge(6)));
    assert!(le(4).functionally_eq(&lt(5)));
    assert!(lt(5).functionally_eq(&le(4)));
    // saturating: no value lies below 0
    assert!(!ge(0).functionally_eq(&gt(0)));
    assert!(!lt(0).functionally_eq(&le(0)));
    assert!(ge(3).functionally_eq(&ge(3)));
    assert!(!ge(3).functionally_eq(&le(3)));
    // functional equality does not depend on the order of the two conditions
    let comparators = [
        UberStateComparator::Equals,
        UberStateComparator::Greater,
        UberStateComparator::GreaterOrEquals,
        UberStateComparator::Less,
        UberStateComparator::LessOrEquals,
    ];
    for a in comparators.iter() {
        for b in comparators.iter() {
            for x in 0..4u32 {
                for y in 0..4u32 {
                    let p = condition(a.clone(), x);
                    let q = condition(b.clone(), y);
                    assert_eq!(p.functionally_eq(&q), q.functionally_eq(&p));
                }
            }
        }
    }
}

#[test]
fn trigger_functional_equality_needs_same_identifier() {
    let a = UberStateTrigger::parse("9|0>1").unwrap();
    let b = UberStateTrigger::parse("9|1>=2").unwrap();
    assert!(!a.functionally_eq(&b));
    assert!(a.functionally_eq(&a));
    let bare = UberStateTrigger::parse("9|0").unwrap();
    assert!(bare.functionally_eq(&bare));
    assert!(!bare.functionally_eq(&a));
}

#[test]
fn special_triggers() {
    assert_eq!(UberIdentifier::spawn(), UberIdentifier::new(3, 0));
    assert_eq!(UberIdentifier::load(), UberIdentifier::new(3, 1));
    assert_eq!(UberStateTrigger::spawn().code(), "3|0");
    assert_eq!(UberStateTrigger::load().code(), "3|1");
    assert_eq!(UberStateTrigger::spawn().set_value(), 1);
    assert_eq!(UberStateTrigger::parse("5|5>=9").unwrap().set_value(), 9);
}

#[test]
fn shop_states() {
    assert!(UberIdentifier::new(1, 23).is_shop());
    assert!(UberIdentifier::new(2, 5).is_shop());
    assert!(UberIdentifier::new(48248, 57987).is_shop());
    assert!(!UberIdentifier::new(48248, 18767).is_shop());
    assert!(UberIdentifier::new(48248, 18767).is_purchasable());
    assert!(UberIdentifier::new(48248, 4045).is_purchasable());
    assert!(!UberIdentifier::new(48248, 1).is_purchasable());
    assert!(!UberIdentifier::new(3, 0).is_shop());
    // every shop state is purchasable
    for id in [19396, 57987, 41666] {
        assert!(UberIdentifier::new(48248, id).is_purchasable());
    }
}

#[test]
fn identifier_code_and_name() {
    assert_eq!(UberIdentifier::new(945, 49747).code(), "945|49747");
    assert_eq!(UberIdentifier::new(0, 0).to_string(), "trees.bash");
    assert_eq!(UberIdentifier::new(0, 5).to_string(), "trees.double_jump");
    assert_eq!(UberIdentifier::new(63018, 22925).to_string(), "testUberStateGroupDescriptor.floatUberStateDescriptor");
    assert_eq!(UberIdentifier::new(40000, 34).to_string(), "40000|34");
}

#[test]
fn uber_type_code_and_parse() {
    for t in [UberType::Bool, UberType::Byte, UberType::Int, UberType::Float] {
        assert_eq!(UberType::from_str(&t.code()), Ok(t.clone()));
    }
    assert_eq!(UberType::Teleporter.code(), "teleporter");
    assert_eq!(UberType::from_str("teleporter"), Ok(UberType::Bool));
    assert_eq!(UberType::parse("Bool"), Err("Invalid uberState type Bool".to_string()));
    assert_eq!(UberType::parse(""), Err("Invalid uberState type ".to_string()));
}
