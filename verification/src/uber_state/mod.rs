//! UberStates: the game's state variables, how they are named, and the triggers and
//! conditions that watch them.

pub mod names;

use vstd::prelude::*;

use crate::text::{
    bounded_number, chars_of, count_leading_digits, decimal, lemma_decimal,
    lemma_leading_digits_concat, leading_digits, parse_bounded, push_decimal,
};

verus! {

/// The type of value an uberState holds.
#[derive(Debug, PartialEq, Eq, PartialOrd, Ord, Hash, Clone, Structural)]
pub enum UberType {
    Bool,
    Teleporter,
    Byte,
    Int,
    Float,
}

/// The name of an uberState type in seed code.
pub open spec fn uber_type_code(t: UberType) -> Seq<char> {
    match t {
        UberType::Bool => "bool"@,
        UberType::Teleporter => "teleporter"@,
        UberType::Byte => "byte"@,
        UberType::Int => "int"@,
        UberType::Float => "float"@,
    }
}

/// The uberState type a name in seed code stands for; `teleporter` states are read as `bool`.
pub open spec fn uber_type_from_code(s: Seq<char>) -> Option<UberType> {
    if s == "bool"@ || s == "teleporter"@ {
        Some(UberType::Bool)
    } else if s == "byte"@ {
        Some(UberType::Byte)
    } else if s == "int"@ {
        Some(UberType::Int)
    } else if s == "float"@ {
        Some(UberType::Float)
    } else {
        None
    }
}

/// Whether two strings hold the same characters.
fn str_eq(a: &str, b: &str) -> (r: bool)
    ensures
        r == (a@ == b@),
{
    let va = chars_of(a);
    let vb = chars_of(b);
    if va.len() != vb.len() {
        return false;
    }
    let mut i: usize = 0;
    while i < va.len()
        invariant
            va@ == a@,
            vb@ == b@,
            va.len() == vb.len(),
            0 <= i <= va.len(),
            forall|j: int| 0 <= j < i ==> va@[j] == vb@[j],
        decreases va.len() - i,
    {
        if va[i] != vb[i] {
            return false;
        }
        i = i + 1;
    }
    assert(va@ =~= vb@);
    true
}

impl UberType {
    /// The name of this type in seed code.
    pub fn code(&self) -> (r: String)
        ensures
            r@ == uber_type_code(*self),
    {
        match self {
            UberType::Bool => String::from_str("bool"),
            UberType::Teleporter => String::from_str("teleporter"),
            UberType::Byte => String::from_str("byte"),
            UberType::Int => String::from_str("int"),
            UberType::Float => String::from_str("float"),
        }
    }

    /// Reads a type name of seed code; an unknown name is an error that quotes it.
    pub fn parse(uber_type: &str) -> (r: Result<UberType, String>)
        ensures
            match uber_type_from_code(uber_type@) {
                Some(t) => r == Ok::<UberType, String>(t),
                None => r is Err && r->Err_0@ == "Invalid uberState type "@ + uber_type@,
            },
    {
        if str_eq(uber_type, "bool") || str_eq(uber_type, "teleporter") {
            Ok(UberType::Bool)
        } else if str_eq(uber_type, "byte") {
            Ok(UberType::Byte)
        } else if str_eq(uber_type, "int") {
            Ok(UberType::Int)
        } else if str_eq(uber_type, "float") {
            Ok(UberType::Float)
        } else {
            let mut message = String::from_str("Invalid uberState type ");
            message.append(uber_type);
            Err(message)
        }
    }
}

impl std::str::FromStr for UberType {
    type Err = String;

    fn from_str(uber_type: &str) -> (r: Result<UberType, String>)
        ensures
            match uber_type_from_code(uber_type@) {
                Some(t) => r == Ok::<UberType, String>(t),
                None => r is Err && r->Err_0@ == "Invalid uberState type "@ + uber_type@,
            },
    {
        UberType::parse(uber_type)
    }
}

/// Reading a type's code gives the type back, except for `teleporter`, which reads as `bool`.
pub proof fn lemma_uber_type_code_parse(t: UberType)
    ensures
        t != UberType::Teleporter ==> uber_type_from_code(uber_type_code(t)) == Some(t),
        t == UberType::Teleporter ==> uber_type_from_code(uber_type_code(t)) == Some(UberType::Bool),
{
    reveal_strlit("bool");
    reveal_strlit("teleporter");
    reveal_strlit("byte");
    reveal_strlit("int");
    reveal_strlit("float");
    // Distinct names differ in length or in their second character.
    assert("byte"@[1] != "bool"@[1]);
    assert("int"@.len() != "bool"@.len() && "int"@.len() != "teleporter"@.len());
    assert("int"@.len() != "byte"@.len());
    assert("float"@.len() != "bool"@.len() && "float"@.len() != "teleporter"@.len());
    assert("float"@.len() != "byte"@.len() && "float"@.len() != "int"@.len());
    assert("byte"@.len() != "teleporter"@.len());
}

/// The address of an uberState: its group and its id within the group.
#[derive(Debug, PartialEq, Eq, Hash, Clone, Copy, PartialOrd, Ord, Structural)]
pub struct UberIdentifier {
    pub uber_group: u16,
    pub uber_id: u16,
}

/// How an identifier is written in seed code: `group|id`.
pub open spec fn identifier_code(id: UberIdentifier) -> Seq<char> {
    decimal(id.uber_group as nat) + seq!['|'] + decimal(id.uber_id as nat)
}

/// The shop uberStates: groups 1 and 2, and three states of group 48248.
pub open spec fn spec_is_shop(id: UberIdentifier) -> bool {
    id.uber_group == 1 || id.uber_group == 2 || (id.uber_group == 48248 && (id.uber_id == 19396
        || id.uber_id == 57987 || id.uber_id == 41666))
}

/// The purchasable uberStates: the shop states and the other wares of group 48248.
pub open spec fn spec_is_purchasable(id: UberIdentifier) -> bool {
    id.uber_group == 1 || id.uber_group == 2 || (id.uber_group == 48248 && (id.uber_id == 18767
        || id.uber_id == 45538 || id.uber_id == 3638 || id.uber_id == 1590 || id.uber_id == 1557
        || id.uber_id == 29604 || id.uber_id == 48423 || id.uber_id == 61146 || id.uber_id == 4045
        || id.uber_id == 19396 || id.uber_id == 57987 || id.uber_id == 41666))
}

/// Appends `|` to `out`.
fn push_bar(out: &mut String)
    ensures
        final(out)@ == old(out)@ + seq!['|'],
{
    proof { reveal_strlit("|"); }
    out.append("|");
}

impl UberIdentifier {
    pub fn new(uber_group: u16, uber_id: u16) -> (r: Self)
        ensures
            r.uber_group == uber_group,
            r.uber_id == uber_id,
    {
        Self { uber_group, uber_id }
    }

    /// The identifier as seed code writes it, `group|id`.
    pub fn code(&self) -> (r: String)
        ensures
            r@ == identifier_code(*self),
    {
        let mut out = String::new();
        push_decimal(&mut out, self.uber_group as u32);
        push_bar(&mut out);
        push_decimal(&mut out, self.uber_id as u32);
        assert(out@ =~= identifier_code(*self));
        out
    }

    pub fn is_shop(&self) -> (r: bool)
        ensures
            r == spec_is_shop(*self),
    {
        (self.uber_group == 1 || self.uber_group == 2) || self.uber_group == 48248 && (
        self.uber_id == 19396 || self.uber_id == 57987 || self.uber_id == 41666)
    }

    pub fn is_purchasable(&self) -> (r: bool)
        ensures
            r == spec_is_purchasable(*self),
    {
        (self.uber_group == 1 || self.uber_group == 2) || self.uber_group == 48248 && (
        self.uber_id == 18767 || self.uber_id == 45538 || self.uber_id == 3638 || self.uber_id
            == 1590 || self.uber_id == 1557 || self.uber_id == 29604 || self.uber_id == 48423
            || self.uber_id == 61146 || self.uber_id == 4045 || self.uber_id == 19396
            || self.uber_id == 57987 || self.uber_id == 41666)
    }

    /// The uberState that is set when the game spawns the player.
    pub fn spawn() -> (r: UberIdentifier)
        ensures
            r == (UberIdentifier { uber_group: 3, uber_id: 0 }),
    {
        UberIdentifier::new(3, 0)
    }

    /// The uberState that is set when the game loads a save.
    pub fn load() -> (r: UberIdentifier)
        ensures
            r == (UberIdentifier { uber_group: 3, uber_id: 1 }),
    {
        UberIdentifier::new(3, 1)
    }
}

/// The name of the first entry of `table` that lists `id`.
pub open spec fn find_name(table: Seq<(&'static str, UberIdentifier)>, id: UberIdentifier) -> Option<
    Seq<char>,
>
    decreases table.len(),
{
    if table.len() == 0 {
        None
    } else if table[0].1 == id {
        Some(table[0].0@)
    } else {
        find_name(table.drop_first(), id)
    }
}

/// How an identifier is displayed: by its name in the game's data where it has one, else by
/// its code. The names that the randomizer itself gives some uberStates are not part of
/// this crate, so those states are named by the game's data or by their code.
pub open spec fn identifier_display(id: UberIdentifier) -> Seq<char> {
    match find_name(names::uber_state_names(), id) {
        Some(name) => name,
        None => identifier_code(id),
    }
}

/// A table gives an identifier the name of the first entry that lists it.
pub proof fn lemma_find_name_first(table: Seq<(&'static str, UberIdentifier)>, k: int, id: UberIdentifier)
    requires
        0 <= k < table.len(),
        table[k].1 == id,
        forall|j: int| 0 <= j < k ==> #[trigger] table[j].1 != id,
    ensures
        find_name(table, id) == Some(table[k].0@),
    decreases k,
{
    if k > 0 {
        let t = table.drop_first();
        assert(table[0].1 != id);
        assert forall|j: int| 0 <= j < k - 1 implies #[trigger] t[j].1 != id by {
            assert(t[j] == table[j + 1]);
        }
        assert(t[k - 1] == table[k]);
        lemma_find_name_first(t, k - 1, id);
    }
}

/// A table names no identifier that none of its entries lists.
pub proof fn lemma_find_name_absent(table: Seq<(&'static str, UberIdentifier)>, id: UberIdentifier)
    requires
        forall|k: int| 0 <= k < table.len() ==> #[trigger] table[k].1 != id,
    ensures
        find_name(table, id) is None,
    decreases table.len(),
{
    if table.len() > 0 {
        let t = table.drop_first();
        assert(table[0].1 != id);
        assert forall|k: int| 0 <= k < t.len() implies #[trigger] t[k].1 != id by {
            assert(t[k] == table[k + 1]);
        }
        lemma_find_name_absent(t, id);
    }
}

/// Every identifier that the game's data lists is displayed by the name of the first entry
/// that lists it.
pub proof fn lemma_listed_identifier_display(k: int)
    requires
        0 <= k < names::uber_state_names().len(),
        forall|j: int|
            0 <= j < k ==> #[trigger] names::uber_state_names()[j].1
                != names::uber_state_names()[k].1,
    ensures
        identifier_display(names::uber_state_names()[k].1) == names::uber_state_names()[k].0@,
{
    lemma_find_name_first(names::uber_state_names(), k, names::uber_state_names()[k].1);
}

/// An identifier that the game's data does not list is displayed as its code `group|id`.
pub proof fn lemma_unlisted_identifier_display(id: UberIdentifier)
    requires
        forall|k: int|
            0 <= k < names::uber_state_names().len() ==> #[trigger] names::uber_state_names()[k].1
                != id,
    ensures
        identifier_display(id) == identifier_code(id),
{
    lemma_find_name_absent(names::uber_state_names(), id);
}

impl UberIdentifier {
    /// The identifier as it is displayed: the name that the game's data gives it, or
    /// `group|id` where the data names it nowhere. The randomizer's own names for uberStates
    /// are not part of this crate and are not consulted.
    pub fn to_string(&self) -> (r: String)
        ensures
            r@ == identifier_display(*self),
    {
        let table = names::uber_state_table();
        let mut i: usize = 0;
        assert(table@.skip(0) =~= table@);
        while i < table.len()
            invariant
                0 <= i <= table.len(),
                find_name(table@, *self) == find_name(table@.skip(i as int), *self),
                table@ == names::uber_state_names(),
            decreases table.len() - i,
        {
            let (name, identifier) = table[i];
            assert(table@.skip(i as int)[0] == table@[i as int]);
            assert(table@.skip(i as int).drop_first() =~= table@.skip(i + 1));
            if identifier == *self {
                return String::from_str(name);
            }
            i = i + 1;
        }
        assert(table@.skip(i as int).len() == 0);
        self.code()
    }
}

/// Every shop uberState is purchasable.
pub proof fn lemma_shop_is_purchasable(id: UberIdentifier)
    ensures
        spec_is_shop(id) ==> spec_is_purchasable(id),
{
}

/// The shop uberStates are all states of groups 1 and 2, and the states 19396, 57987 and
/// 41666 of group 48248; no other state is a shop state.
pub proof fn lemma_shop_states(group: u16, id: u16)
    ensures
        spec_is_shop(UberIdentifier { uber_group: 1, uber_id: id }),
        spec_is_shop(UberIdentifier { uber_group: 2, uber_id: id }),
        spec_is_shop(UberIdentifier { uber_group: 48248, uber_id: 19396 }),
        spec_is_shop(UberIdentifier { uber_group: 48248, uber_id: 57987 }),
        spec_is_shop(UberIdentifier { uber_group: 48248, uber_id: 41666 }),
        group != 1 && group != 2 && !(group == 48248 && (id == 19396 || id == 57987 || id
            == 41666)) ==> !spec_is_shop(UberIdentifier { uber_group: group, uber_id: id }),
{
}

/// The purchasable uberStates are all states of groups 1 and 2, and twelve states of group
/// 48248; no other state is purchasable.
pub proof fn lemma_purchasable_states(group: u16, id: u16)
    ensures
        spec_is_purchasable(UberIdentifier { uber_group: 1, uber_id: id }),
        spec_is_purchasable(UberIdentifier { uber_group: 2, uber_id: id }),
        group == 48248 && (id == 18767 || id == 45538 || id == 3638 || id == 1590 || id == 1557
            || id == 29604 || id == 48423 || id == 61146 || id == 4045 || id == 19396 || id
            == 57987 || id == 41666) ==> spec_is_purchasable(
            UberIdentifier { uber_group: group, uber_id: id },
        ),
        group != 1 && group != 2 && !(group == 48248 && (id == 18767 || id == 45538 || id == 3638
            || id == 1590 || id == 1557 || id == 29604 || id == 48423 || id == 61146 || id == 4045
            || id == 19396 || id == 57987 || id == 41666)) ==> !spec_is_purchasable(
            UberIdentifier { uber_group: group, uber_id: id },
        ),
{
}

/// How a condition compares an uberState's value.
#[derive(Debug, Clone, PartialEq, Eq, Hash, Structural)]
pub enum UberStateComparator {
    Equals,
    Greater,
    GreaterOrEquals,
    Less,
    LessOrEquals,
}

/// The symbol of a comparator in seed code.
pub open spec fn comparator_code(c: UberStateComparator) -> Seq<char> {
    match c {
        UberStateComparator::Equals => seq!['='],
        UberStateComparator::Greater => seq!['>'],
        UberStateComparator::GreaterOrEquals => seq!['>', '='],
        UberStateComparator::Less => seq!['<'],
        UberStateComparator::LessOrEquals => seq!['<', '='],
    }
}

impl UberStateComparator {
    /// The comparator's symbol, as it is displayed.
    pub fn to_string(&self) -> (r: String)
        ensures
            r@ == comparator_code(*self),
    {
        match self {
            UberStateComparator::Equals => {
                proof { reveal_strlit("="); }
                String::from_str("=")
            },
            UberStateComparator::Greater => {
                proof { reveal_strlit(">"); }
                String::from_str(">")
            },
            UberStateComparator::GreaterOrEquals => {
                proof { reveal_strlit(">="); }
                String::from_str(">=")
            },
            UberStateComparator::Less => {
                proof { reveal_strlit("<"); }
                String::from_str("<")
            },
            UberStateComparator::LessOrEquals => {
                proof { reveal_strlit("<="); }
                String::from_str("<=")
            },
        }
    }
}

/// A comparison of an uberState's value against a fixed number.
#[derive(Debug, Clone, PartialEq, Eq, Hash, Structural)]
pub struct UberStateCondition {
    pub comparator: UberStateComparator,
    pub value: u32,
}

/// How a condition is displayed: the comparator's symbol, then the value.
pub open spec fn condition_code(c: UberStateCondition) -> Seq<char> {
    comparator_code(c.comparator) + decimal(c.value as nat)
}

/// Whether the condition holds of an integer value of its uberState.
pub open spec fn condition_holds(c: UberStateCondition, v: int) -> bool {
    match c.comparator {
        UberStateComparator::Equals => v == c.value,
        UberStateComparator::Greater => v > c.value,
        UberStateComparator::GreaterOrEquals => v >= c.value,
        UberStateComparator::Less => v < c.value,
        UberStateComparator::LessOrEquals => v <= c.value,
    }
}

/// `a - b`, or 0 where that is negative (as `u32::saturating_sub`).
pub open spec fn saturating_diff(a: u32, b: u32) -> int {
    if a >= b { a - b } else { 0 }
}

/// Two conditions are taken as the same where they differ only by a strict comparator
/// against one value and the inclusive comparator against the next value, as `>1` and `>=2`.
pub open spec fn conditions_functionally_eq(a: UberStateCondition, b: UberStateCondition) -> bool {
    match (a.comparator, b.comparator) {
        (UberStateComparator::Greater, UberStateComparator::GreaterOrEquals)
        | (UberStateComparator::LessOrEquals, UberStateComparator::Less) => saturating_diff(
            b.value,
            a.value,
        ) == 1,
        (UberStateComparator::GreaterOrEquals, UberStateComparator::Greater)
        | (UberStateComparator::Less, UberStateComparator::LessOrEquals) => saturating_diff(
            a.value,
            b.value,
        ) == 1,
        _ => a.comparator == b.comparator && a.value == b.value,
    }
}

impl UberStateCondition {
    /// Whether the two conditions are the same, counting `<3` and `<=2` as equal.
    pub fn functionally_eq(&self, other: &Self) -> (r: bool)
        ensures
            r == conditions_functionally_eq(*self, *other),
    {
        match (&self.comparator, &other.comparator) {
            (UberStateComparator::Greater, UberStateComparator::GreaterOrEquals)
            | (UberStateComparator::LessOrEquals, UberStateComparator::Less) => other.value.saturating_sub(self.value) == 1,
            (UberStateComparator::GreaterOrEquals, UberStateComparator::Greater)
            | (UberStateComparator::Less, UberStateComparator::LessOrEquals) => self.value.saturating_sub(other.value) == 1,
            _ => self.comparator == other.comparator && self.value == other.value,
        }
    }

    /// The condition as it is displayed, e.g. `>=2`.
    pub fn to_string(&self) -> (r: String)
        ensures
            r@ == condition_code(*self),
    {
        let mut out = self.comparator.to_string();
        push_decimal(&mut out, self.value);
        out
    }
}

/// Each condition is functionally equal to itself.
pub proof fn lemma_condition_functionally_eq_reflexive(a: UberStateCondition)
    ensures
        conditions_functionally_eq(a, a),
{
}

/// Functional equality of conditions does not depend on the order of the two.
pub proof fn lemma_condition_functionally_eq_symmetric(a: UberStateCondition, b: UberStateCondition)
    ensures
        conditions_functionally_eq(a, b) == conditions_functionally_eq(b, a),
{
}

/// Functionally equal conditions hold of exactly the same integer values.
pub proof fn lemma_condition_functionally_eq_same_values(
    a: UberStateCondition,
    b: UberStateCondition,
    v: int,
)
    requires
        conditions_functionally_eq(a, b),
    ensures
        condition_holds(a, v) == condition_holds(b, v),
{
}

/// Conditions that hold of exactly the same integer values are functionally equal, so
/// functional equality is exactly sameness on integer values; e.g. `>x` and `>=x+1`.
pub proof fn lemma_condition_functionally_eq_complete(a: UberStateCondition, b: UberStateCondition)
    requires
        forall|v: int| condition_holds(a, v) == condition_holds(b, v),
    ensures
        conditions_functionally_eq(a, b),
{
    let x = a.value as int;
    let y = b.value as int;
    assert(condition_holds(a, x - 1) == condition_holds(b, x - 1));
    assert(condition_holds(a, x) == condition_holds(b, x));
    assert(condition_holds(a, x + 1) == condition_holds(b, x + 1));
    assert(condition_holds(a, y - 1) == condition_holds(b, y - 1));
    assert(condition_holds(a, y) == condition_holds(b, y));
    assert(condition_holds(a, y + 1) == condition_holds(b, y + 1));
    let lo = if x < y { x } else { y };
    let hi = if x < y { y } else { x };
    assert(condition_holds(a, lo - 2) == condition_holds(b, lo - 2));
    assert(condition_holds(a, hi + 2) == condition_holds(b, hi + 2));
}

/// A strict comparator against `x` is functionally equal to the inclusive one against the
/// next value: `>x` with `>=x+1`, and `<=x` with `<x+1`, in either order.
pub proof fn lemma_condition_functionally_eq_neighbours(x: u32)
    requires
        x < u32::MAX,
    ensures
        conditions_functionally_eq(
            UberStateCondition { comparator: UberStateComparator::Greater, value: x },
            UberStateCondition { comparator: UberStateComparator::GreaterOrEquals, value: (x + 1) as u32 },
        ),
        conditions_functionally_eq(
            UberStateCondition { comparator: UberStateComparator::GreaterOrEquals, value: (x + 1) as u32 },
            UberStateCondition { comparator: UberStateComparator::Greater, value: x },
        ),
        conditions_functionally_eq(
            UberStateCondition { comparator: UberStateComparator::LessOrEquals, value: x },
            UberStateCondition { comparator: UberStateComparator::Less, value: (x + 1) as u32 },
        ),
        conditions_functionally_eq(
            UberStateCondition { comparator: UberStateComparator::Less, value: (x + 1) as u32 },
            UberStateCondition { comparator: UberStateComparator::LessOrEquals, value: x },
        ),
{
    let gt = UberStateCondition { comparator: UberStateComparator::Greater, value: x };
    let ge = UberStateCondition { comparator: UberStateComparator::GreaterOrEquals, value: (x + 1) as u32 };
    let le = UberStateCondition { comparator: UberStateComparator::LessOrEquals, value: x };
    let lt = UberStateCondition { comparator: UberStateComparator::Less, value: (x + 1) as u32 };
    lemma_condition_functionally_eq_complete(gt, ge);
    lemma_condition_functionally_eq_complete(ge, gt);
    lemma_condition_functionally_eq_complete(le, lt);
    lemma_condition_functionally_eq_complete(lt, le);
}

/// An uberState together with an optional condition on its value: the event that it
/// changes (to a value that meets the condition).
#[derive(Debug, Clone, PartialEq, Eq, Hash, Structural)]
pub struct UberStateTrigger {
    pub identifier: UberIdentifier,
    pub condition: Option<UberStateCondition>,
}

/// How a trigger is written in seed code: the identifier, then the condition if any,
/// e.g. `9|0>=2` or `9|0`.
pub open spec fn trigger_code(t: UberStateTrigger) -> Seq<char> {
    identifier_code(t.identifier) + match t.condition {
        Some(c) => condition_code(c),
        None => Seq::<char>::empty(),
    }
}

/// The comparator that `s` starts with, and the length of its symbol.
pub open spec fn comparator_prefix(s: Seq<char>) -> Option<(UberStateComparator, int)> {
    if s.len() >= 2 && s[0] == '>' && s[1] == '=' {
        Some((UberStateComparator::GreaterOrEquals, 2))
    } else if s.len() >= 2 && s[0] == '<' && s[1] == '=' {
        Some((UberStateComparator::LessOrEquals, 2))
    } else if s.len() >= 1 && s[0] == '=' {
        Some((UberStateComparator::Equals, 1))
    } else if s.len() >= 1 && s[0] == '>' {
        Some((UberStateComparator::Greater, 1))
    } else if s.len() >= 1 && s[0] == '<' {
        Some((UberStateComparator::Less, 1))
    } else {
        None
    }
}

/// The condition that `s` spells out whole: a comparator, then a `u32` in decimal.
pub open spec fn parse_condition_code(s: Seq<char>) -> Option<UberStateCondition> {
    match comparator_prefix(s) {
        Some((comparator, n)) => match bounded_number(s.skip(n), 0xffff_ffff) {
            Some(value) => Some(UberStateCondition { comparator, value: value as u32 }),
            None => None,
        },
        None => None,
    }
}

/// The trigger that `s` spells out whole: a `u16` group in decimal, `|`, a `u16` id in
/// decimal, and, if anything follows, a condition.
pub open spec fn parse_trigger_code(s: Seq<char>) -> Option<UberStateTrigger> {
    let k1 = leading_digits(s) as int;
    let rest = s.skip(k1 + 1);
    let k2 = leading_digits(rest) as int;
    let tail = rest.skip(k2);
    match (bounded_number(s.take(k1), 0xffff), bounded_number(rest.take(k2), 0xffff)) {
        (Some(group), Some(id)) => if k1 < s.len() && s[k1] == '|' {
            let identifier = UberIdentifier { uber_group: group as u16, uber_id: id as u16 };
            if tail.len() == 0 {
                Some(UberStateTrigger { identifier, condition: None })
            } else {
                match parse_condition_code(tail) {
                    Some(c) => Some(UberStateTrigger { identifier, condition: Some(c) }),
                    None => None,
                }
            }
        } else {
            None
        },
        _ => None,
    }
}

/// Two triggers are taken as the same where they watch the same uberState and their
/// conditions are functionally equal, or neither has one.
pub open spec fn triggers_functionally_eq(a: UberStateTrigger, b: UberStateTrigger) -> bool {
    a.identifier == b.identifier && match (a.condition, b.condition) {
        (Some(x), Some(y)) => conditions_functionally_eq(x, y),
        (None, None) => true,
        _ => false,
    }
}

/// Whether a change of the uberState `id` to the integer `value` sets the trigger off.
pub open spec fn trigger_fires(t: UberStateTrigger, id: UberIdentifier, value: int) -> bool {
    t.identifier == id && match t.condition {
        Some(c) => condition_holds(c, value),
        None => true,
    }
}

/// Each trigger is functionally equal to itself.
pub proof fn lemma_trigger_functionally_eq_reflexive(a: UberStateTrigger)
    ensures
        triggers_functionally_eq(a, a),
{
}

/// Functional equality of triggers does not depend on the order of the two.
pub proof fn lemma_trigger_functionally_eq_symmetric(a: UberStateTrigger, b: UberStateTrigger)
    ensures
        triggers_functionally_eq(a, b) == triggers_functionally_eq(b, a),
{
}

/// Functionally equal triggers fire on exactly the same changes to integer values.
pub proof fn lemma_trigger_functionally_eq_same_firing(
    a: UberStateTrigger,
    b: UberStateTrigger,
    id: UberIdentifier,
    value: int,
)
    requires
        triggers_functionally_eq(a, b),
    ensures
        trigger_fires(a, id, value) == trigger_fires(b, id, value),
{
}

/// Reading the code of a condition gives the condition back.
pub proof fn lemma_condition_code_parse(c: UberStateCondition)
    ensures
        parse_condition_code(condition_code(c)) == Some(c),
        condition_code(c).len() > 0,
        !crate::text::is_digit(condition_code(c)[0]),
{
    let sym = comparator_code(c.comparator);
    let digits = decimal(c.value as nat);
    let s = condition_code(c);
    lemma_decimal(c.value as nat);
    assert(s == sym + digits);
    assert(s[0] == sym[0]);
    if sym.len() == 1 {
        assert(s[1] == digits[0]);
        assert(crate::text::is_digit(digits[0]));
    } else {
        assert(s[1] == sym[1]);
    }
    let n = sym.len() as int;
    assert(comparator_prefix(s) == Some((c.comparator, n)));
    assert(s.skip(n) =~= digits);
}

/// Reading the code of a trigger gives the trigger back.
pub proof fn lemma_trigger_code_parse(t: UberStateTrigger)
    ensures
        parse_trigger_code(trigger_code(t)) == Some(t),
{
    let g = decimal(t.identifier.uber_group as nat);
    let i = decimal(t.identifier.uber_id as nat);
    let tail = match t.condition {
        Some(c) => condition_code(c),
        None => Seq::<char>::empty(),
    };
    let s = trigger_code(t);
    lemma_decimal(t.identifier.uber_group as nat);
    lemma_decimal(t.identifier.uber_id as nat);
    if let Some(c) = t.condition {
        lemma_condition_code_parse(c);
    }
    assert(s =~= g + (seq!['|'] + i + tail));
    lemma_leading_digits_concat(g, seq!['|'] + i + tail);
    let k1 = g.len() as int;
    assert(s.take(k1) =~= g);
    assert(s[k1] == '|');
    let rest = s.skip(k1 + 1);
    assert(rest =~= i + tail);
    lemma_leading_digits_concat(i, tail);
    assert(rest.take(i.len() as int) =~= i);
    assert(rest.skip(i.len() as int) =~= tail);
}

impl std::str::FromStr for UberStateTrigger {
    type Err = String;

    fn from_str(input: &str) -> (r: Result<UberStateTrigger, String>)
        ensures
            match parse_trigger_code(input@) {
                Some(t) => r == Ok::<UberStateTrigger, String>(t),
                None => r is Err && r->Err_0@ == "Invalid uberState trigger "@ + input@,
            },
    {
        UberStateTrigger::parse(input)
    }
}

/// Reads the whole of `v[start..]` as a condition.
fn parse_condition(v: &Vec<char>, start: usize) -> (r: Option<UberStateCondition>)
    requires
        start <= v.len(),
    ensures
        r == parse_condition_code(v@.skip(start as int)),
{
    let ghost s = v@.skip(start as int);
    let len = v.len();
    let (comparator, n): (UberStateComparator, usize) = if len - start >= 2 && v[start] == '>'
        && v[start + 1] == '=' {
        (UberStateComparator::GreaterOrEquals, 2)
    } else if len - start >= 2 && v[start] == '<' && v[start + 1] == '=' {
        (UberStateComparator::LessOrEquals, 2)
    } else if len - start >= 1 && v[start] == '=' {
        (UberStateComparator::Equals, 1)
    } else if len - start >= 1 && v[start] == '>' {
        (UberStateComparator::Greater, 1)
    } else if len - start >= 1 && v[start] == '<' {
        (UberStateComparator::Less, 1)
    } else {
        return None;
    };
    assert(comparator_prefix(s) == Some((comparator, n as int)));
    assert(s.skip(n as int) =~= v@.subrange(start + n, len as int));
    match parse_bounded(v, start + n, len, 0xffff_ffff) {
        Some(value) => Some(UberStateCondition { comparator, value }),
        None => None,
    }
}

impl UberStateTrigger {
    /// Reads a trigger from seed code, such as `9|0>=2`. Input that is not exactly a
    /// trigger is an error that quotes it. This reads triggers on their own: the grammar is
    /// `group|id` with an optional comparator and value, with no whitespace, no header
    /// parameters, and one error message of this crate's own rather than a header
    /// parser's diagnostics.
    pub fn parse(input: &str) -> (r: Result<UberStateTrigger, String>)
        ensures
            match parse_trigger_code(input@) {
                Some(t) => r == Ok::<UberStateTrigger, String>(t),
                None => r is Err && r->Err_0@ == "Invalid uberState trigger "@ + input@,
            },
    {
        let v = chars_of(input);
        let parsed = Self::parse_chars(&v);
        match parsed {
            Some(t) => Ok(t),
            None => {
                let mut message = String::from_str("Invalid uberState trigger ");
                message.append(input);
                Err(message)
            },
        }
    }

    fn parse_chars(v: &Vec<char>) -> (r: Option<UberStateTrigger>)
        ensures
            r == parse_trigger_code(v@),
    {
        let ghost s = v@;
        let len = v.len();
        let k1 = count_leading_digits(v, 0);
        assert(v@.skip(0) =~= s);
        assert(s.take(k1 as int) =~= v@.subrange(0, k1 as int));
        let group = parse_bounded(v, 0, k1, 0xffff);
        if k1 >= len || v[k1] != '|' {
            return None;
        }
        let ghost rest = s.skip(k1 + 1);
        let k2 = count_leading_digits(v, k1 + 1);
        assert(rest.take(k2 as int) =~= v@.subrange(k1 + 1, k1 + 1 + k2));
        let id = parse_bounded(v, k1 + 1, k1 + 1 + k2, 0xffff);
        let start = k1 + 1 + k2;
        assert(rest.skip(k2 as int) =~= v@.skip(start as int));
        match (group, id) {
            (Some(group), Some(id)) => {
                let identifier = UberIdentifier { uber_group: group as u16, uber_id: id as u16 };
                if start == len {
                    Some(UberStateTrigger { identifier, condition: None })
                } else {
                    match parse_condition(v, start) {
                        Some(c) => Some(UberStateTrigger { identifier, condition: Some(c) }),
                        None => None,
                    }
                }
            },
            _ => None,
        }
    }

    /// Whether the two triggers watch the same uberState with functionally equal
    /// conditions, or both without one.
    pub fn functionally_eq(&self, other: &Self) -> (r: bool)
        ensures
            r == triggers_functionally_eq(*self, *other),
    {
        self.identifier == other.identifier && match &self.condition {
            Some(condition) => match &other.condition {
                Some(other) => condition.functionally_eq(other),
                None => false,
            },
            None => other.condition.is_none(),
        }
    }

    /// The trigger of the player spawning.
    pub fn spawn() -> (r: UberStateTrigger)
        ensures
            r == (UberStateTrigger {
                identifier: UberIdentifier { uber_group: 3, uber_id: 0 },
                condition: None,
            }),
    {
        UberStateTrigger { identifier: UberIdentifier::spawn(), condition: None }
    }

    /// The trigger of a save being loaded.
    pub fn load() -> (r: UberStateTrigger)
        ensures
            r == (UberStateTrigger {
                identifier: UberIdentifier { uber_group: 3, uber_id: 1 },
                condition: None,
            }),
    {
        UberStateTrigger { identifier: UberIdentifier::load(), condition: None }
    }

    /// The value that the trigger of a graph node stands for: its condition's value, or 1
    /// where it has no condition.
    pub fn set_value(&self) -> (r: u32)
        ensures
            r == match self.condition {
                Some(c) => c.value,
                None => 1,
            },
    {
        match &self.condition {
            Some(condition) => condition.value,
            None => 1,
        }
    }

    /// The trigger as seed code writes it, e.g. `9|0>=2`.
    pub fn code(&self) -> (r: String)
        ensures
            r@ == trigger_code(*self),
    {
        let mut out = self.identifier.code();
        match &self.condition {
            Some(condition) => {
                let c = condition.to_string();
                out.append(c.as_str());
            },
            None => {},
        }
        assert(out@ =~= trigger_code(*self));
        out
    }
}

} // verus!
