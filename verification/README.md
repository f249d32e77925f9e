# wotw_seedgen

Data types and text formats of a seed generator for *Ori and the Will of the Wisps*,
verified with Verus.

- `src/text.rs`: decimal numbers, digits and whitespace over character sequences.
- `src/uber_state/`: uberState types, identifiers (with the names that the game's data
  gives them, in `names.rs`), conditions and triggers, their seed code and how it is read.
- `src/util/`: spells, zones, enemies and icons with the numbers the game gives them, the
  spawn line of a seed, and space padding.
- `app/`: what rests on floating point or serde (positions, enemy health, refills, float
  comparisons of uberState values).

## Not part of this crate

- The Display text and identifier parsing of `NumericBool`, `Spell`, `Zone`, `Enemy`,
  `NodeKind` and the icon enums, and the Display text of `Icon`.
- Shard icons carry the shard's number (`Icon::Shard(u8)`); the shard type itself is not
  defined here, so any `u8` is accepted.
- The randomizer's own names for uberStates: identifiers are named by the game's data only.
- The seed header language: `UberStateTrigger::parse` reads a lone trigger
  (`group|id` with an optional comparator and value) and reports one error message of its
  own.
- Enemy health is given in whole points (`u32`); `app/` turns it into `f32`.
