//! The team-member record and the two query routines on it: the stat engine
//! and the legality verifier.

use std::rc::Rc;

use vstd::prelude::*;

verus! {

/// A roster: an insertion-ordered sequence of shared, read-only members.
pub type Team = Vec<Rc<TeamMember>>;

/// Selector for one battle stat.  The first six are the core stats backed by
/// the per-species stat table and the EV/IV arrays; `Accuracy` and `Evasion`
/// are baseline multiplier stages, not derived from base stats.
#[derive(Copy, Clone, Debug, PartialEq, Eq, Structural)]
pub enum Stat {
    HP,
    Attack,
    Defense,
    Speed,
    SpecialAttack,
    SpecialDefense,
    Accuracy,
    Evasion,
}

/// True for the six stats that index the stat tables.
pub open spec fn is_core_stat(s: Stat) -> bool {
    !(s is Accuracy || s is Evasion)
}

/// A table of six small integers, one per core stat.  It holds a species'
/// base stats, and doubles as a member's EV and IV arrays.
#[derive(Copy, Clone, Debug)]
pub struct BaseStats {
    pub hp: u8,
    pub attack: u8,
    pub defense: u8,
    pub speed: u8,
    pub special_attack: u8,
    pub special_defense: u8,
}

impl BaseStats {
    /// The entry for a core stat.
    pub open spec fn spec_get(self, s: Stat) -> u8
        recommends
            is_core_stat(s),
    {
        match s {
            Stat::HP => self.hp,
            Stat::Attack => self.attack,
            Stat::Defense => self.defense,
            Stat::Speed => self.speed,
            Stat::SpecialAttack => self.special_attack,
            Stat::SpecialDefense => self.special_defense,
            Stat::Accuracy | Stat::Evasion => 0,
        }
    }

    /// Sum of all six entries.
    pub open spec fn spec_total(self) -> int {
        self.hp + self.attack + self.defense + self.speed + self.special_attack
            + self.special_defense
    }

    /// All six entries are at most `bound`.
    pub open spec fn spec_all_at_most(self, bound: int) -> bool {
        &&& self.hp <= bound
        &&& self.attack <= bound
        &&& self.defense <= bound
        &&& self.speed <= bound
        &&& self.special_attack <= bound
        &&& self.special_defense <= bound
    }

    /// Reads the entry for a core stat; the table is not indexed by
    /// `Accuracy` or `Evasion`.
    pub fn get(&self, s: Stat) -> (r: u8)
        requires
            is_core_stat(s),
        ensures
            r == self.spec_get(s),
    {
        match s {
            Stat::HP => self.hp,
            Stat::Attack => self.attack,
            Stat::Defense => self.defense,
            Stat::Speed => self.speed,
            Stat::SpecialAttack => self.special_attack,
            Stat::SpecialDefense => self.special_defense,
            Stat::Accuracy | Stat::Evasion => 0,
        }
    }

    /// Sum of all six entries.
    pub fn total(&self) -> (r: u16)
        ensures
            r == self.spec_total(),
    {
        self.hp as u16 + self.attack as u16 + self.defense as u16 + self.speed as u16
            + self.special_attack as u16 + self.special_defense as u16
    }
}

/// A member's gender.
#[derive(Copy, Clone, Debug, PartialEq, Eq, Structural)]
pub enum Gender {
    Male,
    Female,
    Genderless,
}

/// A nature's modifier profile: it optionally raises one stat and optionally
/// lowers another by a fixed percentage.  A neutral nature has neither.
#[derive(Copy, Clone, Debug)]
pub struct Nature {
    pub increased: Option<Stat>,
    pub decreased: Option<Stat>,
}

/// What the rules read of a held item: whether it carries the "holdable"
/// capability flag.
#[derive(Copy, Clone, Debug)]
pub struct Item {
    pub holdable: bool,
}

/// What the rules read of a move: its identifier and its base PP.
#[derive(Copy, Clone, Debug)]
pub struct Move {
    pub id: u16,
    pub pp: u8,
}

/// What the rules read of a species from the static catalog: its base stat
/// table, its one or two ability slots, and its gender rate.  A negative
/// gender rate denotes a genderless species.
#[derive(Copy, Clone, Debug)]
pub struct Species {
    pub stats: BaseStats,
    pub first_ability: u16,
    pub second_ability: Option<u16>,
    pub gender_rate: i8,
}

/// One configured creature: immutable once built.  Construction does not
/// enforce the legality rules; [`TeamMember::verify`] checks them.
#[derive(Copy, Clone, Debug)]
pub struct TeamMember {
    pub species: Species,
    pub gender: Gender,
    pub ability: u16,
    pub nature: Nature,
    pub held: Option<Item>,
    pub friendship: u8,
    pub evs: BaseStats,
    pub ivs: BaseStats,
    pub moves: [Option<Move>; 4],
    pub pp_ups: [u8; 4],
    pub level: u8,
}

impl TeamMember {
    /// The core value of a stat before the HP or nature adjustment:
    /// `(((2*base) + iv + ev/4) * level) / 100`, every division truncating.
    pub open spec fn spec_stat_core(self, s: Stat) -> int
        recommends
            is_core_stat(s),
    {
        ((2 * self.species.stats.spec_get(s) + self.ivs.spec_get(s)
            + self.evs.spec_get(s) as int / 4) * self.level) / 100
    }

    /// The full stat value: HP adds `level + 10` to the core; `Accuracy` and
    /// `Evasion` are the fixed baseline 1; every other stat is `core + 5`
    /// scaled by 11/10 or 9/10 (truncating) when the nature raises or lowers
    /// it.
    pub open spec fn spec_stat(self, s: Stat) -> int {
        match s {
            Stat::HP => self.spec_stat_core(s) + self.level + 10,
            Stat::Accuracy | Stat::Evasion => 1,
            _ => {
                let core = self.spec_stat_core(s);
                if self.nature.increased == Some(s) {
                    ((core + 5) * 11) / 10
                } else if self.nature.decreased == Some(s) {
                    ((core + 5) * 9) / 10
                } else {
                    core + 5
                }
            },
        }
    }

    /// `stat(s)` stays within `u16` exactly when the core multiplication
    /// does; `Accuracy` and `Evasion` read no table.
    pub open spec fn spec_stat_fits(self, s: Stat) -> bool {
        is_core_stat(s) ==> (2 * self.species.stats.spec_get(s) + self.ivs.spec_get(s)
            + self.evs.spec_get(s) as int / 4) * self.level <= u16::MAX
    }

    /// Maximum PP of the move in a slot: the base PP plus one fifth of it
    /// (truncating) per PP-up; 0 for an empty slot.
    pub open spec fn spec_max_pp(self, slot: int) -> int
        recommends
            0 <= slot < 4,
    {
        match self.moves[slot] {
            Some(mv) => mv.pp + self.pp_ups[slot] * (mv.pp as int / 5),
            None => 0,
        }
    }

    /// Maximum PP of the move in `slot`, counting its PP-ups.
    pub fn max_pp(&self, slot: u8) -> (r: u8)
        requires
            slot < 4,
            self.spec_max_pp(slot as int) <= u8::MAX,
        ensures
            r == self.spec_max_pp(slot as int),
    {
        if let Some(mv) = self.moves[slot as usize] {
            mv.pp + self.pp_ups[slot as usize] * (mv.pp / 5)
        } else {
            0
        }
    }

    /// The core stat value before the HP or nature adjustment.
    fn stat_core(&self, s: Stat) -> (r: u16)
        requires
            is_core_stat(s),
            self.spec_stat_fits(s),
        ensures
            r == self.spec_stat_core(s),
    {
        let base = self.species.stats.get(s) as u16;
        let iv = self.ivs.get(s) as u16;
        let ev = self.evs.get(s) as u16;
        let level = self.level as u16;
        (((2 * base) + iv + (ev / 4)) * level) / 100
    }

    /// The member's value for any battle stat.
    pub fn stat(&self, s: Stat) -> (r: u16)
        requires
            self.spec_stat_fits(s),
        ensures
            r == self.spec_stat(s),
    {
        match s {
            Stat::HP => self.stat_core(s) + (self.level as u16) + 10,
            Stat::Accuracy | Stat::Evasion => 1,
            _ => {
                let core = self.stat_core(s);
                let raised = match self.nature.increased {
                    Some(t) => t == s,
                    None => false,
                };
                let lowered = match self.nature.decreased {
                    Some(t) => t == s,
                    None => false,
                };
                if raised {
                    ((core + 5) * 11) / 10
                } else if lowered {
                    ((core + 5) * 9) / 10
                } else {
                    core + 5
                }
            },
        }
    }

    /// The gender is `Genderless` exactly when the species is genderless
    /// (negative gender rate).
    pub open spec fn spec_gender_ok(self) -> bool {
        (self.gender == Gender::Genderless) == (self.species.gender_rate < 0)
    }

    /// The ability is one of the species' one or two ability slots.
    pub open spec fn spec_ability_ok(self) -> bool {
        self.ability == self.species.first_ability
            || self.species.second_ability == Some(self.ability)
    }

    /// A held item, if any, carries the "holdable" flag.
    pub open spec fn spec_held_ok(self) -> bool {
        match self.held {
            Some(item) => item.holdable,
            None => true,
        }
    }

    /// The EV entries sum to at most 510.
    pub open spec fn spec_evs_ok(self) -> bool {
        self.evs.spec_total() <= 510
    }

    /// Every IV entry is at most 31.
    pub open spec fn spec_ivs_ok(self) -> bool {
        self.ivs.spec_all_at_most(31)
    }

    /// Every PP-up count is at most 3.
    pub open spec fn spec_pp_ups_ok(self) -> bool {
        forall|i: int| 0 <= i < 4 ==> self.pp_ups[i] <= 3
    }

    /// The level lies in 1..=100.
    pub open spec fn spec_level_ok(self) -> bool {
        0 < self.level <= 100
    }

    /// The move identifier in a slot, if the slot is filled.
    pub open spec fn spec_slot_id(self, i: int) -> Option<u16>
        recommends
            0 <= i < 4,
    {
        match self.moves[i] {
            Some(mv) => Some(mv.id),
            None => None,
        }
    }

    /// At least one move slot is filled.
    pub open spec fn spec_has_move(self) -> bool {
        exists|i: int| 0 <= i < 4 && self.moves[i] is Some
    }

    /// No two filled slots hold the same move identifier.
    pub open spec fn spec_moves_distinct(self) -> bool {
        forall|i: int, j: int|
            0 <= i < 4 && 0 <= j < 4 && i != j && self.spec_slot_id(i) is Some
                ==> self.spec_slot_id(i) != self.spec_slot_id(j)
    }

    /// Every filled slot holds an identifier from `legal`, the species'
    /// legal moveset.
    pub open spec fn spec_moves_legal(self, legal: Seq<u16>) -> bool {
        forall|i: int|
            0 <= i < 4 ==> (#[trigger] self.spec_slot_id(i) matches Some(id)
                ==> legal.contains(id))
    }

    /// The moveset rules: some move, no duplicate identifiers, and — unless
    /// skipped — every move legal for the species.
    pub open spec fn spec_moves_ok(self, skip_moveset: bool, legal: Seq<u16>) -> bool {
        &&& self.spec_has_move()
        &&& self.spec_moves_distinct()
        &&& (skip_moveset || self.spec_moves_legal(legal))
    }

    /// The conjunction of every legality rule.
    pub open spec fn spec_verify(self, skip_moveset: bool, legal: Seq<u16>) -> bool {
        &&& self.spec_gender_ok()
        &&& self.spec_ability_ok()
        &&& self.spec_held_ok()
        &&& self.spec_evs_ok()
        &&& self.spec_ivs_ok()
        &&& self.spec_pp_ups_ok()
        &&& self.spec_level_ok()
        &&& self.spec_moves_ok(skip_moveset, legal)
    }

    /// The move identifier in a slot, if the slot is filled.
    fn slot_id(&self, i: usize) -> (r: Option<u16>)
        requires
            i < 4,
        ensures
            r == self.spec_slot_id(i as int),
    {
        match self.moves[i] {
            Some(mv) => Some(mv.id),
            None => None,
        }
    }

    /// Checks the moveset rules.  `legal_moves` is the species' legal
    /// moveset; `skip_moveset` bypasses only the legality lookup, never the
    /// non-empty and no-duplicate rules.
    fn verify_moves(&self, skip_moveset: bool, legal_moves: &Vec<u16>) -> (r: bool)
        ensures
            r == self.spec_moves_ok(skip_moveset, legal_moves@),
    {
        let id0 = self.slot_id(0);
        let id1 = self.slot_id(1);
        let id2 = self.slot_id(2);
        let id3 = self.slot_id(3);
        let nonempty = id0.is_some() || id1.is_some() || id2.is_some() || id3.is_some();
        let distinct = !duplicate_ids(id0, id1) && !duplicate_ids(id0, id2)
            && !duplicate_ids(id0, id3) && !duplicate_ids(id1, id2) && !duplicate_ids(id1, id3)
            && !duplicate_ids(id2, id3);
        let legal = skip_moveset
            || (slot_legal(id0, legal_moves) && slot_legal(id1, legal_moves)
                && slot_legal(id2, legal_moves) && slot_legal(id3, legal_moves));
        proof {
            assert(nonempty == self.spec_has_move()) by {
                if nonempty {
                    if id0 is Some {
                        assert(self.moves[0] is Some);
                    } else if id1 is Some {
                        assert(self.moves[1] is Some);
                    } else if id2 is Some {
                        assert(self.moves[2] is Some);
                    } else {
                        assert(self.moves[3] is Some);
                    }
                }
            }
            assert(distinct == self.spec_moves_distinct()) by {
                if distinct {
                    assert forall|i: int, j: int|
                        0 <= i < 4 && 0 <= j < 4 && i != j && self.spec_slot_id(i) is Some
                            implies self.spec_slot_id(i) != self.spec_slot_id(j) by {}
                }
            }
        }
        nonempty && distinct && legal
    }

    /// Checks every legality rule of the member's configuration.
    /// `legal_moves` is the species' legal moveset, supplied by the caller
    /// from the external per-species lookup; `skip_moveset` bypasses only
    /// the moveset-legality rule.
    pub fn verify(&self, skip_moveset: bool, legal_moves: &Vec<u16>) -> (r: bool)
        ensures
            r == self.spec_verify(skip_moveset, legal_moves@),
    {
        let gender = (self.gender == Gender::Genderless) == (self.species.gender_rate < 0);
        let ability = self.ability == self.species.first_ability
            || (match self.species.second_ability {
                Some(a) => a == self.ability,
                None => false,
            });
        let held = match self.held {
            Some(item) => item.holdable,
            None => true,
        };
        let evs = self.evs.total() <= 510;
        let ivs = self.ivs.hp <= 31 && self.ivs.attack <= 31 && self.ivs.defense <= 31
            && self.ivs.speed <= 31 && self.ivs.special_attack <= 31
            && self.ivs.special_defense <= 31;
        let pp_ups = self.pp_ups[0] <= 3 && self.pp_ups[1] <= 3 && self.pp_ups[2] <= 3
            && self.pp_ups[3] <= 3;
        let level = self.level > 0 && self.level <= 100;
        proof {
            assert(pp_ups == self.spec_pp_ups_ok()) by {
                if pp_ups {
                    assert forall|i: int| 0 <= i < 4 implies self.pp_ups[i] <= 3 by {}
                }
            }
        }
        gender && ability && held && evs && ivs && pp_ups && level
            && self.verify_moves(skip_moveset, legal_moves)
    }
}

/// Two slots hold the same move identifier (both filled, equal ids).
fn duplicate_ids(a: Option<u16>, b: Option<u16>) -> (r: bool)
    ensures
        r == (a is Some && a == b),
{
    match (a, b) {
        (Some(x), Some(y)) => x == y,
        _ => false,
    }
}

/// The slot, if filled, holds an identifier from `legal_moves`.
fn slot_legal(id: Option<u16>, legal_moves: &Vec<u16>) -> (r: bool)
    ensures
        r == (id matches Some(x) ==> legal_moves@.contains(x)),
{
    match id {
        Some(x) => contains_move(legal_moves, x),
        None => true,
    }
}

/// Linear membership test over a list of move identifiers.
fn contains_move(list: &Vec<u16>, id: u16) -> (r: bool)
    ensures
        r == list@.contains(id),
{
    let mut k: usize = 0;
    while k < list.len()
        invariant
            0 <= k <= list@.len(),
            forall|t: int| 0 <= t < k ==> list@[t] != id,
        decreases list@.len() - k,
    {
        if list[k] == id {
            return true;
        }
        k += 1;
    }
    false
}

} // verus!
