//! The general properties of the stat engine and the legality verifier,
//! each stated and proved once for every input.

use vstd::prelude::*;
use vstd::arithmetic::div_mod::lemma_div_is_ordered;
use vstd::arithmetic::mul::lemma_mul_upper_bound;

use crate::team::is_core_stat;
use crate::team::Move;
use crate::team::Stat;
use crate::team::TeamMember;

verus! {

/// The core value is monotonically non-decreasing in IV, EV and level, for a
/// fixed base stat.
proof fn lemma_stat_core_monotonic(m1: TeamMember, m2: TeamMember, s: Stat)
    requires
        is_core_stat(s),
        m1.species.stats.spec_get(s) == m2.species.stats.spec_get(s),
        m1.ivs.spec_get(s) <= m2.ivs.spec_get(s),
        m1.evs.spec_get(s) <= m2.evs.spec_get(s),
        m1.level <= m2.level,
    ensures
        m1.spec_stat_core(s) <= m2.spec_stat_core(s),
{
    let b = m1.species.stats.spec_get(s) as int;
    let sum1 = 2 * b + m1.ivs.spec_get(s) + m1.evs.spec_get(s) as int / 4;
    let sum2 = 2 * b + m2.ivs.spec_get(s) + m2.evs.spec_get(s) as int / 4;
    lemma_div_is_ordered(m1.evs.spec_get(s) as int, m2.evs.spec_get(s) as int, 4);
    lemma_mul_upper_bound(sum1, sum2, m1.level as int, m2.level as int);
    lemma_div_is_ordered(sum1 * m1.level, sum2 * m2.level, 100);
}

/// For every stat other than HP, Accuracy and Evasion, the stat value is
/// monotonically non-decreasing in level, IV and EV, the other inputs held
/// fixed.
pub proof fn lemma_stat_monotonic(m1: TeamMember, m2: TeamMember, s: Stat)
    requires
        !(s is HP) && !(s is Accuracy) && !(s is Evasion),
        m1.species.stats.spec_get(s) == m2.species.stats.spec_get(s),
        m1.nature == m2.nature,
        m1.ivs.spec_get(s) <= m2.ivs.spec_get(s),
        m1.evs.spec_get(s) <= m2.evs.spec_get(s),
        m1.level <= m2.level,
    ensures
        m1.spec_stat(s) <= m2.spec_stat(s),
{
    lemma_stat_core_monotonic(m1, m2, s);
    let c1 = m1.spec_stat_core(s);
    let c2 = m2.spec_stat_core(s);
    if m1.nature.increased == Some(s) {
        lemma_div_is_ordered((c1 + 5) * 11, (c2 + 5) * 11, 10);
    } else if m1.nature.decreased == Some(s) {
        lemma_div_is_ordered((c1 + 5) * 9, (c2 + 5) * 9, 10);
    }
}

/// Accuracy and Evasion are the fixed baseline 1 for every member.
pub proof fn lemma_accuracy_evasion_baseline(m: TeamMember)
    ensures
        m.spec_stat(Stat::Accuracy) == 1,
        m.spec_stat(Stat::Evasion) == 1,
{
}

/// HP is the truncating core value plus the level plus 10, for every member.
pub proof fn lemma_hp_formula(m: TeamMember)
    ensures
        m.spec_stat(Stat::HP) == m.spec_stat_core(Stat::HP) + m.level + 10,
{
}

/// A neutral nature — one that raises and lowers nothing — leaves a non-HP
/// core stat at exactly `core + 5`, with no 11/10 or 9/10 scaling.
pub proof fn lemma_neutral_nature(m: TeamMember, s: Stat)
    requires
        !(s is HP) && !(s is Accuracy) && !(s is Evasion),
        m.nature.increased is None,
        m.nature.decreased is None,
    ensures
        m.spec_stat(s) == m.spec_stat_core(s) + 5,
{
}

/// With no PP-ups, the maximum PP of a filled slot is exactly the move's
/// base PP.
pub proof fn lemma_max_pp_no_ups(m: TeamMember, slot: int, mv: Move)
    requires
        0 <= slot < 4,
        m.moves[slot] == Some(mv),
        m.pp_ups[slot] == 0,
    ensures
        m.spec_max_pp(slot) == mv.pp,
{
}

/// With three PP-ups, the maximum PP of a filled slot is the move's base PP
/// plus three times a truncated fifth of it.
pub proof fn lemma_max_pp_three_ups(m: TeamMember, slot: int, mv: Move)
    requires
        0 <= slot < 4,
        m.moves[slot] == Some(mv),
        m.pp_ups[slot] == 3,
    ensures
        m.spec_max_pp(slot) == mv.pp + 3 * (mv.pp as int / 5),
{
}

/// A member whose EV entries sum beyond 510 never verifies.
pub proof fn lemma_ev_sum_over_bound_rejected(m: TeamMember, skip_moveset: bool, legal: Seq<u16>)
    requires
        m.evs.spec_total() > 510,
    ensures
        !m.spec_verify(skip_moveset, legal),
{
}

/// A member with any IV entry beyond 31 never verifies.
pub proof fn lemma_iv_over_bound_rejected(
    m: TeamMember,
    s: Stat,
    skip_moveset: bool,
    legal: Seq<u16>,
)
    requires
        is_core_stat(s),
        m.ivs.spec_get(s) > 31,
    ensures
        !m.spec_verify(skip_moveset, legal),
{
}

/// A member with all four move slots empty never verifies.
pub proof fn lemma_empty_moveset_rejected(m: TeamMember, skip_moveset: bool, legal: Seq<u16>)
    requires
        forall|i: int| 0 <= i < 4 ==> m.moves[i] is None,
    ensures
        !m.spec_verify(skip_moveset, legal),
{
    if m.spec_has_move() {
        let i = choose|i: int| 0 <= i < 4 && m.moves[i] is Some;
        assert(m.moves[i] is None);
    }
}

/// A member with two filled slots holding the same move identifier never
/// verifies, even with the moveset-legality check skipped.
pub proof fn lemma_duplicate_move_rejected(
    m: TeamMember,
    i: int,
    j: int,
    a: Move,
    b: Move,
    skip_moveset: bool,
    legal: Seq<u16>,
)
    requires
        0 <= i < 4,
        0 <= j < 4,
        i != j,
        m.moves[i] == Some(a),
        m.moves[j] == Some(b),
        a.id == b.id,
    ensures
        !m.spec_verify(skip_moveset, legal),
{
    if m.spec_moves_distinct() {
        assert(m.spec_slot_id(i) is Some);
        assert(m.spec_slot_id(i) != m.spec_slot_id(j));
        assert(false);
    }
}

/// With the moveset-legality check skipped, the verdict is independent of
/// the legal moveset.
pub proof fn lemma_skip_moveset_ignores_legality(m: TeamMember, legal1: Seq<u16>, legal2: Seq<u16>)
    ensures
        m.spec_verify(true, legal1) == m.spec_verify(true, legal2),
{
}

/// Even with the moveset-legality check skipped, a member that verifies has
/// at least one move and no duplicate move identifiers.
pub proof fn lemma_skip_moveset_keeps_move_rules(m: TeamMember, legal: Seq<u16>)
    ensures
        m.spec_verify(true, legal) ==> m.spec_has_move() && m.spec_moves_distinct(),
{
}

} // verus!
