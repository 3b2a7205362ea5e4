use vstd::prelude::*;
use crate::ledger::{LedgerView, cap, clamp};

verus! {

/// Outgoing damage after the attacker's and defender's modifiers, in order:
/// add Strength, take three quarters (rounded down) when the attacker is
/// Weak, take one and a half (rounded down) when the defender is Vulnerable,
/// and never less than zero. Division of `int` rounds toward minus infinity
/// for a positive divisor, so each step is a floor.
pub open spec fn modified_damage(base: int, strength: int, weak: bool, vulnerable: bool) -> int {
    let with_strength = base + strength;
    let after_weak = if weak { (with_strength * 3) / 4 } else { with_strength };
    let after_vulnerable = if vulnerable { (after_weak * 3) / 2 } else { after_weak };
    if after_vulnerable < 0 { 0 } else { after_vulnerable }
}

/// Block gained after the owner's modifiers: add Dexterity, take three
/// quarters (rounded down) when Frail, never less than zero.
pub open spec fn modified_block(base: int, dexterity: int, frail: bool) -> int {
    let with_dexterity = base + dexterity;
    let after_frail = if frail { (with_dexterity * 3) / 4 } else { with_dexterity };
    if after_frail < 0 { 0 } else { after_frail }
}

/// Damage that gets through `block`.
pub open spec fn unblocked(dmg: int, block: int) -> int {
    if dmg <= block { 0 } else { dmg - block }
}

/// A ledger after taking `dmg` (not negative): block absorbs first, the rest
/// comes off health, clamped at zero.
pub open spec fn absorb(target: LedgerView, dmg: int) -> LedgerView {
    let absorbed = if dmg <= target.block { dmg } else { target.block };
    LedgerView {
        block: target.block - absorbed,
        health: clamp(target.health - (dmg - absorbed), 0, target.max_health),
        ..target
    }
}

/// A ledger after gaining `amount` (not negative) block, saturating.
pub open spec fn add_block(target: LedgerView, amount: int) -> LedgerView {
    LedgerView { block: clamp(target.block + amount, 0, cap()), ..target }
}

/// Absorbing damage keeps a ledger's health in `[0, max_health]` and its
/// block non-negative.
pub proof fn lemma_absorb_keeps_ranges(target: LedgerView, dmg: int)
    requires
        target.wf(),
        dmg >= 0,
    ensures
        absorb(target, dmg).wf(),
        0 <= absorb(target, dmg).block,
        0 <= absorb(target, dmg).health <= absorb(target, dmg).max_health,
        absorb(target, dmg).health == clamp(
            target.health - unblocked(dmg, target.block),
            0,
            target.max_health,
        ),
{
}

/// Gaining block keeps a ledger well formed.
pub proof fn lemma_add_block_keeps_ranges(target: LedgerView, amount: int)
    requires
        target.wf(),
        amount >= 0,
    ensures
        add_block(target, amount).wf(),
{
}

/// One change that the damage and block pipelines make to a ledger.
pub enum LedgerChange {
    /// Takes this much damage (block first, then health).
    Hit(nat),
    /// Gains this much block.
    Guard(nat),
}

/// A ledger after a sequence of hits and block gains, in order.
pub open spec fn apply_changes(target: LedgerView, changes: Seq<LedgerChange>) -> LedgerView
    decreases changes.len(),
{
    if changes.len() == 0 {
        target
    } else {
        let prev = apply_changes(target, changes.drop_last());
        match changes.last() {
            LedgerChange::Hit(d) => absorb(prev, d as int),
            LedgerChange::Guard(b) => add_block(prev, b as int),
        }
    }
}

/// Whatever sequence of hits and block gains a well-formed ledger goes
/// through, its block stays non-negative and its health stays within
/// `[0, max_health]` after every step.
pub proof fn lemma_changes_keep_ranges(target: LedgerView, changes: Seq<LedgerChange>)
    requires
        target.wf(),
    ensures
        forall|k: int| 0 <= k <= changes.len() ==> {
            let l = #[trigger] apply_changes(target, changes.take(k));
            &&& l.wf()
            &&& 0 <= l.block
            &&& 0 <= l.health <= l.max_health
        },
    decreases changes.len(),
{
    if changes.len() > 0 {
        let init = changes.drop_last();
        lemma_changes_keep_ranges(target, init);
        assert forall|k: int| 0 <= k <= changes.len() implies {
            let l = #[trigger] apply_changes(target, changes.take(k));
            &&& l.wf()
            &&& 0 <= l.block
            &&& 0 <= l.health <= l.max_health
        } by {
            if k < changes.len() {
                assert(changes.take(k) =~= init.take(k));
            } else {
                assert(changes.take(k) =~= changes);
                assert(init.take(init.len() as int) =~= init);
                let prev = apply_changes(target, init);
                match changes.last() {
                    LedgerChange::Hit(d) => lemma_absorb_keeps_ranges(prev, d as int),
                    LedgerChange::Guard(b) => lemma_add_block_keeps_ranges(prev, b as int),
                }
            }
        }
    }
}

proof fn lemma_three_quarters_not_positive(x: int)
    requires
        x <= 0,
    ensures
        (x * 3) / 4 <= 0,
        (x * 3) / 2 <= 0,
{
    assert((x * 3) / 4 <= 0) by (nonlinear_arith)
        requires
            x <= 0,
    ;
    assert((x * 3) / 2 <= 0) by (nonlinear_arith)
        requires
            x <= 0,
    ;
}

/// Computes `modified_damage` on machine integers.
pub fn compute_damage(base: i32, strength: i32, weak: bool, vulnerable: bool) -> (r: i64)
    ensures
        r == modified_damage(base as int, strength as int, weak, vulnerable),
        0 <= r <= 3 * cap(),
{
    let with_strength: i64 = base as i64 + strength as i64;
    if with_strength <= 0 {
        proof {
            lemma_three_quarters_not_positive(with_strength as int);
            let w = if weak { (with_strength * 3) / 4 } else { with_strength as int };
            lemma_three_quarters_not_positive(w);
        }
        return 0;
    }
    let after_weak: i64 = if weak { (with_strength * 3) / 4 } else { with_strength };
    let after_vulnerable: i64 = if vulnerable { (after_weak * 3) / 2 } else { after_weak };
    after_vulnerable
}

/// Computes `modified_block` on machine integers.
pub fn compute_block(base: i32, dexterity: i32, frail: bool) -> (r: i64)
    ensures
        r == modified_block(base as int, dexterity as int, frail),
        0 <= r <= 2 * cap(),
{
    let with_dexterity: i64 = base as i64 + dexterity as i64;
    if with_dexterity <= 0 {
        proof {
            lemma_three_quarters_not_positive(with_dexterity as int);
        }
        return 0;
    }
    if frail { (with_dexterity * 3) / 4 } else { with_dexterity }
}

} // verus!
