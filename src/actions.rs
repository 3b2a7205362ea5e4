use vstd::prelude::*;
use crate::effects::Effect;
use crate::enemy::Intent;
use crate::game_state::{
    CombatView, EntityId, GameState, card_frame, damage_each, lemma_card_frame_refl, lemma_card_frame_trans, drawable, same_but_piles,
    status_each, unspent,
};
use crate::ledger::{Modifier, StatusType};
use crate::text::framed_number;

verus! {

/// Deals a fixed amount of damage to every target.
#[derive(Clone, Copy, Debug, PartialEq, Eq, Structural)]
pub struct DamageEffect {
    pub amount: i32,
}

/// The source gains a fixed amount of block.
#[derive(Clone, Copy, Debug, PartialEq, Eq, Structural)]
pub struct BlockEffect {
    pub amount: i32,
}

/// The source gains a modifier.
#[derive(Clone, Copy, Debug, PartialEq, Eq, Structural)]
pub struct AddModifierAction {
    pub modifier: Modifier,
}

/// Every target gains stacks of a status.
#[derive(Clone, Copy, Debug, PartialEq, Eq, Structural)]
pub struct ApplyStatusAction {
    pub status_type: StatusType,
    pub stacks: i32,
}

/// The player draws cards.
#[derive(Clone, Copy, Debug, PartialEq, Eq, Structural)]
pub struct DrawCardsAction {
    pub count: usize,
}

/// Deals damage per point of energy spent to every target.
#[derive(Clone, Copy, Debug, PartialEq, Eq, Structural)]
pub struct XDamageEffect {
    pub damage_per_energy: i32,
}

/// Registers a persistent effect owned by the source.
#[derive(Clone, Copy, Debug, PartialEq, Eq, Structural)]
pub struct ApplyEffect {
    pub effect: Effect,
}

/// One unit of card or intent logic.
#[derive(Clone, Copy, Debug, PartialEq, Eq, Structural)]
pub enum Action {
    Damage(DamageEffect),
    Block(BlockEffect),
    AddModifier(AddModifierAction),
    ApplyStatus(ApplyStatusAction),
    DrawCards(DrawCardsAction),
    XDamage(XDamageEffect),
    ApplyEffect(ApplyEffect),
}

/// Name of a status as the descriptions show it.
pub open spec fn status_name(t: StatusType) -> Seq<char> {
    match t {
        StatusType::Strength => "Strength"@,
        StatusType::Dexterity => "Dexterity"@,
        StatusType::Vulnerable => "Vulnerable"@,
        StatusType::Weak => "Weak"@,
        StatusType::Poison => "Poison"@,
        StatusType::Frail => "Frail"@,
    }
}

pub fn status_name_text(t: StatusType) -> (r: &'static str)
    ensures
        r@ == status_name(t),
{
    match t {
        StatusType::Strength => "Strength",
        StatusType::Dexterity => "Dexterity",
        StatusType::Vulnerable => "Vulnerable",
        StatusType::Weak => "Weak",
        StatusType::Poison => "Poison",
        StatusType::Frail => "Frail",
    }
}

/// The base amount an effect uses: the energy spent, when there is one,
/// replaces the effect's own amount.
pub open spec fn spent_or(spent: Option<i32>, amount: i32) -> int {
    match spent {
        Some(e) => e as int,
        None => amount as int,
    }
}

/// Damage of an X-cost effect: per-energy damage times the energy spent,
/// held within the `i32` range.
pub open spec fn x_total(per_energy: i32, spent: Option<i32>) -> int {
    let x: int = match spent {
        Some(e) => e as int,
        None => 0,
    };
    crate::ledger::clamp(per_energy * x, i32::MIN as int, i32::MAX as int)
}

/// What drawing `count` cards does, as `GameState::draw_cards` states it.
pub open spec fn drew_cards(a: CombatView, b: CombatView, count: int) -> bool {
    &&& b.hand.len() == a.hand.len() + vstd::math::min(
        count,
        (a.draw_pile.len() + a.discard_pile.len()) as int,
    )
    &&& b.hand.take(a.hand.len() as int) == a.hand
    &&& drawable(b).add(b.hand.skip(a.hand.len() as int).to_multiset()) == drawable(a)
    &&& same_but_piles(b, a)
    &&& (b.discard_pile == a.discard_pile || b.discard_pile.len() == 0)
}

/// What resolving an action does, for every action but a draw (whose
/// outcome depends on the shuffle).
pub open spec fn exact_action(
    v: CombatView,
    action: Action,
    source: EntityId,
    targets: Seq<EntityId>,
    spent: Option<i32>,
) -> CombatView {
    match action {
        Action::Damage(d) => damage_each(v, source, targets, spent_or(spent, d.amount)),
        Action::XDamage(x) => damage_each(v, source, targets, x_total(x.damage_per_energy, spent)),
        Action::Block(b) => CombatView {
            effects: unspent(v.effects),
            ..v.after_block(source, spent_or(spent, b.amount))
        },
        Action::AddModifier(m) => v.with_ledger(source, v.ledger_of(source).with_modifier(m.modifier, true)),
        Action::ApplyStatus(a) => status_each(v, targets, a.status_type, a.stacks as int),
        Action::DrawCards(_) => v,
        Action::ApplyEffect(e) => CombatView { effects: v.effects.push((source, e.effect)), ..v },
    }
}

/// The actions resolved in order, each seeing the ones before it.
pub open spec fn fold_actions(
    v: CombatView,
    actions: Seq<Action>,
    source: EntityId,
    targets: Seq<EntityId>,
    spent: Option<i32>,
) -> CombatView
    decreases actions.len(),
{
    if actions.len() == 0 {
        v
    } else {
        exact_action(fold_actions(v, actions.drop_last(), source, targets, spent), actions.last(), source, targets, spent)
    }
}

/// Deals `damage` from `source` to each target in order.
fn damage_all(game_state: &mut GameState, source: EntityId, targets: &[EntityId], damage: i32)
    requires
        old(game_state)@.wf(),
    ensures
        final(game_state)@ == damage_each(old(game_state)@, source, targets@, damage as int),
        card_frame(old(game_state)@, final(game_state)@),
        final(game_state)@.wf(),
{
    proof {
        lemma_card_frame_refl(old(game_state)@);
    }
    let mut i: usize = 0;
    while i < targets.len()
        invariant
            0 <= i <= targets@.len(),
            game_state@ == damage_each(old(game_state)@, source, targets@.take(i as int), damage as int),
            card_frame(old(game_state)@, game_state@),
            game_state@.wf(),
        decreases targets@.len() - i,
    {
        game_state.deal_damage(source, targets[i], damage);
        proof {
            assert(targets@.take(i + 1).drop_last() =~= targets@.take(i as int));
            assert(game_state@.hand.take(old(game_state)@.hand.len() as int) =~= old(game_state)@.hand);
        }
        i += 1;
    }
    proof {
        assert(targets@.take(i as int) =~= targets@);
    }
}

impl Action {
    /// Applies this action to the encounter on behalf of `source`. When
    /// `energy_spent` is present it replaces a damage or block amount.
    pub fn resolve(
        &self,
        game_state: &mut GameState,
        source: EntityId,
        targets: &[EntityId],
        energy_spent: Option<i32>,
    )
        requires
            old(game_state)@.wf(),
        ensures
            final(game_state)@.wf(),
            card_frame(old(game_state)@, final(game_state)@),
            !(*self is DrawCards) ==> final(game_state)@ == exact_action(
                old(game_state)@,
                *self,
                source,
                targets@,
                energy_spent,
            ),
            match *self {
                Action::Damage(d) => final(game_state)@ == damage_each(
                    old(game_state)@,
                    source,
                    targets@,
                    spent_or(energy_spent, d.amount),
                ),
                Action::XDamage(x) => final(game_state)@ == damage_each(
                    old(game_state)@,
                    source,
                    targets@,
                    x_total(x.damage_per_energy, energy_spent),
                ),
                Action::Block(b) => final(game_state)@ == (CombatView {
                    effects: unspent(old(game_state)@.effects),
                    ..old(game_state)@.after_block(source, spent_or(energy_spent, b.amount))
                }),
                Action::AddModifier(m) => final(game_state)@ == old(game_state)@.with_ledger(
                    source,
                    old(game_state)@.ledger_of(source).with_modifier(m.modifier, true),
                ),
                Action::ApplyStatus(a) => final(game_state)@ == status_each(
                    old(game_state)@,
                    targets@,
                    a.status_type,
                    a.stacks as int,
                ),
                Action::DrawCards(d) => drew_cards(old(game_state)@, final(game_state)@, d.count as int),
                Action::ApplyEffect(e) => final(game_state)@ == (CombatView {
                    effects: old(game_state)@.effects.push((source, e.effect)),
                    ..old(game_state)@
                }),
            },
    {
        match self {
            Action::Damage(d) => {
                let damage = match energy_spent {
                    Some(e) => e,
                    None => d.amount,
                };
                damage_all(game_state, source, targets, damage);
            },
            Action::XDamage(x) => {
                let energy: i64 = match energy_spent {
                    Some(e) => e as i64,
                    None => 0,
                };
                proof {
                    assert(-0x8000_0000 * 0x8000_0000 <= x.damage_per_energy as i64 * energy <= 0x8000_0000 * 0x8000_0000) by (nonlinear_arith)
                        requires
                            -0x8000_0000 <= x.damage_per_energy <= 0x7fff_ffff,
                            -0x8000_0000 <= energy <= 0x7fff_ffff,
                    ;
                }
                let total: i64 = x.damage_per_energy as i64 * energy;
                let damage: i32 = if total < i32::MIN as i64 {
                    i32::MIN
                } else if total > i32::MAX as i64 {
                    i32::MAX
                } else {
                    total as i32
                };
                damage_all(game_state, source, targets, damage);
            },
            Action::Block(b) => {
                let block = match energy_spent {
                    Some(e) => e,
                    None => b.amount,
                };
                game_state.gain_block(source, block);
                proof {
                    assert(game_state@.hand.take(old(game_state)@.hand.len() as int) =~= old(game_state)@.hand);
                }
            },
            Action::AddModifier(m) => {
                game_state.add_modifier(source, m.modifier);
                proof {
                    assert(game_state@.hand.take(old(game_state)@.hand.len() as int) =~= old(game_state)@.hand);
                }
            },
            Action::ApplyStatus(a) => {
                proof {
                    lemma_card_frame_refl(old(game_state)@);
                }
                let mut i: usize = 0;
                while i < targets.len()
                    invariant
                        0 <= i <= targets@.len(),
                        game_state@ == status_each(old(game_state)@, targets@.take(i as int), a.status_type, a.stacks as int),
                        card_frame(old(game_state)@, game_state@),
                        game_state@.wf(),
                    decreases targets@.len() - i,
                {
                    game_state.add_status(targets[i], a.status_type, a.stacks);
                    proof {
                        assert(targets@.take(i + 1).drop_last() =~= targets@.take(i as int));
                    }
                    i += 1;
                }
                proof {
                    assert(targets@.take(i as int) =~= targets@);
                }
            },
            Action::DrawCards(d) => {
                game_state.draw_cards(d.count);
            },
            Action::ApplyEffect(e) => {
                game_state.add_effect(source, e.effect);
                proof {
                    assert(game_state@.hand.take(old(game_state)@.hand.len() as int) =~= old(game_state)@.hand);
                }
            },
        }
    }

    /// Text for the interface.
    pub fn description(&self) -> (r: String)
        ensures
            match *self {
                Action::Damage(d) => r@ == "Deal "@ + crate::text::decimal(d.amount as int)
                    + " damage"@,
                Action::Block(b) => r@ == "Gain "@ + crate::text::decimal(b.amount as int)
                    + " Block"@,
                Action::AddModifier(m) => r@ == match m.modifier {
                    Modifier::RetainBlock => "Block is not removed at the start of your turn"@,
                    Modifier::RetainHand => "Do not discard hand at end of turn"@,
                },
                Action::ApplyStatus(a) => r@ == "Apply "@ + crate::text::decimal(a.stacks as int)
                    + " "@ + status_name(a.status_type),
                Action::DrawCards(d) => r@ == "Draw "@ + crate::text::decimal(d.count as int)
                    + (if d.count == 1 { " card"@ } else { " cards"@ }),
                Action::XDamage(x) => r@ == "Deal "@ + crate::text::decimal(
                    x.damage_per_energy as int,
                ) + " damage X times"@,
                Action::ApplyEffect(e) => r@ == e.effect.spec_ui_description(),
            },
    {
        match self {
            Action::Damage(d) => framed_number("Deal ", d.amount as i128, " damage"),
            Action::Block(b) => framed_number("Gain ", b.amount as i128, " Block"),
            Action::AddModifier(m) => match m.modifier {
                Modifier::RetainBlock => String::from_str(
                    "Block is not removed at the start of your turn",
                ),
                Modifier::RetainHand => String::from_str("Do not discard hand at end of turn"),
            },
            Action::ApplyStatus(a) => {
                let mut s = framed_number("Apply ", a.stacks as i128, " ");
                s.append(status_name_text(a.status_type));
                s
            },
            Action::DrawCards(d) => {
                if d.count == 1 {
                    framed_number("Draw ", d.count as i128, " card")
                } else {
                    framed_number("Draw ", d.count as i128, " cards")
                }
            },
            Action::XDamage(x) => framed_number(
                "Deal ",
                x.damage_per_energy as i128,
                " damage X times",
            ),
            Action::ApplyEffect(e) => e.effect.ui_state().description,
        }
    }
}

impl Intent {
    /// Resolves every action of the intent in order.
    pub fn execute(
        &self,
        game_state: &mut GameState,
        source: EntityId,
        targets: &[EntityId],
        energy_spent: Option<i32>,
    )
        requires
            old(game_state)@.wf(),
        ensures
            final(game_state)@.wf(),
            card_frame(old(game_state)@, final(game_state)@),
            (forall|k: int| 0 <= k < self.spec_actions().len() ==> !(#[trigger] self.spec_actions()[k] is DrawCards))
                ==> final(game_state)@ == fold_actions(
                old(game_state)@,
                self.spec_actions(),
                source,
                targets@,
                energy_spent,
            ),
    {
        proof {
            lemma_card_frame_refl(old(game_state)@);
        }
        let actions = self.actions();
        let mut k: usize = 0;
        while k < actions.len()
            invariant
                0 <= k <= actions@.len(),
                actions@ == self.spec_actions(),
                card_frame(old(game_state)@, game_state@),
                game_state@.wf(),
                (forall|j: int| 0 <= j < self.spec_actions().len() ==> !(#[trigger] self.spec_actions()[j] is DrawCards))
                    ==> game_state@ == fold_actions(
                    old(game_state)@,
                    actions@.take(k as int),
                    source,
                    targets@,
                    energy_spent,
                ),
            decreases actions@.len() - k,
        {
            let ghost before = game_state@;
            actions[k].resolve(game_state, source, targets, energy_spent);
            proof {
                lemma_card_frame_trans(old(game_state)@, before, game_state@);
                assert(actions@.take(k + 1).drop_last() =~= actions@.take(k as int));
            }
            k += 1;
        }
        proof {
            assert(actions@.take(k as int) =~= actions@);
        }
    }
}

} // verus!
