use vstd::prelude::*;
use crate::card::{Card, CardTargeting};
use crate::actions::{Action, fold_actions};
use crate::damage::{absorb, add_block, compute_block, compute_damage, modified_block, modified_damage, unblocked};
use crate::effects::Effect;
use crate::enemy::{Enemy, EnemyView, enemy_intent_actions, enemy_intent_description};
use crate::ledger::{LedgerView, Modifier, State, StatusType, cap, clamp, fresh_ledger};
use crate::player::{Player, PlayerView};
use rand::rngs::StdRng;
use rand::seq::SliceRandom;
use rand::SeedableRng;
use vstd::multiset::Multiset;

verus! {

/// Who an action or event concerns: the player, or the enemy at a slot of
/// the live enemy list. Slots shift when dead enemies are swept.
#[derive(Clone, Copy, Debug, PartialEq, Eq, Hash, Structural)]
pub enum EntityId {
    Player,
    Enemy(usize),
}

#[derive(Clone, Copy, Debug, PartialEq, Eq, Structural)]
pub enum GameEvent {
    TurnStarted { entity: EntityId },
    TurnEnded { entity: EntityId },
    CardPlayed { card: u32, source: EntityId },
    EnemyAction { enemy: EntityId },
    DamageDealt { source: EntityId, target: EntityId, amount: i64 },
    BlockGained { entity: EntityId, amount: i64 },
}

/// What happened during one turn.
#[derive(Clone, Debug)]
pub struct TurnRecord {
    pub turn_number: usize,
    pub cards_played: Vec<u32>,
    pub enemy_intents: Vec<(usize, String)>,
}

/// Model of a turn record.
pub ghost struct TurnRecordView {
    pub turn_number: nat,
    pub cards_played: Seq<u32>,
    pub enemy_intents: Seq<(usize, Seq<char>)>,
}

impl View for TurnRecord {
    type V = TurnRecordView;

    open spec fn view(&self) -> TurnRecordView {
        TurnRecordView {
            turn_number: self.turn_number as nat,
            cards_played: self.cards_played@,
            enemy_intents: self.enemy_intents@.map_values(|p: (usize, String)| (p.0, p.1@)),
        }
    }
}

/// The record a turn starts with.
pub open spec fn empty_record(turn_number: nat) -> TurnRecordView {
    TurnRecordView { turn_number, cards_played: Seq::empty(), enemy_intents: Seq::empty() }
}

impl TurnRecord {
    pub fn new(turn_number: usize) -> (r: TurnRecord)
        ensures
            r@ == empty_record(turn_number as nat),
    {
        let r = TurnRecord { turn_number, cards_played: Vec::new(), enemy_intents: Vec::new() };
        proof {
            assert(r@.enemy_intents =~= Seq::<(usize, Seq<char>)>::empty());
        }
        r
    }
}

/// Why a player action was refused. The state is left as it was.
#[derive(Clone, Copy, Debug, PartialEq, Eq, Structural)]
pub enum CombatError {
    /// The hand has no card at the given index.
    IndexOutOfBounds,
    /// The card needs a single enemy target and none was given.
    TargetRequired,
    /// The given enemy slot is empty or the enemy there has no health.
    InvalidTarget,
    /// The cost is more than the remaining energy.
    NotEnoughEnergy { need: i32, have: i32 },
    /// The card cannot be played.
    Unplayable,
    /// The player is dead or no enemy is alive.
    CombatOver,
    /// The hero ability was already used this turn.
    AbilityAlreadyUsed,
    /// The hero ability needs a card in hand.
    EmptyHand,
}

impl CombatError {
    pub open spec fn spec_message(self) -> Seq<char> {
        match self {
            CombatError::IndexOutOfBounds => "Card index out of bounds"@,
            CombatError::TargetRequired => "This card requires a single enemy target"@,
            CombatError::InvalidTarget => "Invalid enemy target"@,
            CombatError::NotEnoughEnergy { need, have } => "Not enough energy: need "@
                + crate::text::decimal(need as int) + ", have "@ + crate::text::decimal(have as int),
            CombatError::Unplayable => "Card is unplayable"@,
            CombatError::CombatOver => "Combat is over"@,
            CombatError::AbilityAlreadyUsed => "Hero ability already used this turn"@,
            CombatError::EmptyHand => "No cards in hand to exhaust"@,
        }
    }

    /// Text for the interface.
    pub fn message(&self) -> (r: String)
        ensures
            r@ == self.spec_message(),
    {
        match self {
            CombatError::IndexOutOfBounds => String::from_str("Card index out of bounds"),
            CombatError::TargetRequired => String::from_str(
                "This card requires a single enemy target",
            ),
            CombatError::InvalidTarget => String::from_str("Invalid enemy target"),
            CombatError::NotEnoughEnergy { need, have } => {
                let mut s = crate::text::framed_number("Not enough energy: need ", *need as i128, ", have ");
                let h = crate::text::decimal_text(*have as i128);
                s.append(h.as_str());
                s
            },
            CombatError::Unplayable => String::from_str("Card is unplayable"),
            CombatError::CombatOver => String::from_str("Combat is over"),
            CombatError::AbilityAlreadyUsed => String::from_str(
                "Hero ability already used this turn",
            ),
            CombatError::EmptyHand => String::from_str("No cards in hand to exhaust"),
        }
    }
}

/// Model of an encounter.
pub ghost struct CombatView {
    pub player: PlayerView,
    pub enemies: Seq<EnemyView>,
    pub effects: Seq<(EntityId, Effect)>,
    pub draw_pile: Seq<Card>,
    pub hand: Seq<Card>,
    pub discard_pile: Seq<Card>,
    pub exhaust_pile: Seq<Card>,
    pub turn_history: Seq<TurnRecordView>,
    pub current_turn: TurnRecordView,
    pub turn_count: nat,
    pub pending_upgraded_card: Option<Card>,
}

/// The models of a list of enemies.
pub open spec fn enemy_views(s: Seq<Enemy>) -> Seq<EnemyView> {
    s.map_values(|e: Enemy| e@)
}

/// Energy the hero ability costs.
pub const HERO_ABILITY_COST: i32 = 1;

/// Health the hero ability costs.
pub const HERO_ABILITY_DAMAGE: i32 = 2;

/// Cards drawn at the start of each player turn.
pub const HAND_SIZE: usize = 5;

/// Why the hero ability is refused, if it is: checked in this order.
pub open spec fn ability_error(v: CombatView) -> Option<CombatError> {
    if v.combat_over() {
        Some(CombatError::CombatOver)
    } else if v.player.hero_ability_used {
        Some(CombatError::AbilityAlreadyUsed)
    } else if v.player.energy < HERO_ABILITY_COST {
        Some(CombatError::NotEnoughEnergy { need: HERO_ABILITY_COST, have: v.player.energy as i32 })
    } else if v.hand.len() == 0 {
        Some(CombatError::EmptyHand)
    } else {
        None
    }
}

/// A ledger after its poison ticks: health drops by the poison, then the
/// poison loses one stack. No poison, no change.
pub open spec fn poison_tick(l: LedgerView) -> LedgerView {
    if l.poison > 0 {
        l.set_health(l.health - l.poison).reduce_status(StatusType::Poison, 1)
    } else {
        l
    }
}

/// A combatant's ledger at the start of its turn: poison ticks, then the
/// block is cleared unless it is retained.
pub open spec fn enemy_turn_start(l: LedgerView) -> LedgerView {
    let p = poison_tick(l);
    if p.retain_block { p } else { p.set_block(0) }
}

/// The player's ledger at the start of a turn: poison ticks, debuffs
/// decay, and block is cleared unless it is retained.
pub open spec fn player_turn_start(l: LedgerView) -> LedgerView {
    let d = poison_tick(l).decay_debuffs();
    if d.retain_block { d } else { d.set_block(0) }
}

/// One enemy's turn, for the enemy at slot `j`: poison and block reset,
/// its intent for the turn counter recorded and resolved against the
/// player, `EnemyAction` fired, then its debuffs decay.
pub open spec fn enemy_turn(v: CombatView, j: int) -> CombatView {
    let e = EntityId::Enemy(j as usize);
    let v1 = v.with_ledger(e, enemy_turn_start(v.ledger_of(e)));
    let v2 = CombatView {
        current_turn: TurnRecordView {
            enemy_intents: v1.current_turn.enemy_intents.push(
                (j as usize, enemy_intent_description(v1.enemies[j], v.turn_count)),
            ),
            ..v1.current_turn
        },
        ..v1
    };
    let v3 = fold_actions(
        v2,
        enemy_intent_actions(v1.enemies[j], v.turn_count),
        e,
        seq![EntityId::Player],
        None,
    );
    let v4 = CombatView { effects: unspent(v3.effects), ..v3 };
    v4.with_ledger(e, v4.ledger_of(e).decay_debuffs())
}

/// The turns of the first `n` enemy slots, in order; a slot whose enemy is
/// dead when its turn comes is skipped.
pub open spec fn enemy_phase(v: CombatView, n: int) -> CombatView
    decreases n,
{
    if n <= 0 {
        v
    } else {
        let p = enemy_phase(v, n - 1);
        if n - 1 < p.enemies.len() && is_alive_enemy(p.enemies[n - 1]) {
            enemy_turn(p, n - 1)
        } else {
            p
        }
    }
}

/// Damage and block actions leave the piles, the turn bookkeeping and
/// everything of the player but the ledger as they were.
pub proof fn lemma_strikes_keep_piles(
    v: CombatView,
    actions: Seq<Action>,
    source: EntityId,
    targets: Seq<EntityId>,
    spent: Option<i32>,
)
    requires
        forall|k: int| 0 <= k < actions.len() ==> (#[trigger] actions[k] is Damage || actions[k] is Block),
    ensures
        ({
            let w = fold_actions(v, actions, source, targets, spent);
            &&& w.hand == v.hand
            &&& w.draw_pile == v.draw_pile
            &&& w.discard_pile == v.discard_pile
            &&& w.exhaust_pile == v.exhaust_pile
            &&& w.turn_history == v.turn_history
            &&& w.current_turn == v.current_turn
            &&& w.turn_count == v.turn_count
            &&& w.pending_upgraded_card == v.pending_upgraded_card
            &&& w.player == (PlayerView { ledger: w.player.ledger, ..v.player })
        }),
    decreases actions.len(),
{
    if actions.len() > 0 {
        let init = actions.drop_last();
        assert forall|k: int| 0 <= k < init.len() implies (#[trigger] init[k] is Damage || init[k] is Block) by {
            assert(init[k] == actions[k]);
        }
        lemma_strikes_keep_piles(v, init, source, targets, spent);
        let prev = fold_actions(v, init, source, targets, spent);
        assert(actions.last() == actions[actions.len() - 1]);
        match actions.last() {
            Action::Damage(d) => lemma_damage_each_keeps_piles(prev, source, targets, crate::actions::spent_or(spent, d.amount)),
            _ => {},
        }
    }
}

proof fn lemma_damage_each_keeps_piles(v: CombatView, source: EntityId, targets: Seq<EntityId>, base: int)
    ensures
        ({
            let w = damage_each(v, source, targets, base);
            &&& w.hand == v.hand
            &&& w.draw_pile == v.draw_pile
            &&& w.discard_pile == v.discard_pile
            &&& w.exhaust_pile == v.exhaust_pile
            &&& w.turn_history == v.turn_history
            &&& w.current_turn == v.current_turn
            &&& w.turn_count == v.turn_count
            &&& w.pending_upgraded_card == v.pending_upgraded_card
            &&& w.player == (PlayerView { ledger: w.player.ledger, ..v.player })
        }),
    decreases targets.len(),
{
    if targets.len() > 0 {
        lemma_damage_each_keeps_piles(v, source, targets.drop_last(), base);
    }
}

/// An empty ledger, read for an enemy slot that does not exist.
pub open spec fn missing_ledger() -> LedgerView {
    fresh_ledger(Seq::empty(), 0)
}

pub open spec fn is_alive_enemy(e: EnemyView) -> bool {
    e.ledger.is_alive()
}

/// The enemies that a sweep keeps, in slot order.
pub open spec fn living(enemies: Seq<EnemyView>) -> Seq<EnemyView> {
    enemies.filter(|e: EnemyView| is_alive_enemy(e))
}

impl CombatView {
    pub open spec fn wf(self) -> bool {
        &&& self.player.wf()
        &&& forall|i: int| 0 <= i < self.enemies.len() ==> (#[trigger] self.enemies[i]).ledger.wf()
        &&& self.turn_count <= usize::MAX
    }

    pub open spec fn player_dead(self) -> bool {
        !self.player.ledger.is_alive()
    }

    pub open spec fn all_enemies_dead(self) -> bool {
        forall|j: int| 0 <= j < self.enemies.len() ==> !is_alive_enemy(#[trigger] self.enemies[j])
    }

    /// The encounter has ended: the player is dead or no enemy is alive.
    pub open spec fn combat_over(self) -> bool {
        self.player_dead() || self.all_enemies_dead()
    }

    pub open spec fn has_entity(self, e: EntityId) -> bool {
        match e {
            EntityId::Player => true,
            EntityId::Enemy(i) => i < self.enemies.len(),
        }
    }

    pub open spec fn ledger_of(self, e: EntityId) -> LedgerView {
        match e {
            EntityId::Player => self.player.ledger,
            EntityId::Enemy(i) => if i < self.enemies.len() {
                self.enemies[i as int].ledger
            } else {
                missing_ledger()
            },
        }
    }

    pub open spec fn stacks_of(self, e: EntityId, t: StatusType) -> int {
        self.ledger_of(e).stacks(t)
    }

    /// The encounter with `e`'s ledger replaced; unchanged when `e` does not exist.
    pub open spec fn with_ledger(self, e: EntityId, l: LedgerView) -> CombatView {
        match e {
            EntityId::Player => CombatView { player: PlayerView { ledger: l, ..self.player }, ..self },
            EntityId::Enemy(i) => if i < self.enemies.len() {
                CombatView {
                    enemies: self.enemies.update(i as int, EnemyView { ledger: l, ..self.enemies[i as int] }),
                    ..self
                }
            } else {
                self
            },
        }
    }

    pub open spec fn add_status_to(self, e: EntityId, t: StatusType, n: int) -> CombatView {
        self.with_ledger(e, self.ledger_of(e).add_status(t, n))
    }

    /// Damage `source` deals to `target` from `base`, before block.
    pub open spec fn outgoing_damage(self, source: EntityId, target: EntityId, base: int) -> int {
        modified_damage(
            base,
            self.stacks_of(source, StatusType::Strength),
            self.stacks_of(source, StatusType::Weak) > 0,
            self.stacks_of(target, StatusType::Vulnerable) > 0,
        )
    }

    /// Damage that gets through the target's block.
    pub open spec fn damage_dealt(self, source: EntityId, target: EntityId, base: int) -> int {
        unblocked(self.outgoing_damage(source, target, base), self.ledger_of(target).block)
    }

    /// The encounter after the damage pipeline, before the event fires.
    pub open spec fn after_damage(self, source: EntityId, target: EntityId, base: int) -> CombatView {
        self.with_ledger(target, absorb(self.ledger_of(target), self.outgoing_damage(source, target, base)))
    }

    /// Block `e` gains from `base`.
    pub open spec fn block_gained(self, e: EntityId, base: int) -> int {
        modified_block(
            base,
            self.stacks_of(e, StatusType::Dexterity),
            self.stacks_of(e, StatusType::Frail) > 0,
        )
    }

    pub open spec fn after_block(self, e: EntityId, base: int) -> CombatView {
        self.with_ledger(e, add_block(self.ledger_of(e), self.block_gained(e, base)))
    }

    /// What one effect's handler does to the encounter on an event.
    pub open spec fn effect_step(self, owner: EntityId, effect: Effect, event: GameEvent) -> CombatView {
        match effect {
            Effect::Ritual(r) => match event {
                GameEvent::TurnEnded { entity } => if entity == owner {
                    self.add_status_to(owner, StatusType::Strength, r.amount as int)
                } else {
                    self
                },
                _ => self,
            },
            Effect::EnergyNextTurn(e) => match event {
                GameEvent::TurnStarted { entity } => if entity == owner && owner == EntityId::Player {
                    CombatView {
                        player: PlayerView {
                            energy: clamp(self.player.energy + e.spec_amount(), 0, cap()),
                            ..self.player
                        },
                        ..self
                    }
                } else {
                    self
                },
                _ => self,
            },
        }
    }

    /// The handlers of `effects` run in order.
    pub open spec fn run_effects(self, effects: Seq<(EntityId, Effect)>, event: GameEvent) -> CombatView
        decreases effects.len(),
    {
        if effects.len() == 0 {
            self
        } else {
            let last = effects.last();
            self.run_effects(effects.drop_last(), event).effect_step(last.0, last.1, event)
        }
    }

    /// The encounter after an event is dispatched to every registered effect
    /// and the spent effects are dropped.
    pub open spec fn after_event(self, event: GameEvent) -> CombatView {
        CombatView {
            effects: survivors(self.effects, event),
            ..self.run_effects(self.effects, event)
        }
    }
}

/// An effect after its handler saw an event.
pub open spec fn effect_after(owner: EntityId, effect: Effect, event: GameEvent) -> Effect {
    match effect {
        Effect::EnergyNextTurn(e) => match event {
            GameEvent::TurnStarted { entity } => if entity == owner && owner == EntityId::Player {
                Effect::EnergyNextTurn(e.spec_fired())
            } else {
                effect
            },
            _ => effect,
        },
        _ => effect,
    }
}

/// The registry after an event: each effect updated by its handler, the
/// spent ones dropped, the order kept.
pub open spec fn survivors(effects: Seq<(EntityId, Effect)>, event: GameEvent) -> Seq<(EntityId, Effect)>
    decreases effects.len(),
{
    if effects.len() == 0 {
        effects
    } else {
        let prev = survivors(effects.drop_last(), event);
        let last = effects.last();
        let updated = effect_after(last.0, last.1, event);
        if updated.spec_should_remove() {
            prev
        } else {
            prev.push((last.0, updated))
        }
    }
}

/// Events that no persistent effect reacts to.
pub open spec fn is_passive_event(event: GameEvent) -> bool {
    !(event is TurnStarted) && !(event is TurnEnded)
}

/// The effects that are not spent yet.
pub open spec fn unspent(effects: Seq<(EntityId, Effect)>) -> Seq<(EntityId, Effect)> {
    effects.filter(|p: (EntityId, Effect)| !p.1.spec_should_remove())
}

/// An event that no effect reacts to changes nothing but dropping the spent
/// effects.
pub proof fn lemma_passive_event(v: CombatView, event: GameEvent)
    requires
        is_passive_event(event),
    ensures
        v.after_event(event) == (CombatView { effects: unspent(v.effects), ..v }),
{
    lemma_run_passive(v, v.effects, event);
    lemma_survivors_passive(v.effects, event);
}

proof fn lemma_run_passive(v: CombatView, effects: Seq<(EntityId, Effect)>, event: GameEvent)
    requires
        is_passive_event(event),
    ensures
        v.run_effects(effects, event) == v,
    decreases effects.len(),
{
    if effects.len() > 0 {
        lemma_run_passive(v, effects.drop_last(), event);
    }
}

proof fn lemma_survivors_passive(effects: Seq<(EntityId, Effect)>, event: GameEvent)
    requires
        is_passive_event(event),
    ensures
        survivors(effects, event) == unspent(effects),
    decreases effects.len(),
{
    reveal(Seq::filter);
    if effects.len() > 0 {
        lemma_survivors_passive(effects.drop_last(), event);
    }
}

/// Relies on rand's `SliceRandom::shuffle` over `thread_rng`, which swaps
/// elements in place: the pile comes back as a permutation of itself.
#[verifier::external_body]
fn shuffle_cards(cards: &mut Vec<Card>)
    ensures
        final(cards)@.to_multiset() == old(cards)@.to_multiset(),
        final(cards)@.len() == old(cards)@.len(),
{
    cards.shuffle(&mut rand::thread_rng());
}

/// The encounter after `source` deals `base` damage to each target in
/// turn, each hit seeing the ones before it.
pub open spec fn damage_each(v: CombatView, source: EntityId, targets: Seq<EntityId>, base: int) -> CombatView
    decreases targets.len(),
{
    if targets.len() == 0 {
        v
    } else {
        let prev = damage_each(v, source, targets.drop_last(), base);
        CombatView { effects: unspent(prev.effects), ..prev.after_damage(source, targets.last(), base) }
    }
}

/// The encounter after each target in turn gains `n` stacks of `t`.
pub open spec fn status_each(v: CombatView, targets: Seq<EntityId>, t: StatusType, n: int) -> CombatView
    decreases targets.len(),
{
    if targets.len() == 0 {
        v
    } else {
        status_each(v, targets.drop_last(), t, n).add_status_to(targets.last(), t, n)
    }
}

/// What resolving card effects leaves alone: energy and the ability flag,
/// the exhaust pile, the turn bookkeeping, the enemy slots and the cards
/// already in hand. The discard pile is either kept or, after a
/// reshuffle, empty.
pub open spec fn card_frame(a: CombatView, b: CombatView) -> bool {
    &&& b.player == (PlayerView { ledger: b.player.ledger, ..a.player })
    &&& b.exhaust_pile == a.exhaust_pile
    &&& b.turn_history == a.turn_history
    &&& b.current_turn == a.current_turn
    &&& b.turn_count == a.turn_count
    &&& b.pending_upgraded_card == a.pending_upgraded_card
    &&& b.enemies.len() == a.enemies.len()
    &&& b.hand.len() >= a.hand.len()
    &&& b.hand.take(a.hand.len() as int) == a.hand
    &&& (b.discard_pile == a.discard_pile || b.discard_pile.len() == 0)
}

pub proof fn lemma_card_frame_trans(a: CombatView, b: CombatView, c: CombatView)
    requires
        card_frame(a, b),
        card_frame(b, c),
    ensures
        card_frame(a, c),
{
    assert(c.hand.take(a.hand.len() as int) =~= b.hand.take(a.hand.len() as int));
}

/// Slots of the living enemies among the first `n`, in order.
pub open spec fn living_ids_upto(enemies: Seq<EnemyView>, n: int) -> Seq<EntityId>
    decreases n,
{
    if n <= 0 {
        Seq::empty()
    } else {
        let prev = living_ids_upto(enemies, n - 1);
        if is_alive_enemy(enemies[n - 1]) {
            prev.push(EntityId::Enemy((n - 1) as usize))
        } else {
            prev
        }
    }
}

pub open spec fn living_ids(v: CombatView) -> Seq<EntityId> {
    living_ids_upto(v.enemies, v.enemies.len() as int)
}

/// Who a card hits, given its targeting and the chosen target.
pub open spec fn play_targets(v: CombatView, targeting: CardTargeting, target: Option<EntityId>) -> Seq<EntityId> {
    match targeting {
        CardTargeting::SingleEnemy => seq![target->0],
        CardTargeting::AllEnemies => living_ids(v),
        CardTargeting::Self_ => seq![EntityId::Player],
        CardTargeting::NoTarget => Seq::empty(),
    }
}

/// Why playing the hand card at `index` on `target` is refused, if it is:
/// checked in this order.
pub open spec fn play_error(v: CombatView, index: int, target: Option<EntityId>) -> Option<CombatError> {
    if v.combat_over() {
        Some(CombatError::CombatOver)
    } else if index < 0 || index >= v.hand.len() {
        Some(CombatError::IndexOutOfBounds)
    } else {
        let card = v.hand[index];
        let target_error: Option<CombatError> = match card@.targeting {
            CardTargeting::SingleEnemy => match target {
                Some(EntityId::Enemy(id)) => if id >= v.enemies.len() || v.enemies[id as int].ledger.health == 0 {
                    Some(CombatError::InvalidTarget)
                } else {
                    None
                },
                _ => Some(CombatError::TargetRequired),
            },
            _ => None,
        };
        if target_error is Some {
            target_error
        } else {
            match card.spec_cost() {
                None => Some(CombatError::Unplayable),
                Some(Some(c)) => if v.player.energy < c {
                    Some(CombatError::NotEnoughEnergy { need: c as i32, have: v.player.energy as i32 })
                } else {
                    None
                },
                Some(None) => None,
            }
        }
    }
}

/// The energy handed to a card's effects: all of it for an X cost.
pub open spec fn energy_spent_on(v: CombatView, card: Card) -> Option<i32> {
    match card.spec_cost() {
        Some(None) => Some(v.player.energy as i32),
        _ => None,
    }
}

/// The encounter after playing the hand card at `index` on `target`, for a
/// card that can be played and draws no cards: cost paid, card out of the
/// hand and recorded, effects resolved in order, `CardPlayed` fired, card
/// exhausted or discarded, dead enemies swept.
pub open spec fn after_play(v: CombatView, index: int, target: Option<EntityId>) -> CombatView {
    let card = v.hand[index];
    let v1 = CombatView {
        player: PlayerView { energy: energy_after_play(v, card), ..v.player },
        hand: v.hand.remove(index),
        current_turn: TurnRecordView {
            cards_played: v.current_turn.cards_played.push(card@.instance_id),
            ..v.current_turn
        },
        ..v
    };
    let v2 = fold_actions(
        v1,
        card@.effects,
        EntityId::Player,
        play_targets(v, card@.targeting, target),
        energy_spent_on(v, card),
    );
    let v3 = CombatView { effects: unspent(v2.effects), ..v2 };
    let v4 = if card@.exhaust {
        CombatView { exhaust_pile: v3.exhaust_pile.push(card), ..v3 }
    } else {
        CombatView { discard_pile: v3.discard_pile.push(card), ..v3 }
    };
    CombatView { enemies: living(v4.enemies), ..v4 }
}

/// Whether a card has no effect that draws.
pub open spec fn draws_nothing(card: Card) -> bool {
    forall|k: int| 0 <= k < card@.effects.len() ==> !(#[trigger] card@.effects[k] is DrawCards)
}

/// Energy left after paying for a card that can be played.
pub open spec fn energy_after_play(v: CombatView, card: Card) -> int {
    match card.spec_cost() {
        Some(Some(c)) => v.player.energy - c,
        _ => 0,
    }
}

/// Replacing a ledger twice keeps the second; reading it back gives it.
pub proof fn lemma_with_ledger_twice(v: CombatView, e: EntityId, a: LedgerView, b: LedgerView)
    ensures
        v.with_ledger(e, a).with_ledger(e, b) == v.with_ledger(e, b),
        v.has_entity(e) ==> v.with_ledger(e, a).ledger_of(e) == a,
        v.with_ledger(e, a).enemies.len() == v.enemies.len(),
        v.with_ledger(e, v.ledger_of(e)) == v,
{
    match e {
        EntityId::Player => {},
        EntityId::Enemy(i) => {
            if i < v.enemies.len() {
                assert(v.with_ledger(e, v.ledger_of(e)).enemies =~= v.enemies);
                assert(v.with_ledger(e, a).with_ledger(e, b).enemies =~= v.with_ledger(e, b).enemies);
            }
        },
    }
}

/// The player's energy after the `TurnStarted` handlers ran from `energy`:
/// each of the player's energy-next-turn effects adds its amount.
pub open spec fn turn_start_energy(effects: Seq<(EntityId, Effect)>, energy: int) -> int
    decreases effects.len(),
{
    if effects.len() == 0 {
        energy
    } else {
        let prev = turn_start_energy(effects.drop_last(), energy);
        let last = effects.last();
        match last.1 {
            Effect::EnergyNextTurn(e) => if last.0 == EntityId::Player {
                clamp(prev + e.spec_amount(), 0, cap())
            } else {
                prev
            },
            _ => prev,
        }
    }
}

/// On the player's `TurnStarted` the handlers change the player's energy
/// and nothing else.
pub proof fn lemma_turn_started(v: CombatView, effects: Seq<(EntityId, Effect)>)
    ensures
        v.run_effects(effects, GameEvent::TurnStarted { entity: EntityId::Player }) == (CombatView {
            player: PlayerView { energy: turn_start_energy(effects, v.player.energy), ..v.player },
            ..v
        }),
    decreases effects.len(),
{
    if effects.len() > 0 {
        lemma_turn_started(v, effects.drop_last());
    }
}

/// Sweeping the dead twice leaves the same enemies as sweeping once.
pub proof fn lemma_sweep_idempotent(enemies: Seq<EnemyView>)
    ensures
        living(living(enemies)) == living(enemies),
{
    let once = living(enemies);
    assert forall|i: int| 0 <= i < once.len() implies is_alive_enemy(#[trigger] once[i]) by {
        enemies.lemma_filter_pred(|e: EnemyView| is_alive_enemy(e), i);
    }
    lemma_filter_keeps_all(once);
}

proof fn lemma_filter_keeps_all(s: Seq<EnemyView>)
    requires
        forall|i: int| 0 <= i < s.len() ==> is_alive_enemy(#[trigger] s[i]),
    ensures
        living(s) == s,
    decreases s.len(),
{
    reveal(Seq::filter);
    if s.len() > 0 {
        lemma_filter_keeps_all(s.drop_last());
        assert(s.drop_last().push(s.last()) =~= s);
    }
}

pub proof fn lemma_card_frame_refl(a: CombatView)
    ensures
        card_frame(a, a),
{
    assert(a.hand.take(a.hand.len() as int) =~= a.hand);
}

#[verifier::external_type_specification]
#[verifier::external_body]
pub struct ExStdRng(StdRng);

/// Relies on rand's `SeedableRng::seed_from_u64` for `StdRng`: a generator
/// whose output is fixed by the seed.
#[verifier::external_body]
fn seeded_rng(seed: u64) -> StdRng {
    StdRng::seed_from_u64(seed)
}

/// Relies on rand's `SliceRandom::shuffle` over the given generator, which
/// swaps elements in place: the pile comes back as a permutation of itself.
#[verifier::external_body]
fn shuffle_cards_with(cards: &mut Vec<Card>, rng: &mut StdRng)
    ensures
        final(cards)@.to_multiset() == old(cards)@.to_multiset(),
        final(cards)@.len() == old(cards)@.len(),
{
    cards.shuffle(rng);
}

/// The total of the draw and discard piles, as a multiset.
pub open spec fn drawable(v: CombatView) -> Multiset<Card> {
    v.draw_pile.to_multiset().add(v.discard_pile.to_multiset())
}

/// The two encounters agree on everything but the draw, discard and hand piles.
pub open spec fn same_but_piles(a: CombatView, b: CombatView) -> bool {
    &&& a.player == b.player
    &&& a.enemies == b.enemies
    &&& a.effects == b.effects
    &&& a.exhaust_pile == b.exhaust_pile
    &&& a.turn_history == b.turn_history
    &&& a.current_turn == b.current_turn
    &&& a.turn_count == b.turn_count
    &&& a.pending_upgraded_card == b.pending_upgraded_card
}

/// The authoritative state of one encounter and the rules that change it.
pub struct GameState {
    player: Player,
    enemies: Vec<Enemy>,
    effects: Vec<(EntityId, Effect)>,
    draw_pile: Vec<Card>,
    hand: Vec<Card>,
    discard_pile: Vec<Card>,
    exhaust_pile: Vec<Card>,
    turn_history: Vec<TurnRecord>,
    current_turn_record: TurnRecord,
    turn_count: usize,
    pending_upgraded_card: Option<Card>,
    /// The generator for shuffles; the process-wide one when absent.
    shuffle_rng: Option<StdRng>,
}

impl View for GameState {
    type V = CombatView;

    closed spec fn view(&self) -> CombatView {
        CombatView {
            player: self.player@,
            enemies: enemy_views(self.enemies@),
            effects: self.effects@,
            draw_pile: self.draw_pile@,
            hand: self.hand@,
            discard_pile: self.discard_pile@,
            exhaust_pile: self.exhaust_pile@,
            turn_history: self.turn_history@.map_values(|t: TurnRecord| t@),
            current_turn: self.current_turn_record@,
            turn_count: self.turn_count as nat,
            pending_upgraded_card: self.pending_upgraded_card,
        }
    }
}

impl GameState {
    pub fn new(player: Player, enemies: Vec<Enemy>) -> (r: GameState)
        ensures
            player@.wf() && (forall|i: int| 0 <= i < enemies@.len() ==> (#[trigger] enemies@[i])@.ledger.wf())
                ==> r@.wf(),
            r@ == (CombatView {
                player: player@,
                enemies: enemy_views(enemies@),
                effects: Seq::empty(),
                draw_pile: Seq::empty(),
                hand: Seq::empty(),
                discard_pile: Seq::empty(),
                exhaust_pile: Seq::empty(),
                turn_history: Seq::empty(),
                current_turn: empty_record(0),
                turn_count: 0,
                pending_upgraded_card: None,
            }),
    {
        let r = GameState {
            player,
            enemies,
            effects: Vec::new(),
            draw_pile: Vec::new(),
            hand: Vec::new(),
            discard_pile: Vec::new(),
            exhaust_pile: Vec::new(),
            turn_history: Vec::new(),
            current_turn_record: TurnRecord::new(0),
            turn_count: 0,
            pending_upgraded_card: None,
            shuffle_rng: None,
        };
        proof {
            assert(r@.turn_history =~= Seq::<TurnRecordView>::empty());
        }
        r
    }

    pub fn player(&self) -> (r: &Player)
        ensures
            r@ == self@.player,
    {
        &self.player
    }

    pub fn player_mut(&mut self) -> (r: &mut Player)
        ensures
            r@ == old(self)@.player,
            final(self)@ == (CombatView { player: final(r)@, ..old(self)@ }),
    {
        &mut self.player
    }

    pub fn enemies(&self) -> (r: &[Enemy])
        ensures
            enemy_views(r@) == self@.enemies,
    {
        self.enemies.as_slice()
    }

    /// Block of an entity; 0 for a missing enemy slot.
    fn get_block(&self, entity: EntityId) -> (r: i32)
        requires
            self@.wf(),
        ensures
            r == self@.ledger_of(entity).block,
    {
        match entity {
            EntityId::Player => self.player.get_block(),
            EntityId::Enemy(id) => {
                if id < self.enemies.len() {
                    self.enemies[id].get_block()
                } else {
                    0
                }
            },
        }
    }

    /// Replaces an entity's block (clamped into `[0, i32::MAX]`).
    fn store_block(&mut self, entity: EntityId, amount: i64)
        requires
            old(self)@.wf(),
        ensures
            final(self)@ == old(self)@.with_ledger(
                entity,
                LedgerView { block: clamp(amount as int, 0, cap()), ..old(self)@.ledger_of(entity) },
            ),
            final(self)@.wf(),
    {
        let b: i32 = if amount < 0 {
            0
        } else if amount > i32::MAX as i64 {
            i32::MAX
        } else {
            amount as i32
        };
        match entity {
            EntityId::Player => {
                self.player.set_block(b);
            },
            EntityId::Enemy(id) => {
                if id < self.enemies.len() {
                    self.enemies[id].set_block(b);
                    proof {
                        assert(self@.enemies =~= old(self)@.with_ledger(
                            entity,
                            LedgerView { block: clamp(amount as int, 0, cap()), ..old(self)@.ledger_of(entity) },
                        ).enemies);
                    }
                }
            },
        }
    }

    /// Replaces an entity's health (clamped into `[0, max_health]`).
    fn store_health(&mut self, entity: EntityId, amount: i64)
        requires
            old(self)@.wf(),
        ensures
            final(self)@ == old(self)@.with_ledger(
                entity,
                old(self)@.ledger_of(entity).set_health(amount as int),
            ),
            final(self)@.wf(),
    {
        let h: i32 = if amount < 0 {
            0
        } else if amount > i32::MAX as i64 {
            i32::MAX
        } else {
            amount as i32
        };
        match entity {
            EntityId::Player => {
                self.player.set_health(h);
            },
            EntityId::Enemy(id) => {
                if id < self.enemies.len() {
                    self.enemies[id].set_health(h);
                    proof {
                        assert(self@.enemies =~= old(self)@.with_ledger(
                            entity,
                            old(self)@.ledger_of(entity).set_health(amount as int),
                        ).enemies);
                    }
                }
            },
        }
    }

    fn get_health(&self, entity: EntityId) -> (r: i32)
        requires
            self@.wf(),
        ensures
            r == self@.ledger_of(entity).health,
    {
        match entity {
            EntityId::Player => self.player.get_current_health(),
            EntityId::Enemy(id) => {
                if id < self.enemies.len() {
                    self.enemies[id].get_current_health()
                } else {
                    0
                }
            },
        }
    }

    /// Registers a persistent effect.
    pub fn add_effect(&mut self, owner: EntityId, effect: Effect)
        ensures
            final(self)@ == (CombatView { effects: old(self)@.effects.push((owner, effect)), ..old(self)@ }),
    {
        self.effects.push((owner, effect));
    }

    /// Dispatches an event to every registered effect, in registration
    /// order, then drops the effects that report themselves spent.
    pub fn fire_event(&mut self, event: GameEvent)
        requires
            old(self)@.wf(),
        ensures
            final(self)@ == old(self)@.after_event(event),
            final(self)@.wf(),
    {
        let mut effects: Vec<(EntityId, Effect)> = Vec::new();
        std::mem::swap(&mut effects, &mut self.effects);
        let mut kept: Vec<(EntityId, Effect)> = Vec::new();
        let mut i: usize = 0;
        while i < effects.len()
            invariant
                0 <= i <= effects.len(),
                effects@ == old(self)@.effects,
                self@ == (CombatView {
                    effects: Seq::empty(),
                    ..old(self)@.run_effects(effects@.take(i as int), event)
                }),
                kept@ == survivors(effects@.take(i as int), event),
                self@.wf(),
            decreases effects.len() - i,
        {
            let (owner, eff) = effects[i];
            let mut e = eff;
            e.on_event(&event, owner, self);
            if !e.should_remove() {
                kept.push((owner, e));
            }
            proof {
                assert(effects@.take(i + 1).drop_last() =~= effects@.take(i as int));
            }
            i += 1;
        }
        proof {
            assert(effects@.take(i as int) =~= effects@);
        }
        let ghost mid = self@;
        self.effects = kept;
        proof {
            assert(self@.player == mid.player);
            assert(self@.enemies == mid.enemies);
        }
    }

    /// Runs the damage pipeline from `source` against `target`: Strength,
    /// then Weak, then Vulnerable, then block absorption, then health loss;
    /// then fires `DamageDealt`. Returns the damage that got through block.
    /// A missing target slot takes nothing.
    pub fn deal_damage(&mut self, source: EntityId, target: EntityId, base_damage: i32) -> (r: i64)
        requires
            old(self)@.wf(),
        ensures
            r == old(self)@.damage_dealt(source, target, base_damage as int),
            final(self)@ == old(self)@.after_damage(source, target, base_damage as int).after_event(
                GameEvent::DamageDealt { source, target, amount: r },
            ),
            final(self)@ == (CombatView {
                effects: unspent(old(self)@.effects),
                ..old(self)@.after_damage(source, target, base_damage as int)
            }),
            final(self)@.wf(),
    {
        let strength = self.get_status(source, StatusType::Strength);
        let weak = self.get_status(source, StatusType::Weak);
        let vulnerable = self.get_status(target, StatusType::Vulnerable);
        let dmg = compute_damage(base_damage, strength, weak > 0, vulnerable > 0);
        let block = self.get_block(target);
        let absorbed: i64 = if dmg <= block as i64 { dmg } else { block as i64 };
        let final_damage: i64 = dmg - absorbed;
        let ghost v0 = self@;
        self.store_block(target, block as i64 - absorbed);
        let health = self.get_health(target);
        self.store_health(target, health as i64 - final_damage);
        proof {
            let l0 = v0.ledger_of(target);
            let l2 = absorb(l0, dmg as int);
            if v0.has_entity(target) {
                match target {
                    EntityId::Player => {},
                    EntityId::Enemy(i) => {
                        assert(self@.enemies =~= v0.after_damage(source, target, base_damage as int).enemies);
                    },
                }
            }
            assert(self@ == v0.after_damage(source, target, base_damage as int));
        }
        let event = GameEvent::DamageDealt { source, target, amount: final_damage };
        proof {
            lemma_passive_event(self@, event);
        }
        self.fire_event(event);
        final_damage
    }

    /// `entity` gains block from `base`: Dexterity, then Frail, never
    /// negative; then fires `BlockGained`. Returns the block gained.
    pub fn gain_block(&mut self, entity: EntityId, base_block: i32) -> (r: i64)
        requires
            old(self)@.wf(),
        ensures
            r == old(self)@.block_gained(entity, base_block as int),
            final(self)@ == old(self)@.after_block(entity, base_block as int).after_event(
                GameEvent::BlockGained { entity, amount: r },
            ),
            final(self)@ == (CombatView {
                effects: unspent(old(self)@.effects),
                ..old(self)@.after_block(entity, base_block as int)
            }),
            final(self)@.wf(),
    {
        let dexterity = self.get_status(entity, StatusType::Dexterity);
        let frail = self.get_status(entity, StatusType::Frail);
        let block = compute_block(base_block, dexterity, frail > 0);
        let current = self.get_block(entity);
        let ghost v0 = self@;
        self.store_block(entity, current as i64 + block);
        proof {
            assert(self@ == v0.after_block(entity, base_block as int));
        }
        let event = GameEvent::BlockGained { entity, amount: block };
        proof {
            lemma_passive_event(self@, event);
        }
        self.fire_event(event);
        block
    }

    /// Shuffles the draw pile into a uniformly random order, drawn from the
    /// seeded generator when one was set.
    pub fn shuffle_draw_pile(&mut self)
        ensures
            final(self)@.draw_pile.to_multiset() == old(self)@.draw_pile.to_multiset(),
            final(self)@.draw_pile.len() == old(self)@.draw_pile.len(),
            final(self)@ == (CombatView { draw_pile: final(self)@.draw_pile, ..old(self)@ }),
    {
        match &mut self.shuffle_rng {
            Some(rng) => shuffle_cards_with(&mut self.draw_pile, rng),
            None => shuffle_cards(&mut self.draw_pile),
        }
    }

    /// Makes every later shuffle come from a generator seeded with `seed`,
    /// so that two encounters seeded alike shuffle alike.
    pub fn set_shuffle_seed(&mut self, seed: u64)
        ensures
            final(self)@ == old(self)@,
    {
        self.shuffle_rng = Some(seeded_rng(seed));
    }

    /// Takes the top card of the draw pile. An empty draw pile is first
    /// refilled with the whole discard pile, shuffled. With both piles empty
    /// nothing is drawn.
    pub fn draw_card(&mut self) -> (r: Option<Card>)
        ensures
            old(self)@.draw_pile.len() > 0 ==> {
                &&& r == Some(old(self)@.draw_pile.last())
                &&& final(self)@ == (CombatView {
                    draw_pile: old(self)@.draw_pile.drop_last(),
                    ..old(self)@
                })
            },
            old(self)@.draw_pile.len() == 0 && old(self)@.discard_pile.len() > 0 ==> {
                &&& r is Some
                &&& final(self)@.draw_pile.push(r->0).to_multiset()
                    == old(self)@.discard_pile.to_multiset()
                &&& final(self)@ == (CombatView {
                    draw_pile: final(self)@.draw_pile,
                    discard_pile: Seq::empty(),
                    ..old(self)@
                })
            },
            old(self)@.draw_pile.len() == 0 && old(self)@.discard_pile.len() == 0 ==> {
                &&& r is None
                &&& final(self)@ == old(self)@
            },
    {
        if self.draw_pile.len() == 0 && self.discard_pile.len() > 0 {
            self.draw_pile.append(&mut self.discard_pile);
            proof {
                assert(self.draw_pile@ =~= old(self)@.discard_pile);
            }
            self.shuffle_draw_pile();
            let ghost shuffled = self.draw_pile@;
            let r = self.draw_pile.pop();
            proof {
                assert(self.draw_pile@.push(r->0) =~= shuffled);
            }
            r
        } else {
            self.draw_pile.pop()
        }
    }

    /// Draws up to `count` cards into the hand, one at a time, stopping
    /// early when both the draw and the discard pile are empty.
    pub fn draw_cards(&mut self, count: usize)
        ensures
            final(self)@.hand.len() == old(self)@.hand.len() + vstd::math::min(
                count as int,
                (old(self)@.draw_pile.len() + old(self)@.discard_pile.len()) as int,
            ),
            final(self)@.hand.take(old(self)@.hand.len() as int) == old(self)@.hand,
            drawable(final(self)@).add(final(self)@.hand.skip(old(self)@.hand.len() as int).to_multiset())
                == drawable(old(self)@),
            same_but_piles(final(self)@, old(self)@),
            final(self)@.discard_pile == old(self)@.discard_pile || final(self)@.discard_pile.len() == 0,
    {
        let ghost start = self@;
        let ghost n0 = self@.hand.len();
        proof {
            assert(self@.hand.skip(n0 as int) =~= Seq::<Card>::empty());
            assert(self@.hand.take(n0 as int) =~= self@.hand);
            broadcast use vstd::seq_lib::group_to_multiset_ensures;
            vstd::multiset::lemma_multiset_empty_len(Seq::<Card>::empty().to_multiset());
            assert(drawable(self@).add(self@.hand.skip(n0 as int).to_multiset()) =~= drawable(start));
        }
        let mut i: usize = 0;
        while i < count
            invariant
                0 <= i <= count,
                n0 == start.hand.len(),
                self@.hand.len() == n0 + vstd::math::min(
                    i as int,
                    (start.draw_pile.len() + start.discard_pile.len()) as int,
                ),
                self@.draw_pile.len() + self@.discard_pile.len() == start.draw_pile.len()
                    + start.discard_pile.len() - vstd::math::min(
                    i as int,
                    (start.draw_pile.len() + start.discard_pile.len()) as int,
                ),
                self@.hand.take(n0 as int) == start.hand,
                drawable(self@).add(self@.hand.skip(n0 as int).to_multiset()) == drawable(start),
                same_but_piles(self@, start),
                self@.discard_pile == start.discard_pile || self@.discard_pile.len() == 0,
            decreases count - i,
        {
            let ghost before = self@;
            let drawn = self.draw_card();
            proof {
                broadcast use vstd::seq_lib::group_to_multiset_ensures;
            }
            match drawn {
                Some(card) => {
                    self.hand.push(card);
                    proof {
                        broadcast use vstd::seq_lib::group_to_multiset_ensures;
                        assert(self@.hand.take(n0 as int) =~= before.hand.take(n0 as int));
                        assert(self@.hand.skip(n0 as int) =~= before.hand.skip(n0 as int).push(card));
                        if before.draw_pile.len() > 0 {
                            assert(before.draw_pile =~= self@.draw_pile.push(card));
                        } else {
                            assert(before.discard_pile.to_multiset() =~= self@.draw_pile.push(card).to_multiset());
                        }
                        assert(drawable(self@).add(self@.hand.skip(n0 as int).to_multiset()) =~= drawable(start));
                    }
                },
                None => {
                    proof {
                        assert(before.draw_pile.len() == 0 && before.discard_pile.len() == 0);
                    }
                },
            }
            proof {
                broadcast use vstd::seq_lib::group_to_multiset_ensures;
                if before.draw_pile.len() == 0 && before.discard_pile.len() > 0 {
                    assert(self@.draw_pile.len() + 1 == before.discard_pile.len()) by {
                        let d = drawn->0;
                        assert(self@.draw_pile.push(d).to_multiset().len() == before.discard_pile.to_multiset().len());
                    }
                }
            }
            i += 1;
        }
    }

    /// Moves the hand card at `index` to the discard pile and returns its
    /// instance id; `None`, with nothing changed, when there is no such card.
    pub fn discard_from_hand(&mut self, index: usize) -> (r: Option<u32>)
        ensures
            index < old(self)@.hand.len() ==> {
                &&& r == Some(old(self)@.hand[index as int].spec_instance_id())
                &&& final(self)@ == (CombatView {
                    hand: old(self)@.hand.remove(index as int),
                    discard_pile: old(self)@.discard_pile.push(old(self)@.hand[index as int]),
                    ..old(self)@
                })
            },
            index >= old(self)@.hand.len() ==> r is None && final(self)@ == old(self)@,
    {
        if index < self.hand.len() {
            let card = self.hand.remove(index);
            let id = card.instance_id();
            self.discard_pile.push(card);
            Some(id)
        } else {
            None
        }
    }

    /// Takes the hand card at `index` out of the hand; `None`, with nothing
    /// changed, when there is no such card.
    pub fn remove_from_hand(&mut self, index: usize) -> (r: Option<Card>)
        ensures
            index < old(self)@.hand.len() ==> {
                &&& r == Some(old(self)@.hand[index as int])
                &&& final(self)@ == (CombatView { hand: old(self)@.hand.remove(index as int), ..old(self)@ })
            },
            index >= old(self)@.hand.len() ==> r is None && final(self)@ == old(self)@,
    {
        if index < self.hand.len() {
            Some(self.hand.remove(index))
        } else {
            None
        }
    }

    /// Moves the hand card at `index` to the exhaust pile and returns its
    /// instance id; `None`, with nothing changed, when there is no such card.
    pub fn exhaust_from_hand(&mut self, index: usize) -> (r: Option<u32>)
        ensures
            index < old(self)@.hand.len() ==> {
                &&& r == Some(old(self)@.hand[index as int].spec_instance_id())
                &&& final(self)@ == (CombatView {
                    hand: old(self)@.hand.remove(index as int),
                    exhaust_pile: old(self)@.exhaust_pile.push(old(self)@.hand[index as int]),
                    ..old(self)@
                })
            },
            index >= old(self)@.hand.len() ==> r is None && final(self)@ == old(self)@,
    {
        if index < self.hand.len() {
            let card = self.hand.remove(index);
            let id = card.instance_id();
            self.exhaust_pile.push(card);
            Some(id)
        } else {
            None
        }
    }

    /// Moves the whole hand, in order, onto the discard pile.
    pub fn discard_hand(&mut self)
        ensures
            final(self)@ == (CombatView {
                hand: Seq::empty(),
                discard_pile: old(self)@.discard_pile + old(self)@.hand,
                ..old(self)@
            }),
    {
        self.discard_pile.append(&mut self.hand);
        proof {
            assert(self@.hand =~= Seq::<Card>::empty());
        }
    }

    pub fn add_card_to_hand(&mut self, card: Card)
        ensures
            final(self)@ == (CombatView { hand: old(self)@.hand.push(card), ..old(self)@ }),
    {
        self.hand.push(card);
    }

    pub fn add_card_to_discard(&mut self, card: Card)
        ensures
            final(self)@ == (CombatView { discard_pile: old(self)@.discard_pile.push(card), ..old(self)@ }),
    {
        self.discard_pile.push(card);
    }

    pub fn add_card_to_exhaust(&mut self, card: Card)
        ensures
            final(self)@ == (CombatView { exhaust_pile: old(self)@.exhaust_pile.push(card), ..old(self)@ }),
    {
        self.exhaust_pile.push(card);
    }

    pub fn add_card_to_draw_pile(&mut self, card: Card)
        ensures
            final(self)@ == (CombatView { draw_pile: old(self)@.draw_pile.push(card), ..old(self)@ }),
    {
        self.draw_pile.push(card);
    }

    /// The sweep: removes every enemy whose health is 0, keeping the order
    /// of the others. Later slots shift down.
    pub fn remove_dead_enemies(&mut self)
        requires
            old(self)@.wf(),
        ensures
            final(self)@ == (CombatView { enemies: living(old(self)@.enemies), ..old(self)@ }),
            final(self)@.wf(),
    {
        let mut rest: Vec<Enemy> = Vec::new();
        std::mem::swap(&mut rest, &mut self.enemies);
        let ghost all = old(self)@.enemies;
        let ghost mut k: int = 0;
        while rest.len() > 0
            invariant
                0 <= k <= all.len(),
                enemy_views(rest@) == all.skip(k),
                enemy_views(self.enemies@) == living(all.take(k)),
                forall|i: int| 0 <= i < all.len() ==> (#[trigger] all[i]).ledger.wf(),
                self@ == (CombatView { enemies: self@.enemies, ..old(self)@ }),
            decreases rest.len(),
        {
            proof {
                assert(enemy_views(rest@).len() == rest@.len());
                assert(k < all.len());
            }
            let ghost rest_before = rest@;
            let e = rest.remove(0);
            proof {
                assert(rest@ =~= rest_before.subrange(1, rest_before.len() as int));
                assert forall|j: int| 0 <= j < rest@.len() implies #[trigger] enemy_views(rest@)[j] == all.skip(k + 1)[j] by {
                    assert(enemy_views(rest_before)[j + 1] == all.skip(k)[j + 1]);
                }
                assert(all.skip(k)[0] == e@);
                assert(enemy_views(rest@) =~= all.skip(k + 1));
                assert(all.take(k + 1).drop_last() =~= all.take(k));
                reveal(Seq::filter);
            }
            if e.is_alive() {
                self.enemies.push(e);
                proof {
                    assert(enemy_views(self.enemies@) =~= living(all.take(k + 1)));
                }
            } else {
                proof {
                    assert(enemy_views(self.enemies@) =~= living(all.take(k + 1)));
                }
            }
            proof {
                k = k + 1;
            }
        }
        proof {
            assert(all.take(k) =~= all);
            let l = living(all);
            assert forall|i: int| 0 <= i < l.len() implies (#[trigger] l[i]).ledger.wf() by {
                all.lemma_filter_contains_rev(|e: EnemyView| is_alive_enemy(e), l[i]);
            }
        }
    }

    /// Grants a modifier to an entity; a missing enemy slot is a no-op.
    pub fn add_modifier(&mut self, entity: EntityId, modifier: Modifier)
        requires
            old(self)@.wf(),
        ensures
            final(self)@ == old(self)@.with_ledger(entity, old(self)@.ledger_of(entity).with_modifier(modifier, true)),
            final(self)@.wf(),
    {
        match entity {
            EntityId::Player => {
                self.player.add_modifier(modifier);
            },
            EntityId::Enemy(id) => {
                if id < self.enemies.len() {
                    self.enemies[id].add_modifier(modifier);
                    proof {
                        assert(self@.enemies =~= old(self)@.with_ledger(
                            entity,
                            old(self)@.ledger_of(entity).with_modifier(modifier, true),
                        ).enemies);
                    }
                }
            },
        }
    }

    pub fn get_all_living_enemies(&self) -> (r: Vec<EntityId>)
        ensures
            r@ == living_ids(self@),
    {
        let mut r: Vec<EntityId> = Vec::new();
        let mut j: usize = 0;
        while j < self.enemies.len()
            invariant
                0 <= j <= self.enemies@.len(),
                r@ == living_ids_upto(self@.enemies, j as int),
            decreases self.enemies@.len() - j,
        {
            if self.enemies[j].is_alive() {
                r.push(EntityId::Enemy(j));
            }
            j += 1;
        }
        r
    }

    pub fn get_all_enemy_ids(&self) -> (r: Vec<EntityId>)
        ensures
            r@.len() == self@.enemies.len(),
            forall|j: int| 0 <= j < r@.len() ==> #[trigger] r@[j] == EntityId::Enemy(j as usize),
    {
        let mut r: Vec<EntityId> = Vec::new();
        let mut j: usize = 0;
        while j < self.enemies.len()
            invariant
                0 <= j <= self.enemies@.len(),
                r@.len() == j,
                forall|k: int| 0 <= k < j ==> #[trigger] r@[k] == EntityId::Enemy(k as usize),
            decreases self.enemies@.len() - j,
        {
            r.push(EntityId::Enemy(j));
            j += 1;
        }
        r
    }

    pub fn is_player_dead(&self) -> (r: bool)
        ensures
            r == self@.player_dead(),
    {
        !self.player.is_alive()
    }

    /// True when no enemy is alive (also when the list is empty).
    pub fn are_all_enemies_dead(&self) -> (r: bool)
        ensures
            r == self@.all_enemies_dead(),
    {
        let mut j: usize = 0;
        while j < self.enemies.len()
            invariant
                0 <= j <= self.enemies@.len(),
                forall|k: int| 0 <= k < j ==> !is_alive_enemy(#[trigger] self@.enemies[k]),
            decreases self.enemies@.len() - j,
        {
            if self.enemies[j].is_alive() {
                proof {
                    assert(is_alive_enemy(self@.enemies[j as int]));
                }
                return false;
            }
            j += 1;
        }
        true
    }

    /// The termination predicate that callers check after every mutating call.
    pub fn is_combat_over(&self) -> (r: bool)
        ensures
            r == self@.combat_over(),
    {
        self.is_player_dead() || self.are_all_enemies_dead()
    }

    pub fn living_enemy_count(&self) -> (r: usize)
        ensures
            r == living(self@.enemies).len(),
    {
        let mut n: usize = 0;
        let mut j: usize = 0;
        while j < self.enemies.len()
            invariant
                0 <= j <= self.enemies@.len(),
                n == living(self@.enemies.take(j as int)).len(),
                n <= j,
            decreases self.enemies@.len() - j,
        {
            proof {
                reveal(Seq::filter);
                assert(self@.enemies.take(j + 1).drop_last() =~= self@.enemies.take(j as int));
            }
            if self.enemies[j].is_alive() {
                n += 1;
            }
            j += 1;
        }
        proof {
            assert(self@.enemies.take(j as int) =~= self@.enemies);
        }
        n
    }

    /// Plays the hand card at `index`. On success: pays the cost (an X
    /// cost spends all energy and hands that amount to the effects), takes
    /// the card out of the hand, records it, applies its effects in order,
    /// fires `CardPlayed`, puts the card on the exhaust or the discard pile
    /// by its flag, and sweeps the dead enemies. On failure nothing changes.
    pub fn play_card(&mut self, hand_index: usize, target: Option<EntityId>) -> (r: Result<(), CombatError>)
        requires
            old(self)@.wf(),
        ensures
            final(self)@.wf(),
            r is Err <==> play_error(old(self)@, hand_index as int, target) is Some,
            r is Err ==> r == Err::<(), CombatError>(play_error(old(self)@, hand_index as int, target)->0)
                && final(self)@ == old(self)@,
            r is Ok ==> ({
                let v = old(self)@;
                let w = final(self)@;
                let card = v.hand[hand_index as int];
                &&& w.hand.len() >= v.hand.len() - 1
                &&& w.hand.take(v.hand.len() - 1) == v.hand.remove(hand_index as int)
                &&& w.player == (PlayerView {
                    ledger: w.player.ledger,
                    energy: energy_after_play(v, card),
                    ..v.player
                })
                &&& w.current_turn == (TurnRecordView {
                    cards_played: v.current_turn.cards_played.push(card@.instance_id),
                    ..v.current_turn
                })
                &&& card@.exhaust ==> {
                    &&& w.exhaust_pile == v.exhaust_pile.push(card)
                    &&& (w.discard_pile == v.discard_pile || w.discard_pile.len() == 0)
                }
                &&& !card@.exhaust ==> {
                    &&& w.exhaust_pile == v.exhaust_pile
                    &&& (w.discard_pile == v.discard_pile.push(card) || w.discard_pile == seq![card])
                }
                &&& w.turn_history == v.turn_history
                &&& w.turn_count == v.turn_count
                &&& w.pending_upgraded_card == v.pending_upgraded_card
                &&& forall|j: int| 0 <= j < w.enemies.len() ==> is_alive_enemy(#[trigger] w.enemies[j])
                &&& draws_nothing(card) ==> w == after_play(v, hand_index as int, target)
            }),
    {
        if self.is_combat_over() {
            return Err(CombatError::CombatOver);
        }
        if hand_index >= self.hand.len() {
            return Err(CombatError::IndexOutOfBounds);
        }
        let targeting = self.hand[hand_index].targeting();
        let targets: Vec<EntityId> = match targeting {
            CardTargeting::SingleEnemy => {
                match target {
                    Some(EntityId::Enemy(id)) => {
                        if id >= self.enemies.len() || self.enemies[id].get_current_health() == 0 {
                            return Err(CombatError::InvalidTarget);
                        }
                        vec![EntityId::Enemy(id)]
                    },
                    _ => {
                        return Err(CombatError::TargetRequired);
                    },
                }
            },
            CardTargeting::AllEnemies => self.get_all_living_enemies(),
            CardTargeting::Self_ => vec![EntityId::Player],
            CardTargeting::NoTarget => Vec::new(),
        };
        let energy = self.player.get_energy();
        let energy_spent: Option<i32> = match self.hand[hand_index].get_current_cost() {
            Ok(Some(cost)) => {
                if energy < cost {
                    return Err(CombatError::NotEnoughEnergy { need: cost, have: energy });
                }
                self.player.spend_energy(cost);
                None
            },
            Ok(None) => {
                self.player.spend_energy(energy);
                Some(energy)
            },
            Err(_) => {
                return Err(CombatError::Unplayable);
            },
        };
        let ghost v = old(self)@;
        let card = self.hand.remove(hand_index);
        self.current_turn_record.cards_played.push(card.instance_id());
        let ghost before_effects = self@;
        proof {
            lemma_card_frame_refl(self@);
            assert(self@.hand =~= v.hand.remove(hand_index as int));
            assert(targets@ =~= play_targets(v, card@.targeting, target));
            assert(self@.current_turn.cards_played =~= v.current_turn.cards_played.push(card@.instance_id));
        }
        let effects = card.effects();
        let mut k: usize = 0;
        while k < effects.len()
            invariant
                0 <= k <= effects@.len(),
                effects@ == card@.effects,
                card_frame(before_effects, self@),
                self@.wf(),
                draws_nothing(card) ==> self@ == fold_actions(
                    before_effects,
                    effects@.take(k as int),
                    EntityId::Player,
                    targets@,
                    energy_spent,
                ),
            decreases effects@.len() - k,
        {
            let ghost before = self@;
            effects[k].resolve(self, EntityId::Player, targets.as_slice(), energy_spent);
            proof {
                lemma_card_frame_trans(before_effects, before, self@);
                assert(effects@.take(k + 1).drop_last() =~= effects@.take(k as int));
            }
            k += 1;
        }
        proof {
            assert(effects@.take(k as int) =~= effects@);
        }
        let event = GameEvent::CardPlayed { card: card.instance_id(), source: EntityId::Player };
        proof {
            lemma_passive_event(self@, event);
        }
        self.fire_event(event);
        let ghost before_route = self@;
        if card.exhaust() {
            self.exhaust_pile.push(card);
        } else {
            self.discard_pile.push(card);
        }
        self.remove_dead_enemies();
        proof {
            let w = self@;
            assert(w.hand.take(v.hand.len() - 1) =~= before_effects.hand);
            assert forall|j: int| 0 <= j < w.enemies.len() implies is_alive_enemy(#[trigger] w.enemies[j]) by {
                before_route.enemies.lemma_filter_pred(|e: EnemyView| is_alive_enemy(e), j);
            }
        }
        Ok(())
    }

    /// The once-per-turn hero ability: pays its energy, marks it used,
    /// exhausts the rightmost hand card, schedules that card's upgraded form
    /// for the next turn's hand and costs the player some health.
    pub fn use_hero_ability(&mut self) -> (r: Result<(), CombatError>)
        requires
            old(self)@.wf(),
        ensures
            final(self)@.wf(),
            r is Err <==> ability_error(old(self)@) is Some,
            r is Err ==> r == Err::<(), CombatError>(ability_error(old(self)@)->0)
                && final(self)@ == old(self)@,
            r is Ok ==> ({
                let v = old(self)@;
                let w = final(self)@;
                let card = v.hand.last();
                &&& w.player == (PlayerView {
                    ledger: v.player.ledger.set_health(v.player.ledger.health - HERO_ABILITY_DAMAGE),
                    energy: v.player.energy - HERO_ABILITY_COST,
                    hero_ability_used: true,
                    ..v.player
                })
                &&& w.hand == v.hand.drop_last()
                &&& w.exhaust_pile.len() == v.exhaust_pile.len() + 1
                &&& w.exhaust_pile.drop_last() == v.exhaust_pile
                &&& w.exhaust_pile.last()@ == card@
                &&& w.pending_upgraded_card is Some
                &&& w.pending_upgraded_card->0@ == card.spec_upgrade()@
                &&& w == (CombatView {
                    player: w.player,
                    hand: w.hand,
                    exhaust_pile: w.exhaust_pile,
                    pending_upgraded_card: w.pending_upgraded_card,
                    ..v
                })
            }),
    {
        if self.is_combat_over() {
            return Err(CombatError::CombatOver);
        }
        if self.player.hero_ability_used() {
            return Err(CombatError::AbilityAlreadyUsed);
        }
        let energy = self.player.get_energy();
        if energy < HERO_ABILITY_COST {
            return Err(CombatError::NotEnoughEnergy { need: HERO_ABILITY_COST, have: energy });
        }
        if self.hand.len() == 0 {
            return Err(CombatError::EmptyHand);
        }
        self.player.spend_energy(HERO_ABILITY_COST);
        self.player.use_hero_ability();
        let popped = self.hand.pop();
        match popped {
            Some(card) => {
                let mut card = card;
                let upgraded = card.take_upgrade();
                self.pending_upgraded_card = Some(upgraded);
                self.exhaust_pile.push(card);
            },
            None => {},
        }
        let health = self.player.get_current_health();
        self.store_health(EntityId::Player, health as i64 - HERO_ABILITY_DAMAGE as i64);
        Ok(())
    }

    /// Poison damages the entity, then loses one stack.
    fn apply_poison(&mut self, entity: EntityId)
        requires
            old(self)@.wf(),
        ensures
            final(self)@ == old(self)@.with_ledger(entity, poison_tick(old(self)@.ledger_of(entity))),
            final(self)@.wf(),
    {
        let poison = self.get_status(entity, StatusType::Poison);
        proof {
            let l = old(self)@.ledger_of(entity);
            lemma_with_ledger_twice(old(self)@, entity, l, l);
        }
        if poison > 0 {
            let health = self.get_health(entity);
            self.store_health(entity, health as i64 - poison as i64);
            match entity {
                EntityId::Player => {
                    self.player.reduce_status(StatusType::Poison, 1);
                    proof {
                        let l = old(self)@.ledger_of(entity);
                        let a = l.set_health(l.health - l.poison);
                        lemma_with_ledger_twice(old(self)@, entity, a, a.reduce_status(StatusType::Poison, 1));
                    }
                },
                EntityId::Enemy(id) => {
                    if id < self.enemies.len() {
                        let ghost mid = self@;
                        proof {
                            assert(self@.enemies[id as int].ledger.wf());
                        }
                        self.enemies[id].reduce_status(StatusType::Poison, 1);
                        proof {
                            let l = old(self)@.ledger_of(entity);
                            let a = l.set_health(l.health - l.poison);
                            lemma_with_ledger_twice(old(self)@, entity, a, a.reduce_status(StatusType::Poison, 1));
                            assert(self@.enemies =~= mid.with_ledger(
                                entity,
                                a.reduce_status(StatusType::Poison, 1),
                            ).enemies);
                        }
                    }
                },
            }
        }
    }

    /// Start of an enemy's turn: poison ticks, then its block is cleared
    /// unless it retains block.
    pub fn process_enemy_turn_start(&mut self, enemy_id: usize)
        requires
            old(self)@.wf(),
        ensures
            final(self)@ == old(self)@.with_ledger(
                EntityId::Enemy(enemy_id),
                enemy_turn_start(old(self)@.ledger_of(EntityId::Enemy(enemy_id))),
            ),
            final(self)@.wf(),
    {
        self.apply_poison(EntityId::Enemy(enemy_id));
        let ghost mid = self@;
        if enemy_id < self.enemies.len() {
            proof {
                assert(self@.enemies[enemy_id as int].ledger.wf());
            }
            if !self.enemies[enemy_id].has_modifier(&Modifier::RetainBlock) {
                self.enemies[enemy_id].set_block(0);
            }
            proof {
                let e = EntityId::Enemy(enemy_id);
                let p = poison_tick(old(self)@.ledger_of(e));
                lemma_with_ledger_twice(old(self)@, e, p, enemy_turn_start(old(self)@.ledger_of(e)));
                assert(self@.enemies =~= mid.with_ledger(e, enemy_turn_start(old(self)@.ledger_of(e))).enemies);
            }
        }
    }

    /// End of an enemy's turn: its debuffs decay.
    pub fn process_enemy_turn_end(&mut self, enemy_id: usize)
        requires
            old(self)@.wf(),
        ensures
            final(self)@ == old(self)@.with_ledger(
                EntityId::Enemy(enemy_id),
                old(self)@.ledger_of(EntityId::Enemy(enemy_id)).decay_debuffs(),
            ),
            final(self)@.wf(),
    {
        if enemy_id < self.enemies.len() {
            proof {
                assert(self@.enemies[enemy_id as int].ledger.wf());
            }
            self.enemies[enemy_id].decay_debuffs();
            proof {
                assert(self@.enemies =~= old(self)@.with_ledger(
                    EntityId::Enemy(enemy_id),
                    old(self)@.ledger_of(EntityId::Enemy(enemy_id)).decay_debuffs(),
                ).enemies);
            }
        }
    }

    /// Runs the start-of-turn step of every enemy slot.
    pub fn start_enemy_phase(&mut self)
        requires
            old(self)@.wf(),
        ensures
            final(self)@.wf(),
            final(self)@.enemies.len() == old(self)@.enemies.len(),
            forall|j: int| 0 <= j < old(self)@.enemies.len() ==> (#[trigger] final(self)@.enemies[j]) == (EnemyView {
                ledger: enemy_turn_start(old(self)@.enemies[j].ledger),
                ..old(self)@.enemies[j]
            }),
            final(self)@ == (CombatView { enemies: final(self)@.enemies, ..old(self)@ }),
    {
        let count = self.enemies.len();
        let mut j: usize = 0;
        while j < count
            invariant
                0 <= j <= count,
                count == old(self)@.enemies.len(),
                self@.wf(),
                self@.enemies.len() == count,
                forall|k: int| 0 <= k < j ==> (#[trigger] self@.enemies[k]) == (EnemyView {
                    ledger: enemy_turn_start(old(self)@.enemies[k].ledger),
                    ..old(self)@.enemies[k]
                }),
                forall|k: int| j <= k < count ==> (#[trigger] self@.enemies[k]) == old(self)@.enemies[k],
                self@ == (CombatView { enemies: self@.enemies, ..old(self)@ }),
            decreases count - j,
        {
            self.process_enemy_turn_start(j);
            j += 1;
        }
    }

    /// Ends the player's turn: fires `TurnEnded` (end-of-turn effects act
    /// here), then discards the hand unless the player retains it.
    pub fn end_player_turn(&mut self)
        requires
            old(self)@.wf(),
        ensures
            final(self)@.wf(),
            ({
                let m = old(self)@.after_event(GameEvent::TurnEnded { entity: EntityId::Player });
                final(self)@ == if m.player.ledger.retain_hand {
                    m
                } else {
                    CombatView { hand: Seq::empty(), discard_pile: m.discard_pile + m.hand, ..m }
                }
            }),
    {
        self.fire_event(GameEvent::TurnEnded { entity: EntityId::Player });
        if !self.player.has_modifier(&Modifier::RetainHand) {
            self.discard_hand();
        }
    }

    /// Starts a player turn: archives the previous turn record, ticks the
    /// player's poison, decays debuffs, clears block unless retained,
    /// refills energy, resets the ability, adds the pending upgraded card,
    /// draws a hand and fires `TurnStarted`.
    pub fn start_player_turn(&mut self)
        requires
            old(self)@.wf(),
        ensures
            final(self)@.wf(),
            ({
                let v = old(self)@;
                let w = final(self)@;
                let h0 = match v.pending_upgraded_card {
                    Some(c) => v.hand.push(c),
                    None => v.hand,
                };
                &&& w.turn_history == if v.current_turn.turn_number > 0 || v.current_turn.cards_played.len() > 0 {
                    v.turn_history.push(v.current_turn)
                } else {
                    v.turn_history
                }
                &&& w.current_turn == empty_record(v.turn_count)
                &&& w.player == (PlayerView {
                    ledger: player_turn_start(v.player.ledger),
                    energy: turn_start_energy(v.effects, v.player.max_energy),
                    hero_ability_used: false,
                    ..v.player
                })
                &&& w.effects == survivors(v.effects, GameEvent::TurnStarted { entity: EntityId::Player })
                &&& w.enemies == v.enemies
                &&& w.exhaust_pile == v.exhaust_pile
                &&& w.turn_count == v.turn_count
                &&& w.pending_upgraded_card is None
                &&& w.hand.len() == h0.len() + vstd::math::min(
                    HAND_SIZE as int,
                    (v.draw_pile.len() + v.discard_pile.len()) as int,
                )
                &&& w.hand.take(h0.len() as int) == h0
                &&& drawable(w).add(w.hand.skip(h0.len() as int).to_multiset()) == drawable(v)
            }),
    {
        let ghost v = old(self)@;
        let mut record = TurnRecord::new(self.turn_count);
        std::mem::swap(&mut record, &mut self.current_turn_record);
        if record.turn_number > 0 || record.cards_played.len() > 0 {
            self.turn_history.push(record);
            proof {
                assert(self@.turn_history =~= v.turn_history.push(v.current_turn));
            }
        }
        proof {
            assert(self@.player == v.player);
            assert(self@.enemies == v.enemies);
        }
        self.apply_poison(EntityId::Player);
        self.player.decay_debuffs();
        if !self.player.has_modifier(&Modifier::RetainBlock) {
            self.player.set_block(0);
        }
        self.player.refill_energy();
        self.player.reset_hero_ability();
        let ghost before_pending = self@;
        let pending = self.pending_upgraded_card.take();
        match pending {
            Some(card) => {
                self.hand.push(card);
            },
            None => {},
        }
        proof {
            assert(self@.player == before_pending.player);
            assert(self@.enemies == before_pending.enemies);
        }
        self.draw_cards(HAND_SIZE);
        proof {
            assert(self@.player == before_pending.player);
            assert(self@.enemies == before_pending.enemies);
            lemma_turn_started(self@, self@.effects);
        }
        self.fire_event(GameEvent::TurnStarted { entity: EntityId::Player });
    }

    /// Resolves an enemy's intent as that enemy, then fires `EnemyAction`.
    pub fn execute_enemy_intent(&mut self, enemy_id: usize, intent: &crate::enemy::Intent, targets: &[EntityId])
        requires
            old(self)@.wf(),
        ensures
            final(self)@.wf(),
            card_frame(old(self)@, final(self)@),
            (forall|k: int| 0 <= k < intent.spec_actions().len() ==> !(#[trigger] intent.spec_actions()[k] is DrawCards))
                ==> ({
                let f = fold_actions(old(self)@, intent.spec_actions(), EntityId::Enemy(enemy_id), targets@, None);
                final(self)@ == (CombatView { effects: unspent(f.effects), ..f })
            }),
    {
        let source = EntityId::Enemy(enemy_id);
        intent.execute(self, source, targets, None);
        let event = GameEvent::EnemyAction { enemy: source };
        let ghost before = self@;
        proof {
            lemma_passive_event(self@, event);
        }
        self.fire_event(event);
        proof {
            lemma_card_frame_refl(before);
            lemma_card_frame_trans(old(self)@, before, self@);
        }
    }

    pub fn record_enemy_intent(&mut self, enemy_id: usize, intent_description: String)
        ensures
            final(self)@ == (CombatView {
                current_turn: TurnRecordView {
                    enemy_intents: old(self)@.current_turn.enemy_intents.push((enemy_id, intent_description@)),
                    ..old(self)@.current_turn
                },
                ..old(self)@
            }),
    {
        self.current_turn_record.enemy_intents.push((enemy_id, intent_description));
        proof {
            assert(self@.current_turn.enemy_intents =~= old(self)@.current_turn.enemy_intents.push(
                (enemy_id, intent_description@),
            ));
        }
    }

    /// The enemy phase: each enemy alive at its turn, in slot order, ticks
    /// its poison and clears its block, takes the intent its behaviour
    /// table gives for the turn counter (recorded in the turn record)
    /// against the player, fires `EnemyAction` and decays its debuffs. Then
    /// the dead are swept and the turn counter advances.
    pub fn execute_all_enemy_turns(&mut self)
        requires
            old(self)@.wf(),
        ensures
            final(self)@.wf(),
            ({
                let mid = enemy_phase(old(self)@, old(self)@.enemies.len() as int);
                final(self)@ == (CombatView {
                    enemies: living(mid.enemies),
                    turn_count: vstd::math::min((old(self)@.turn_count + 1) as int, usize::MAX as int) as nat,
                    ..mid
                })
            }),
            forall|j: int| 0 <= j < final(self)@.enemies.len() ==> is_alive_enemy(#[trigger] final(self)@.enemies[j]),
            final(self)@.player == (PlayerView { ledger: final(self)@.player.ledger, ..old(self)@.player }),
            final(self)@.hand == old(self)@.hand,
            final(self)@.draw_pile == old(self)@.draw_pile,
            final(self)@.discard_pile == old(self)@.discard_pile,
            final(self)@.exhaust_pile == old(self)@.exhaust_pile,
            final(self)@.turn_history == old(self)@.turn_history,
            final(self)@.pending_upgraded_card == old(self)@.pending_upgraded_card,
    {
        let count = self.enemies.len();
        let mut enemy_id: usize = 0;
        while enemy_id < count
            invariant
                0 <= enemy_id <= count,
                count == old(self)@.enemies.len(),
                self@.enemies.len() == count,
                self@.wf(),
                self@ == enemy_phase(old(self)@, enemy_id as int),
                self@.turn_count == old(self)@.turn_count,
                self@.player == (PlayerView { ledger: self@.player.ledger, ..old(self)@.player }),
                self@.hand == old(self)@.hand,
                self@.draw_pile == old(self)@.draw_pile,
                self@.discard_pile == old(self)@.discard_pile,
                self@.exhaust_pile == old(self)@.exhaust_pile,
                self@.turn_history == old(self)@.turn_history,
                self@.pending_upgraded_card == old(self)@.pending_upgraded_card,
            decreases count - enemy_id,
        {
            let ghost p = self@;
            proof {
                assert(enemy_views(self.enemies@).len() == self.enemies@.len());
            }
            if self.enemies[enemy_id].is_alive() {
                proof {
                    assert(is_alive_enemy(p.enemies[enemy_id as int]));
                }
                self.process_enemy_turn_start(enemy_id);
                let ghost v1 = self@;
                proof {
                    let e = EntityId::Enemy(enemy_id);
                    lemma_with_ledger_twice(p, e, p.ledger_of(e), enemy_turn_start(p.ledger_of(e)));
                    assert(self@.enemies.len() == count);
                    assert(enemy_views(self.enemies@).len() == self.enemies@.len());
                }
                let intent = self.enemies[enemy_id].get_intent(self.turn_count);
                let description = String::from_str(intent.description());
                self.record_enemy_intent(enemy_id, description);
                let targets: Vec<EntityId> = vec![EntityId::Player];
                proof {
                    assert(targets@ =~= seq![EntityId::Player]);
                    assert forall|k: int| 0 <= k < intent.spec_actions().len() implies !(#[trigger] intent.spec_actions()[k] is DrawCards) by {
                    }
                }
                self.execute_enemy_intent(enemy_id, &intent, targets.as_slice());
                let ghost before_end = self@;
                self.process_enemy_turn_end(enemy_id);
                proof {
                    let e = EntityId::Enemy(enemy_id);
                    lemma_with_ledger_twice(before_end, e, before_end.ledger_of(e), before_end.ledger_of(e).decay_debuffs());
                    assert(self@ == enemy_turn(p, enemy_id as int));
                    let acts = enemy_intent_actions(v1.enemies[enemy_id as int], p.turn_count);
                    let v2 = CombatView {
                        current_turn: TurnRecordView {
                            enemy_intents: v1.current_turn.enemy_intents.push(
                                (enemy_id, enemy_intent_description(v1.enemies[enemy_id as int], p.turn_count)),
                            ),
                            ..v1.current_turn
                        },
                        ..v1
                    };
                    lemma_strikes_keep_piles(v2, acts, EntityId::Enemy(enemy_id), seq![EntityId::Player], None);
                }
            }
            enemy_id += 1;
        }
        let ghost before_sweep = self@;
        self.remove_dead_enemies();
        proof {
            let w = self@;
            assert forall|j: int| 0 <= j < w.enemies.len() implies is_alive_enemy(#[trigger] w.enemies[j]) by {
                before_sweep.enemies.lemma_filter_pred(|e: EnemyView| is_alive_enemy(e), j);
            }
        }
        let ghost swept = self@;
        if self.turn_count < usize::MAX {
            self.turn_count = self.turn_count + 1;
        }
        proof {
            assert(self@.player == swept.player);
            assert(self@.enemies == swept.enemies);
        }
    }

    /// An encounter whose draw pile is the starting deck, shuffled.
    pub fn new_with_deck(player: Player, enemies: Vec<Enemy>, starting_deck: Vec<Card>) -> (r: GameState)
        ensures
            player@.wf() && (forall|i: int| 0 <= i < enemies@.len() ==> (#[trigger] enemies@[i])@.ledger.wf())
                ==> r@.wf(),
            r@.draw_pile.to_multiset() == starting_deck@.to_multiset(),
            r@.draw_pile.len() == starting_deck@.len(),
            r@ == (CombatView { draw_pile: r@.draw_pile, ..GameState::new_spec(player, enemies) }),
    {
        let mut game = GameState::new(player, enemies);
        game.draw_pile = starting_deck;
        game.shuffle_draw_pile();
        game
    }

    /// As `new_with_deck`, with every shuffle drawn from a generator seeded
    /// with `seed`.
    pub fn new_with_deck_seeded(player: Player, enemies: Vec<Enemy>, starting_deck: Vec<Card>, seed: u64) -> (r: GameState)
        ensures
            player@.wf() && (forall|i: int| 0 <= i < enemies@.len() ==> (#[trigger] enemies@[i])@.ledger.wf())
                ==> r@.wf(),
            r@.draw_pile.to_multiset() == starting_deck@.to_multiset(),
            r@.draw_pile.len() == starting_deck@.len(),
            r@ == (CombatView { draw_pile: r@.draw_pile, ..GameState::new_spec(player, enemies) }),
    {
        let mut game = GameState::new(player, enemies);
        game.set_shuffle_seed(seed);
        game.draw_pile = starting_deck;
        game.shuffle_draw_pile();
        game
    }

    /// The model of `GameState::new(player, enemies)`.
    pub open spec fn new_spec(player: Player, enemies: Vec<Enemy>) -> CombatView {
        CombatView {
            player: player@,
            enemies: enemy_views(enemies@),
            effects: Seq::empty(),
            draw_pile: Seq::empty(),
            hand: Seq::empty(),
            discard_pile: Seq::empty(),
            exhaust_pile: Seq::empty(),
            turn_history: Seq::empty(),
            current_turn: empty_record(0),
            turn_count: 0,
            pending_upgraded_card: None,
        }
    }

    pub fn draw_pile(&self) -> (r: &[Card])
        ensures
            r@ == self@.draw_pile,
    {
        self.draw_pile.as_slice()
    }

    pub fn hand(&self) -> (r: &[Card])
        ensures
            r@ == self@.hand,
    {
        self.hand.as_slice()
    }

    pub fn discard_pile(&self) -> (r: &[Card])
        ensures
            r@ == self@.discard_pile,
    {
        self.discard_pile.as_slice()
    }

    pub fn exhaust_pile(&self) -> (r: &[Card])
        ensures
            r@ == self@.exhaust_pile,
    {
        self.exhaust_pile.as_slice()
    }

    pub fn turn_history(&self) -> (r: &[TurnRecord])
        ensures
            r@.map_values(|t: TurnRecord| t@) == self@.turn_history,
    {
        self.turn_history.as_slice()
    }

    pub fn current_turn_record(&self) -> (r: &TurnRecord)
        ensures
            r@ == self@.current_turn,
    {
        &self.current_turn_record
    }

    pub fn cards_played_this_turn(&self) -> (r: usize)
        ensures
            r == self@.current_turn.cards_played.len(),
    {
        self.current_turn_record.cards_played.len()
    }

    pub fn is_first_card_this_turn(&self) -> (r: bool)
        ensures
            r == (self@.current_turn.cards_played.len() == 0),
    {
        self.current_turn_record.cards_played.len() == 0
    }

    pub fn get_turn_count(&self) -> (r: usize)
        ensures
            r == self@.turn_count,
    {
        self.turn_count
    }

    /// The card waiting to join the hand at the next turn start.
    pub fn pending_upgraded_card(&self) -> (r: &Option<Card>)
        ensures
            *r == self@.pending_upgraded_card,
    {
        &self.pending_upgraded_card
    }

    /// The registered persistent effects with their owners, in order.
    pub fn effects(&self) -> (r: &[(EntityId, Effect)])
        ensures
            r@ == self@.effects,
    {
        self.effects.as_slice()
    }

    /// Index of the first hand card that satisfies `predicate`.
    pub fn find_in_hand<F: Fn(&Card) -> bool>(&self, predicate: F) -> (r: Option<usize>)
        requires
            forall|c: &Card| #[trigger] predicate.requires((c,)),
        ensures
            match r {
                Some(i) => i < self@.hand.len() && predicate.ensures((&self@.hand[i as int],), true)
                    && forall|j: int| 0 <= j < i ==> predicate.ensures((&self@.hand[j],), false),
                None => forall|j: int| 0 <= j < self@.hand.len() ==> predicate.ensures((&self@.hand[j],), false),
            },
    {
        let mut i: usize = 0;
        while i < self.hand.len()
            invariant
                0 <= i <= self@.hand.len(),
                forall|c: &Card| #[trigger] predicate.requires((c,)),
                forall|j: int| 0 <= j < i ==> predicate.ensures((&self@.hand[j],), false),
            decreases self@.hand.len() - i,
        {
            if predicate(&self.hand[i]) {
                return Some(i);
            }
            i += 1;
        }
        None
    }

    fn get_status(&self, entity: EntityId, status_type: StatusType) -> (r: i32)
        requires
            self@.wf(),
        ensures
            r == self@.stacks_of(entity, status_type),
    {
        match entity {
            EntityId::Player => self.player.get_status(&status_type),
            EntityId::Enemy(id) => {
                if id < self.enemies.len() {
                    self.enemies[id].get_status(&status_type)
                } else {
                    0
                }
            },
        }
    }

    /// Adds stacks of a status to an entity; a missing enemy slot is a no-op.
    pub fn add_status(&mut self, entity: EntityId, status_type: StatusType, stacks: i32)
        requires
            old(self)@.wf(),
        ensures
            final(self)@ == old(self)@.add_status_to(entity, status_type, stacks as int),
            final(self)@.wf(),
    {
        match entity {
            EntityId::Player => {
                self.player.add_status(status_type, stacks);
            },
            EntityId::Enemy(id) => {
                if id < self.enemies.len() {
                    self.enemies[id].add_status(status_type, stacks);
                    proof {
                        assert(self@.enemies =~= old(self)@.add_status_to(entity, status_type, stacks as int).enemies);
                    }
                }
            },
        }
    }
}

} // verus!
