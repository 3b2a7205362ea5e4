use vstd::prelude::*;
use crate::game_state::{EntityId, GameEvent, GameState, effect_after};
use crate::ledger::StatusType;
use crate::text::framed_number;

verus! {

/// At the end of its owner's turn, the owner gains Strength. Never removed.
#[derive(Clone, Copy, Debug, PartialEq, Eq, Structural)]
pub struct Ritual {
    pub amount: i32,
}

/// At the start of the owner's next turn, the player gains energy; removed
/// once it has fired.
#[derive(Clone, Copy, Debug, PartialEq, Eq, Structural)]
pub struct EnergyNextTurnEffect {
    pub amount: i32,
    activated: bool,
}

impl EnergyNextTurnEffect {
    /// A new, unfired effect.
    pub closed spec fn fresh(amount: i32) -> EnergyNextTurnEffect {
        EnergyNextTurnEffect { amount, activated: false }
    }

    pub fn new(amount: i32) -> (r: EnergyNextTurnEffect)
        ensures
            r == EnergyNextTurnEffect::fresh(amount),
            r.spec_amount() == amount,
            !r.spec_activated(),
    {
        EnergyNextTurnEffect { amount, activated: false }
    }

    pub closed spec fn spec_amount(&self) -> i32 {
        self.amount
    }

    pub closed spec fn spec_activated(&self) -> bool {
        self.activated
    }

    /// The same effect, marked as having fired.
    pub closed spec fn spec_fired(&self) -> EnergyNextTurnEffect {
        EnergyNextTurnEffect { activated: true, ..*self }
    }

    /// A fired effect is spent, and keeps its amount.
    pub proof fn lemma_fired_is_spent(e: EnergyNextTurnEffect)
        ensures
            e.spec_fired().spec_activated(),
            e.spec_fired().spec_amount() == e.spec_amount(),
            !EnergyNextTurnEffect::fresh(e.spec_amount()).spec_activated(),
    {
    }

    pub fn activated(&self) -> (r: bool)
        ensures
            r == self.spec_activated(),
    {
        self.activated
    }

    pub(crate) fn fire(&mut self)
        ensures
            *final(self) == old(self).spec_fired(),
            final(self).spec_activated(),
            final(self).spec_amount() == old(self).spec_amount(),
    {
        self.activated = true;
    }
}

/// What the interface shows of a persistent effect.
pub struct EffectUIState {
    pub name: String,
    pub description: String,
    pub counters: Vec<(String, i32)>,
}

/// A persistent effect that reacts to game events.
#[derive(Clone, Copy, Debug, PartialEq, Eq, Structural)]
pub enum Effect {
    Ritual(Ritual),
    EnergyNextTurn(EnergyNextTurnEffect),
}

impl Effect {
    /// Whether the effect leaves the registry at the next dispatch.
    pub open spec fn spec_should_remove(&self) -> bool {
        match *self {
            Effect::Ritual(_) => false,
            Effect::EnergyNextTurn(e) => e.spec_activated(),
        }
    }

    pub open spec fn spec_ui_name(&self) -> Seq<char> {
        match *self {
            Effect::Ritual(_) => "Ritual"@,
            Effect::EnergyNextTurn(_) => "Energy Next Turn"@,
        }
    }

    pub open spec fn spec_ui_description(&self) -> Seq<char> {
        match *self {
            Effect::Ritual(r) => "At end of turn gain "@ + crate::text::decimal(r.amount as int)
                + " Strength"@,
            Effect::EnergyNextTurn(e) => "At the start of next turn, gain "@
                + crate::text::decimal(e.spec_amount() as int) + " Energy."@,
        }
    }

    pub fn should_remove(&self) -> (r: bool)
        ensures
            r == self.spec_should_remove(),
    {
        match self {
            Effect::Ritual(_) => false,
            Effect::EnergyNextTurn(e) => e.activated(),
        }
    }

    /// Reacts to an event on behalf of `owner`. A handler only acts on events
    /// about its own owner.
    pub fn on_event(&mut self, event: &GameEvent, owner: EntityId, game_state: &mut GameState)
        requires
            old(game_state)@.wf(),
        ensures
            final(game_state)@ == old(game_state)@.effect_step(owner, *old(self), *event),
            *final(self) == effect_after(owner, *old(self), *event),
            final(game_state)@.wf(),
    {
        match self {
            Effect::Ritual(r) => {
                if let GameEvent::TurnEnded { entity } = event {
                    if *entity == owner {
                        game_state.add_status(owner, StatusType::Strength, r.amount);
                    }
                }
            },
            Effect::EnergyNextTurn(e) => {
                if let GameEvent::TurnStarted { entity } = event {
                    if *entity == owner && owner == EntityId::Player {
                        game_state.player_mut().gain_energy(e.amount);
                        e.fire();
                    }
                }
            },
        }
    }

    pub fn ui_state(&self) -> (r: EffectUIState)
        ensures
            r.name@ == self.spec_ui_name(),
            r.description@ == self.spec_ui_description(),
            r.counters@.len() == 0,
    {
        match self {
            Effect::Ritual(r) => EffectUIState {
                name: String::from_str("Ritual"),
                description: framed_number("At end of turn gain ", r.amount as i128, " Strength"),
                counters: Vec::new(),
            },
            Effect::EnergyNextTurn(e) => EffectUIState {
                name: String::from_str("Energy Next Turn"),
                description: framed_number(
                    "At the start of next turn, gain ",
                    e.amount as i128,
                    " Energy.",
                ),
                counters: Vec::new(),
            },
        }
    }
}

} // verus!
