use vstd::prelude::*;
use crate::ledger::{BaseState, LedgerView, fresh_ledger, Modifier, State, Status, StatusType, cap, clamp};

verus! {

/// The hero's character class.
#[derive(Clone, Copy, Debug, PartialEq, Eq, Structural)]
pub enum STSClass {
    Ironclad,
}

/// Energy a player starts each turn with.
pub const STARTING_ENERGY: i32 = 3;

/// Mathematical model of a player.
pub ghost struct PlayerView {
    pub class: STSClass,
    pub ledger: LedgerView,
    pub max_energy: int,
    pub energy: int,
    pub hero_ability_used: bool,
}

impl PlayerView {
    pub open spec fn wf(self) -> bool {
        &&& self.ledger.wf()
        &&& 0 <= self.energy <= cap()
        &&& 0 <= self.max_energy <= cap()
    }
}

/// The hero: a ledger plus energy and the once-per-turn ability flag.
#[derive(Clone, Debug)]
pub struct Player {
    class: STSClass,
    base_state: BaseState,
    max_energy: i32,
    energy: i32,
    hero_ability_used_this_turn: bool,
}

impl View for Player {
    type V = PlayerView;

    closed spec fn view(&self) -> PlayerView {
        PlayerView {
            class: self.class,
            ledger: self.base_state@,
            max_energy: self.max_energy as int,
            energy: self.energy as int,
            hero_ability_used: self.hero_ability_used_this_turn,
        }
    }
}

impl Player {
    pub fn new(class: STSClass, name: String, max_health: i32) -> (r: Player)
        requires
            max_health >= 0,
        ensures
            r@.class == class,
            r@.ledger == fresh_ledger(name@, max_health as int),
            r@.max_energy == STARTING_ENERGY,
            r@.energy == STARTING_ENERGY,
            !r@.hero_ability_used,
            r@.wf(),
    {
        Player {
            class,
            base_state: BaseState::new(name, max_health),
            max_energy: STARTING_ENERGY,
            energy: STARTING_ENERGY,
            hero_ability_used_this_turn: false,
        }
    }

    pub fn get_energy(&self) -> (r: i32)
        ensures
            r == self@.energy,
    {
        self.energy
    }

    pub fn get_max_energy(&self) -> (r: i32)
        ensures
            r == self@.max_energy,
    {
        self.max_energy
    }

    /// Spends energy; energy never drops below zero.
    pub fn spend_energy(&mut self, amount: i32)
        requires
            old(self)@.wf(),
        ensures
            final(self)@ == (PlayerView {
                energy: clamp(old(self)@.energy - amount, 0, cap()),
                ..old(self)@
            }),
            final(self)@.wf(),
    {
        let e = self.energy as i64 - amount as i64;
        self.energy = if e < 0 {
            0
        } else if e > i32::MAX as i64 {
            i32::MAX
        } else {
            e as i32
        };
    }

    /// Gains energy, saturating at the top of the `i32` range.
    pub fn gain_energy(&mut self, amount: i32)
        requires
            old(self)@.wf(),
        ensures
            final(self)@ == (PlayerView {
                energy: clamp(old(self)@.energy + amount, 0, cap()),
                ..old(self)@
            }),
            final(self)@.wf(),
    {
        let e = self.energy as i64 + amount as i64;
        self.energy = if e < 0 {
            0
        } else if e > i32::MAX as i64 {
            i32::MAX
        } else {
            e as i32
        };
    }

    pub fn refill_energy(&mut self)
        requires
            old(self)@.wf(),
        ensures
            final(self)@ == (PlayerView { energy: old(self)@.max_energy, ..old(self)@ }),
            final(self)@.wf(),
    {
        self.energy = self.max_energy;
    }

    pub fn hero_ability_used(&self) -> (r: bool)
        ensures
            r == self@.hero_ability_used,
    {
        self.hero_ability_used_this_turn
    }

    pub fn use_hero_ability(&mut self)
        ensures
            final(self)@ == (PlayerView { hero_ability_used: true, ..old(self)@ }),
    {
        self.hero_ability_used_this_turn = true;
    }

    pub fn reset_hero_ability(&mut self)
        ensures
            final(self)@ == (PlayerView { hero_ability_used: false, ..old(self)@ }),
    {
        self.hero_ability_used_this_turn = false;
    }

    pub fn class(&self) -> (r: STSClass)
        ensures
            r == self@.class,
    {
        self.class
    }

    pub fn base_state(&self) -> (r: &BaseState)
        ensures
            r@ == self@.ledger,
    {
        &self.base_state
    }

    pub fn base_state_mut(&mut self) -> (r: &mut BaseState)
        ensures
            r@ == old(self)@.ledger,
            final(self)@ == (PlayerView { ledger: final(r)@, ..old(self)@ }),
    {
        &mut self.base_state
    }
}

impl State for Player {
    open spec fn ledger(&self) -> LedgerView {
        self@.ledger
    }

    fn get_name(&self) -> (r: &str) {
        self.base_state.get_name()
    }

    fn get_max_health(&self) -> (r: i32) {
        self.base_state.get_max_health()
    }

    fn get_current_health(&self) -> (r: i32) {
        self.base_state.get_current_health()
    }

    fn get_block(&self) -> (r: i32) {
        self.base_state.get_block()
    }

    fn is_alive(&self) -> (r: bool) {
        self.base_state.is_alive()
    }

    fn get_status(&self, status_type: &StatusType) -> (r: i32) {
        self.base_state.get_status(status_type)
    }

    fn get_all_statuses(&self) -> (r: Vec<Status>) {
        self.base_state.get_all_statuses()
    }

    fn add_status(&mut self, status_type: StatusType, stacks: i32)
        ensures
            final(self)@ == (PlayerView { ledger: final(self)@.ledger, ..old(self)@ }),
    {
        self.base_state.add_status(status_type, stacks)
    }

    fn reduce_status(&mut self, status_type: StatusType, amount: i32)
        ensures
            final(self)@ == (PlayerView { ledger: final(self)@.ledger, ..old(self)@ }),
    {
        self.base_state.reduce_status(status_type, amount)
    }

    fn set_block(&mut self, amount: i32)
        ensures
            final(self)@ == (PlayerView { ledger: final(self)@.ledger, ..old(self)@ }),
    {
        self.base_state.set_block(amount)
    }

    fn set_health(&mut self, amount: i32)
        ensures
            final(self)@ == (PlayerView { ledger: final(self)@.ledger, ..old(self)@ }),
    {
        self.base_state.set_health(amount)
    }

    fn has_modifier(&self, modifier: &Modifier) -> (r: bool) {
        self.base_state.has_modifier(modifier)
    }

    fn add_modifier(&mut self, modifier: Modifier)
        ensures
            final(self)@ == (PlayerView { ledger: final(self)@.ledger, ..old(self)@ }),
    {
        self.base_state.add_modifier(modifier)
    }

    fn remove_modifier(&mut self, modifier: &Modifier)
        ensures
            final(self)@ == (PlayerView { ledger: final(self)@.ledger, ..old(self)@ }),
    {
        self.base_state.remove_modifier(modifier)
    }

    fn remove_expired_statuses(&mut self)
        ensures
            final(self)@ == old(self)@,
    {
        self.base_state.remove_expired_statuses()
    }

    fn decay_debuffs(&mut self)
        ensures
            final(self)@ == (PlayerView { ledger: final(self)@.ledger, ..old(self)@ }),
    {
        self.base_state.decay_debuffs()
    }
}

} // verus!
