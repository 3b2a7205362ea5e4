use vstd::prelude::*;
use crate::actions::{Action, BlockEffect, DamageEffect};
use crate::ledger::{BaseState, LedgerView, Modifier, State, Status, StatusType, fresh_ledger};

verus! {

/// An enemy's declared plan for one turn.
pub struct Intent {
    actions: Vec<Action>,
    description: String,
}

impl Intent {
    pub closed spec fn spec_actions(&self) -> Seq<Action> {
        self.actions@
    }

    pub closed spec fn spec_description(&self) -> Seq<char> {
        self.description@
    }

    pub fn new(actions: Vec<Action>, description: String) -> (r: Intent)
        ensures
            r.spec_actions() == actions@,
            r.spec_description() == description@,
    {
        Intent { actions, description }
    }

    pub fn description(&self) -> (r: &str)
        ensures
            r@ == self.spec_description(),
    {
        self.description.as_str()
    }

    pub fn actions(&self) -> (r: &Vec<Action>)
        ensures
            r@ == self.spec_actions(),
    {
        &self.actions
    }
}

/// The Dragonling's behaviour table: a four-turn cycle of attack 8, block 6,
/// attack 6, attack 6.
pub open spec fn dragonling_actions(turn: nat) -> Seq<Action> {
    if turn % 4 == 0 {
        seq![Action::Damage(DamageEffect { amount: 8 })]
    } else if turn % 4 == 1 {
        seq![Action::Block(BlockEffect { amount: 6 })]
    } else {
        seq![Action::Damage(DamageEffect { amount: 6 })]
    }
}

pub open spec fn dragonling_description(turn: nat) -> Seq<char> {
    if turn % 4 == 0 {
        "Attack for 8"@
    } else if turn % 4 == 1 {
        "Gain 6 Block"@
    } else {
        "Attack for 6"@
    }
}

/// Model of an enemy: its identifier and its ledger.
pub ghost struct EnemyView {
    pub id: Seq<char>,
    pub ledger: LedgerView,
}

/// Ledger plus identifier shared by every enemy.
#[derive(Clone, Debug)]
pub struct BaseEnemy {
    base_state: BaseState,
    id: String,
}

impl View for BaseEnemy {
    type V = EnemyView;

    closed spec fn view(&self) -> EnemyView {
        EnemyView { id: self.id@, ledger: self.base_state@ }
    }
}

impl BaseEnemy {
    pub fn new(id: String, name: String, max_health: i32) -> (r: BaseEnemy)
        requires
            max_health >= 0,
        ensures
            r@ == (EnemyView { id: id@, ledger: fresh_ledger(name@, max_health as int) }),
            r@.ledger.wf(),
    {
        BaseEnemy { base_state: BaseState::new(name, max_health), id }
    }

    pub fn id(&self) -> (r: &str)
        ensures
            r@ == self@.id,
    {
        self.id.as_str()
    }
}

/// A small dragon that attacks, blocks, then attacks twice.
#[derive(Clone, Debug)]
pub struct Dragonling {
    base: BaseEnemy,
}

impl View for Dragonling {
    type V = EnemyView;

    closed spec fn view(&self) -> EnemyView {
        self.base@
    }
}

impl Dragonling {
    /// A Dragonling with the given display name and maximum health, as its
    /// definition record gives them.
    pub fn new(name: String, max_health: i32) -> (r: Dragonling)
        requires
            max_health >= 0,
        ensures
            r@ == (EnemyView { id: "dragonling"@, ledger: fresh_ledger(name@, max_health as int) }),
            r@.ledger.wf(),
    {
        Dragonling { base: BaseEnemy::new(String::from_str("dragonling"), name, max_health) }
    }

    pub fn get_intent(&self, turn_count: usize) -> (r: Intent)
        ensures
            r.spec_actions() == dragonling_actions(turn_count as nat),
            r.spec_description() == dragonling_description(turn_count as nat),
    {
        let phase = turn_count % 4;
        let mut actions: Vec<Action> = Vec::new();
        if phase == 0 {
            actions.push(Action::Damage(DamageEffect { amount: 8 }));
            proof {
                assert(actions@ =~= dragonling_actions(turn_count as nat));
            }
            Intent::new(actions, String::from_str("Attack for 8"))
        } else if phase == 1 {
            actions.push(Action::Block(BlockEffect { amount: 6 }));
            proof {
                assert(actions@ =~= dragonling_actions(turn_count as nat));
            }
            Intent::new(actions, String::from_str("Gain 6 Block"))
        } else {
            actions.push(Action::Damage(DamageEffect { amount: 6 }));
            proof {
                assert(actions@ =~= dragonling_actions(turn_count as nat));
            }
            Intent::new(actions, String::from_str("Attack for 6"))
        }
    }
}

/// An enemy in an encounter; each variant has its own behaviour table.
#[derive(Clone, Debug)]
pub enum Enemy {
    Dragonling(Dragonling),
}

impl View for Enemy {
    type V = EnemyView;

    open spec fn view(&self) -> EnemyView {
        match self {
            Enemy::Dragonling(d) => d@,
        }
    }
}

/// The actions an enemy takes on the given turn. Every enemy variant of
/// this library follows the Dragonling's table.
pub open spec fn enemy_intent_actions(e: EnemyView, turn: nat) -> Seq<Action> {
    dragonling_actions(turn)
}

pub open spec fn enemy_intent_description(e: EnemyView, turn: nat) -> Seq<char> {
    dragonling_description(turn)
}

impl Enemy {
    /// A Dragonling as an encounter enemy, with the Dragonling's model.
    pub fn dragonling(d: Dragonling) -> (r: Enemy)
        ensures
            r@ == d@,
    {
        Enemy::Dragonling(d)
    }

    pub fn get_intent(&self, turn_count: usize) -> (r: Intent)
        ensures
            r.spec_actions() == enemy_intent_actions(self@, turn_count as nat),
            r.spec_description() == enemy_intent_description(self@, turn_count as nat),
    {
        match self {
            Enemy::Dragonling(d) => d.get_intent(turn_count),
        }
    }

    pub fn id(&self) -> (r: &str)
        ensures
            r@ == self@.id,
    {
        match self {
            Enemy::Dragonling(d) => d.base.id(),
        }
    }
}

impl State for BaseEnemy {
    open spec fn ledger(&self) -> LedgerView {
        self@.ledger
    }

    fn get_name(&self) -> (r: &str)
    {
        self.base_state.get_name()
    }

    fn get_max_health(&self) -> (r: i32)
    {
        self.base_state.get_max_health()
    }

    fn get_current_health(&self) -> (r: i32)
    {
        self.base_state.get_current_health()
    }

    fn get_block(&self) -> (r: i32)
    {
        self.base_state.get_block()
    }

    fn is_alive(&self) -> (r: bool)
    {
        self.base_state.is_alive()
    }

    fn get_status(&self, status_type: &StatusType) -> (r: i32)
    {
        self.base_state.get_status(status_type)
    }

    fn get_all_statuses(&self) -> (r: Vec<Status>)
    {
        self.base_state.get_all_statuses()
    }

    fn add_status(&mut self, status_type: StatusType, stacks: i32)
        ensures
            final(self)@ == (EnemyView { ledger: final(self)@.ledger, ..old(self)@ }),
    {
        self.base_state.add_status(status_type, stacks)
    }

    fn reduce_status(&mut self, status_type: StatusType, amount: i32)
        ensures
            final(self)@ == (EnemyView { ledger: final(self)@.ledger, ..old(self)@ }),
    {
        self.base_state.reduce_status(status_type, amount)
    }

    fn set_block(&mut self, amount: i32)
        ensures
            final(self)@ == (EnemyView { ledger: final(self)@.ledger, ..old(self)@ }),
    {
        self.base_state.set_block(amount)
    }

    fn set_health(&mut self, amount: i32)
        ensures
            final(self)@ == (EnemyView { ledger: final(self)@.ledger, ..old(self)@ }),
    {
        self.base_state.set_health(amount)
    }

    fn has_modifier(&self, modifier: &Modifier) -> (r: bool)
    {
        self.base_state.has_modifier(modifier)
    }

    fn add_modifier(&mut self, modifier: Modifier)
        ensures
            final(self)@ == (EnemyView { ledger: final(self)@.ledger, ..old(self)@ }),
    {
        self.base_state.add_modifier(modifier)
    }

    fn remove_modifier(&mut self, modifier: &Modifier)
        ensures
            final(self)@ == (EnemyView { ledger: final(self)@.ledger, ..old(self)@ }),
    {
        self.base_state.remove_modifier(modifier)
    }

    fn remove_expired_statuses(&mut self)
        ensures
            final(self)@ == old(self)@,
    {
        self.base_state.remove_expired_statuses()
    }

    fn decay_debuffs(&mut self)
        ensures
            final(self)@ == (EnemyView { ledger: final(self)@.ledger, ..old(self)@ }),
    {
        self.base_state.decay_debuffs()
    }
}

impl State for Dragonling {
    open spec fn ledger(&self) -> LedgerView {
        self@.ledger
    }

    fn get_name(&self) -> (r: &str)
    {
        self.base.get_name()
    }

    fn get_max_health(&self) -> (r: i32)
    {
        self.base.get_max_health()
    }

    fn get_current_health(&self) -> (r: i32)
    {
        self.base.get_current_health()
    }

    fn get_block(&self) -> (r: i32)
    {
        self.base.get_block()
    }

    fn is_alive(&self) -> (r: bool)
    {
        self.base.is_alive()
    }

    fn get_status(&self, status_type: &StatusType) -> (r: i32)
    {
        self.base.get_status(status_type)
    }

    fn get_all_statuses(&self) -> (r: Vec<Status>)
    {
        self.base.get_all_statuses()
    }

    fn add_status(&mut self, status_type: StatusType, stacks: i32)
        ensures
            final(self)@ == (EnemyView { ledger: final(self)@.ledger, ..old(self)@ }),
    {
        self.base.add_status(status_type, stacks)
    }

    fn reduce_status(&mut self, status_type: StatusType, amount: i32)
        ensures
            final(self)@ == (EnemyView { ledger: final(self)@.ledger, ..old(self)@ }),
    {
        self.base.reduce_status(status_type, amount)
    }

    fn set_block(&mut self, amount: i32)
        ensures
            final(self)@ == (EnemyView { ledger: final(self)@.ledger, ..old(self)@ }),
    {
        self.base.set_block(amount)
    }

    fn set_health(&mut self, amount: i32)
        ensures
            final(self)@ == (EnemyView { ledger: final(self)@.ledger, ..old(self)@ }),
    {
        self.base.set_health(amount)
    }

    fn has_modifier(&self, modifier: &Modifier) -> (r: bool)
    {
        self.base.has_modifier(modifier)
    }

    fn add_modifier(&mut self, modifier: Modifier)
        ensures
            final(self)@ == (EnemyView { ledger: final(self)@.ledger, ..old(self)@ }),
    {
        self.base.add_modifier(modifier)
    }

    fn remove_modifier(&mut self, modifier: &Modifier)
        ensures
            final(self)@ == (EnemyView { ledger: final(self)@.ledger, ..old(self)@ }),
    {
        self.base.remove_modifier(modifier)
    }

    fn remove_expired_statuses(&mut self)
        ensures
            final(self)@ == old(self)@,
    {
        self.base.remove_expired_statuses()
    }

    fn decay_debuffs(&mut self)
        ensures
            final(self)@ == (EnemyView { ledger: final(self)@.ledger, ..old(self)@ }),
    {
        self.base.decay_debuffs()
    }
}

impl State for Enemy {
    open spec fn ledger(&self) -> LedgerView {
        self@.ledger
    }

    fn get_name(&self) -> (r: &str)
    {
        match self {
            Enemy::Dragonling(d) => d.get_name(),
        }
    }

    fn get_max_health(&self) -> (r: i32)
    {
        match self {
            Enemy::Dragonling(d) => d.get_max_health(),
        }
    }

    fn get_current_health(&self) -> (r: i32)
    {
        match self {
            Enemy::Dragonling(d) => d.get_current_health(),
        }
    }

    fn get_block(&self) -> (r: i32)
    {
        match self {
            Enemy::Dragonling(d) => d.get_block(),
        }
    }

    fn is_alive(&self) -> (r: bool)
    {
        match self {
            Enemy::Dragonling(d) => d.is_alive(),
        }
    }

    fn get_status(&self, status_type: &StatusType) -> (r: i32)
    {
        match self {
            Enemy::Dragonling(d) => d.get_status(status_type),
        }
    }

    fn get_all_statuses(&self) -> (r: Vec<Status>)
    {
        match self {
            Enemy::Dragonling(d) => d.get_all_statuses(),
        }
    }

    fn add_status(&mut self, status_type: StatusType, stacks: i32)
        ensures
            final(self)@ == (EnemyView { ledger: final(self)@.ledger, ..old(self)@ }),
    {
        match self {
            Enemy::Dragonling(d) => d.add_status(status_type, stacks),
        }
    }

    fn reduce_status(&mut self, status_type: StatusType, amount: i32)
        ensures
            final(self)@ == (EnemyView { ledger: final(self)@.ledger, ..old(self)@ }),
    {
        match self {
            Enemy::Dragonling(d) => d.reduce_status(status_type, amount),
        }
    }

    fn set_block(&mut self, amount: i32)
        ensures
            final(self)@ == (EnemyView { ledger: final(self)@.ledger, ..old(self)@ }),
    {
        match self {
            Enemy::Dragonling(d) => d.set_block(amount),
        }
    }

    fn set_health(&mut self, amount: i32)
        ensures
            final(self)@ == (EnemyView { ledger: final(self)@.ledger, ..old(self)@ }),
    {
        match self {
            Enemy::Dragonling(d) => d.set_health(amount),
        }
    }

    fn has_modifier(&self, modifier: &Modifier) -> (r: bool)
    {
        match self {
            Enemy::Dragonling(d) => d.has_modifier(modifier),
        }
    }

    fn add_modifier(&mut self, modifier: Modifier)
        ensures
            final(self)@ == (EnemyView { ledger: final(self)@.ledger, ..old(self)@ }),
    {
        match self {
            Enemy::Dragonling(d) => d.add_modifier(modifier),
        }
    }

    fn remove_modifier(&mut self, modifier: &Modifier)
        ensures
            final(self)@ == (EnemyView { ledger: final(self)@.ledger, ..old(self)@ }),
    {
        match self {
            Enemy::Dragonling(d) => d.remove_modifier(modifier),
        }
    }

    fn remove_expired_statuses(&mut self)
        ensures
            final(self)@ == old(self)@,
    {
        match self {
            Enemy::Dragonling(d) => d.remove_expired_statuses(),
        }
    }

    fn decay_debuffs(&mut self)
        ensures
            final(self)@ == (EnemyView { ledger: final(self)@.ledger, ..old(self)@ }),
    {
        match self {
            Enemy::Dragonling(d) => d.decay_debuffs(),
        }
    }
}

} // verus!
