use vstd::prelude::*;
use crate::actions::Action;
use crate::ledger::{cap, clamp};

verus! {

#[derive(Clone, Copy, Debug, PartialEq, Eq, Structural)]
pub enum CardType {
    Attack,
    Skill,
    Power,
}

#[derive(Clone, Copy, Debug, PartialEq, Eq, Structural)]
pub enum CardTargeting {
    SingleEnemy,
    AllEnemies,
    Self_,
    NoTarget,
}

#[derive(Clone, Copy, Debug, PartialEq, Eq, Structural)]
pub enum Cost {
    Fixed(i32),
    /// All remaining energy, spent when the card is played.
    X,
    Free,
    Unplayable,
}

/// What playing a card costs, as `get_current_cost` reports it: `Ok(Some(n))`
/// for a definite cost, `Ok(None)` for an X cost, `Err` when unplayable.
pub open spec fn current_cost(base_cost: Cost, cost_reduction: int) -> Option<Option<int>> {
    match base_cost {
        Cost::Fixed(base) => Some(Some(clamp(base - cost_reduction, 0, cap()))),
        Cost::X => Some(None),
        Cost::Free => Some(Some(0)),
        Cost::Unplayable => None,
    }
}

/// Model of a card: everything but the stored upgraded form.
pub ghost struct CardView {
    pub instance_id: u32,
    pub id: Seq<char>,
    pub name: Seq<char>,
    pub base_cost: Cost,
    pub cost_reduction: int,
    pub card_type: CardType,
    pub targeting: CardTargeting,
    pub effects: Seq<Action>,
    pub description: Seq<char>,
    pub upgraded: bool,
    pub exhaust: bool,
}

/// One physical copy of a card. `upgrade` holds the card that an upgrade
/// produces; it is `None` on a card that is already upgraded.
#[derive(Debug)]
pub struct Card {
    instance_id: u32,
    id: String,
    name: String,
    base_cost: Cost,
    cost_reduction: i32,
    card_type: CardType,
    targeting: CardTargeting,
    effects: Vec<Action>,
    description: String,
    upgraded: bool,
    upgrade: Option<Box<Card>>,
    exhaust: bool,
}

impl View for Card {
    type V = CardView;

    open spec fn view(&self) -> CardView {
        CardView {
            instance_id: self.spec_instance_id(),
            id: self.spec_id(),
            name: self.spec_name(),
            base_cost: self.spec_base_cost(),
            cost_reduction: self.spec_cost_reduction(),
            card_type: self.spec_card_type(),
            targeting: self.spec_targeting(),
            effects: self.spec_effects(),
            description: self.spec_description(),
            upgraded: self.spec_upgraded(),
            exhaust: self.spec_exhaust(),
        }
    }
}

impl Card {
    pub closed spec fn spec_instance_id(&self) -> u32 {
        self.instance_id
    }

    pub closed spec fn spec_id(&self) -> Seq<char> {
        self.id@
    }

    pub closed spec fn spec_name(&self) -> Seq<char> {
        self.name@
    }

    pub closed spec fn spec_base_cost(&self) -> Cost {
        self.base_cost
    }

    pub closed spec fn spec_cost_reduction(&self) -> int {
        self.cost_reduction as int
    }

    pub closed spec fn spec_card_type(&self) -> CardType {
        self.card_type
    }

    pub closed spec fn spec_targeting(&self) -> CardTargeting {
        self.targeting
    }

    pub closed spec fn spec_effects(&self) -> Seq<Action> {
        self.effects@
    }

    pub closed spec fn spec_description(&self) -> Seq<char> {
        self.description@
    }

    pub closed spec fn spec_upgraded(&self) -> bool {
        self.upgraded
    }

    pub closed spec fn spec_exhaust(&self) -> bool {
        self.exhaust
    }

    /// The card that upgrading this one gives: the stored upgraded form, or
    /// the card itself when it is already upgraded.
    pub closed spec fn spec_upgrade(&self) -> Card {
        match self.upgrade {
            Some(b) => *b,
            None => *self,
        }
    }

    /// What `get_current_cost` reports for this card.
    pub open spec fn spec_cost(&self) -> Option<Option<int>> {
        current_cost(self.spec_base_cost(), self.spec_cost_reduction())
    }

    pub open spec fn wf(&self) -> bool {
        0 <= self.spec_cost_reduction() <= cap()
    }

    pub fn new(
        instance_id: u32,
        id: String,
        name: String,
        base_cost: Cost,
        card_type: CardType,
        targeting: CardTargeting,
        effects: Vec<Action>,
        description: String,
        upgraded: bool,
        upgrade: Option<Card>,
        exhaust: bool,
    ) -> (r: Card)
        ensures
            r.spec_instance_id() == instance_id,
            r.spec_id() == id@,
            r.spec_name() == name@,
            r.spec_base_cost() == base_cost,
            r.spec_cost_reduction() == 0,
            r.spec_card_type() == card_type,
            r.spec_targeting() == targeting,
            r.spec_effects() == effects@,
            r.spec_description() == description@,
            r.spec_upgraded() == upgraded,
            r.spec_exhaust() == exhaust,
            r.spec_upgrade() == (match upgrade {
                Some(c) => c,
                None => r,
            }),
            r.wf(),
    {
        let upgrade = match upgrade {
            Some(c) => Some(Box::new(c)),
            None => None,
        };
        Card {
            instance_id,
            id,
            name,
            base_cost,
            cost_reduction: 0,
            card_type,
            targeting,
            effects,
            description,
            upgraded,
            upgrade,
            exhaust,
        }
    }

    pub fn instance_id(&self) -> (r: u32)
        ensures
            r == self.spec_instance_id(),
    {
        self.instance_id
    }

    pub fn id(&self) -> (r: &str)
        ensures
            r@ == self.spec_id(),
    {
        self.id.as_str()
    }

    pub fn name(&self) -> (r: &str)
        ensures
            r@ == self.spec_name(),
    {
        self.name.as_str()
    }

    pub fn base_cost(&self) -> (r: &Cost)
        ensures
            *r == self.spec_base_cost(),
    {
        &self.base_cost
    }

    /// The energy that playing the card takes now: `Ok(Some(n))` for a
    /// definite cost, `Ok(None)` for an X cost, `Err` when it is unplayable.
    pub fn get_current_cost(&self) -> (r: Result<Option<i32>, String>)
        ensures
            r is Err <==> self.spec_cost() is None,
            r is Ok ==> (match r {
                Ok(Some(n)) => self.spec_cost() == Some(Some(n as int)),
                _ => self.spec_cost() == Some(None::<int>),
            }),
    {
        match &self.base_cost {
            Cost::Fixed(base) => {
                let c: i64 = *base as i64 - self.cost_reduction as i64;
                Ok(Some(if c < 0 { 0 } else if c > i32::MAX as i64 { i32::MAX } else { c as i32 }))
            },
            Cost::X => Ok(None),
            Cost::Free => Ok(Some(0)),
            Cost::Unplayable => Err(String::from_str("Card is unplayable")),
        }
    }

    /// Lowers the cost by `amount`; the reduction stays in `[0, i32::MAX]`.
    pub fn reduce_cost(&mut self, amount: i32)
        requires
            old(self).wf(),
        ensures
            final(self).wf(),
            final(self).spec_cost_reduction() == clamp(
                old(self).spec_cost_reduction() + amount,
                0,
                cap(),
            ),
            final(self).spec_base_cost() == old(self).spec_base_cost(),
    {
        let c: i64 = self.cost_reduction as i64 + amount as i64;
        self.cost_reduction = if c < 0 {
            0
        } else if c > i32::MAX as i64 {
            i32::MAX
        } else {
            c as i32
        };
    }

    pub fn reset_cost_reduction(&mut self)
        ensures
            final(self).wf(),
            final(self).spec_cost_reduction() == 0,
            final(self).spec_base_cost() == old(self).spec_base_cost(),
    {
        self.cost_reduction = 0;
    }

    pub fn cost_reduction(&self) -> (r: i32)
        ensures
            r == self.spec_cost_reduction(),
    {
        self.cost_reduction
    }

    pub fn card_type(&self) -> (r: &CardType)
        ensures
            *r == self.spec_card_type(),
    {
        &self.card_type
    }

    pub fn targeting(&self) -> (r: CardTargeting)
        ensures
            r == self.spec_targeting(),
    {
        self.targeting
    }

    pub fn effects(&self) -> (r: &Vec<Action>)
        ensures
            r@ == self.spec_effects(),
    {
        &self.effects
    }

    pub fn description(&self) -> (r: &str)
        ensures
            r@ == self.spec_description(),
    {
        self.description.as_str()
    }

    pub fn is_upgraded(&self) -> (r: bool)
        ensures
            r == self.spec_upgraded(),
    {
        self.upgraded
    }

    /// Whether the card goes to the exhaust pile, not the discard pile,
    /// after it is played.
    pub fn exhaust(&self) -> (r: bool)
        ensures
            r == self.spec_exhaust(),
    {
        self.exhaust
    }

    /// A copy of this card with the same model; the copy stores no
    /// upgraded form.
    pub fn duplicate(&self) -> (r: Card)
        ensures
            r@ == self@,
    {
        let mut effects: Vec<Action> = Vec::new();
        let mut i: usize = 0;
        while i < self.effects.len()
            invariant
                0 <= i <= self.effects@.len(),
                effects@ == self.effects@.take(i as int),
            decreases self.effects@.len() - i,
        {
            effects.push(self.effects[i]);
            proof {
                assert(self.effects@.take(i + 1) =~= self.effects@.take(i as int).push(self.effects@[i as int]));
            }
            i += 1;
        }
        proof {
            assert(self.effects@.take(i as int) =~= self.effects@);
        }
        Card {
            instance_id: self.instance_id,
            id: self.id.clone(),
            name: self.name.clone(),
            base_cost: self.base_cost,
            cost_reduction: self.cost_reduction,
            card_type: self.card_type,
            targeting: self.targeting,
            effects,
            description: self.description.clone(),
            upgraded: self.upgraded,
            upgrade: None,
            exhaust: self.exhaust,
        }
    }

    /// The upgraded form of this card, leaving the card's model as it is.
    pub fn take_upgrade(&mut self) -> (r: Card)
        ensures
            r@ == old(self).spec_upgrade()@,
            final(self)@ == old(self)@,
    {
        match self.upgrade.take() {
            Some(b) => *b,
            None => self.duplicate(),
        }
    }

    /// The upgraded form of this card, keeping its instance id.
    pub fn upgraded_form(self) -> (r: Card)
        ensures
            r == self.spec_upgrade(),
    {
        match self.upgrade {
            Some(b) => *b,
            None => self,
        }
    }
}

/// The upgraded form of a card.
pub fn upgrade_card(card: Card) -> (r: Card)
    ensures
        r == card.spec_upgrade(),
{
    card.upgraded_form()
}

} // verus!
