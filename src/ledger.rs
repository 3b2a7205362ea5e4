use vstd::prelude::*;

verus! {

/// A stacking numeric buff or debuff.
#[derive(Clone, Copy, Debug, PartialEq, Eq, Structural)]
pub enum StatusType {
    Strength,
    Dexterity,
    Vulnerable,
    Weak,
    Poison,
    Frail,
}

/// A boolean combat rule flag.
#[derive(Clone, Copy, Debug, PartialEq, Eq, Structural)]
pub enum Modifier {
    RetainHand,
    RetainBlock,
}

/// One entry of a ledger's status list.
#[derive(Clone, Copy, Debug, PartialEq, Eq, Structural)]
pub struct Status {
    pub status_type: StatusType,
    pub stacks: i32,
}

impl Status {
    pub fn new(status_type: StatusType, stacks: i32) -> (r: Status)
        ensures
            r.status_type == status_type,
            r.stacks == stacks,
    {
        Status { status_type, stacks }
    }
}

/// Mathematical model of a combatant's ledger.
pub ghost struct LedgerView {
    pub name: Seq<char>,
    pub max_health: int,
    pub health: int,
    pub block: int,
    pub strength: int,
    pub dexterity: int,
    pub vulnerable: int,
    pub weak: int,
    pub poison: int,
    pub frail: int,
    pub retain_hand: bool,
    pub retain_block: bool,
}

/// Largest stack count, block or health a ledger holds.
pub open spec fn cap() -> int {
    i32::MAX as int
}

/// A stack count after a change: a count of zero or less removes the status,
/// and counts saturate at the top of the `i32` range.
pub open spec fn clamp_stacks(n: int) -> int {
    if n <= 0 {
        0
    } else if n > cap() {
        cap()
    } else {
        n
    }
}

/// `v` clamped into `[lo, hi]`.
pub open spec fn clamp(v: int, lo: int, hi: int) -> int {
    if v < lo {
        lo
    } else if v > hi {
        hi
    } else {
        v
    }
}

pub open spec fn is_debuff(t: StatusType) -> bool {
    t == StatusType::Vulnerable || t == StatusType::Weak || t == StatusType::Frail
}

impl LedgerView {
    pub open spec fn wf(self) -> bool {
        &&& 0 <= self.health <= self.max_health <= cap()
        &&& 0 <= self.block <= cap()
        &&& 0 <= self.strength <= cap()
        &&& 0 <= self.dexterity <= cap()
        &&& 0 <= self.vulnerable <= cap()
        &&& 0 <= self.weak <= cap()
        &&& 0 <= self.poison <= cap()
        &&& 0 <= self.frail <= cap()
    }

    /// Stack count of a status; 0 when the status is absent.
    pub open spec fn stacks(self, t: StatusType) -> int {
        match t {
            StatusType::Strength => self.strength,
            StatusType::Dexterity => self.dexterity,
            StatusType::Vulnerable => self.vulnerable,
            StatusType::Weak => self.weak,
            StatusType::Poison => self.poison,
            StatusType::Frail => self.frail,
        }
    }

    pub open spec fn with_stacks(self, t: StatusType, n: int) -> LedgerView {
        match t {
            StatusType::Strength => LedgerView { strength: n, ..self },
            StatusType::Dexterity => LedgerView { dexterity: n, ..self },
            StatusType::Vulnerable => LedgerView { vulnerable: n, ..self },
            StatusType::Weak => LedgerView { weak: n, ..self },
            StatusType::Poison => LedgerView { poison: n, ..self },
            StatusType::Frail => LedgerView { frail: n, ..self },
        }
    }

    pub open spec fn has(self, m: Modifier) -> bool {
        match m {
            Modifier::RetainHand => self.retain_hand,
            Modifier::RetainBlock => self.retain_block,
        }
    }

    pub open spec fn with_modifier(self, m: Modifier, on: bool) -> LedgerView {
        match m {
            Modifier::RetainHand => LedgerView { retain_hand: on, ..self },
            Modifier::RetainBlock => LedgerView { retain_block: on, ..self },
        }
    }

    pub open spec fn is_alive(self) -> bool {
        self.health > 0
    }

    /// Adds stacks: merges into a present status or creates an absent one.
    pub open spec fn add_status(self, t: StatusType, n: int) -> LedgerView {
        self.with_stacks(t, clamp_stacks(self.stacks(t) + n))
    }

    /// Reduces a present status by `n`; an absent one stays absent.
    pub open spec fn reduce_status(self, t: StatusType, n: int) -> LedgerView {
        if self.stacks(t) > 0 {
            self.with_stacks(t, clamp_stacks(self.stacks(t) - n))
        } else {
            self
        }
    }

    /// Every debuff loses one stack; the other statuses are kept.
    pub open spec fn decay_debuffs(self) -> LedgerView {
        LedgerView {
            vulnerable: clamp_stacks(self.vulnerable - 1),
            weak: clamp_stacks(self.weak - 1),
            frail: clamp_stacks(self.frail - 1),
            ..self
        }
    }

    pub open spec fn set_block(self, amount: int) -> LedgerView {
        LedgerView { block: if amount < 0 { 0 } else { amount }, ..self }
    }

    pub open spec fn set_health(self, amount: int) -> LedgerView {
        LedgerView { health: clamp(amount, 0, self.max_health), ..self }
    }

    /// The present statuses, in the fixed order of `StatusType`.
    pub open spec fn status_list(self) -> Seq<Status> {
        let all = seq![
            StatusType::Strength,
            StatusType::Dexterity,
            StatusType::Vulnerable,
            StatusType::Weak,
            StatusType::Poison,
            StatusType::Frail,
        ];
        all.filter(|t: StatusType| self.stacks(t) > 0).map_values(
            |t: StatusType| Status { status_type: t, stacks: self.stacks(t) as i32 },
        )
    }
}

/// A ledger at full health with no block, statuses or modifiers.
pub open spec fn fresh_ledger(name: Seq<char>, max_health: int) -> LedgerView {
    LedgerView {
        name,
        max_health,
        health: max_health,
        block: 0,
        strength: 0,
        dexterity: 0,
        vulnerable: 0,
        weak: 0,
        poison: 0,
        frail: 0,
        retain_hand: false,
        retain_block: false,
    }
}

/// Health, block, statuses and modifiers of one combatant.
#[derive(Clone, Debug)]
pub struct BaseState {
    name: String,
    max_health: i32,
    current_health: i32,
    block: i32,
    strength: i32,
    dexterity: i32,
    vulnerable: i32,
    weak: i32,
    poison: i32,
    frail: i32,
    retain_hand: bool,
    retain_block: bool,
}

impl View for BaseState {
    type V = LedgerView;

    closed spec fn view(&self) -> LedgerView {
        LedgerView {
            name: self.name@,
            max_health: self.max_health as int,
            health: self.current_health as int,
            block: self.block as int,
            strength: self.strength as int,
            dexterity: self.dexterity as int,
            vulnerable: self.vulnerable as int,
            weak: self.weak as int,
            poison: self.poison as int,
            frail: self.frail as int,
            retain_hand: self.retain_hand,
            retain_block: self.retain_block,
        }
    }
}

/// Clamps a wide value into `[0, i32::MAX]`.
fn clamp_to_stacks(n: i64) -> (r: i32)
    ensures
        r as int == clamp_stacks(n as int),
{
    if n <= 0 {
        0
    } else if n > i32::MAX as i64 {
        i32::MAX
    } else {
        n as i32
    }
}

impl BaseState {
    pub fn new(name: String, max_health: i32) -> (r: BaseState)
        requires
            max_health >= 0,
        ensures
            r@ == fresh_ledger(name@, max_health as int),
            r@.wf(),
    {
        BaseState {
            name,
            max_health,
            current_health: max_health,
            block: 0,
            strength: 0,
            dexterity: 0,
            vulnerable: 0,
            weak: 0,
            poison: 0,
            frail: 0,
            retain_hand: false,
            retain_block: false,
        }
    }

    fn stacks_of(&self, t: StatusType) -> (r: i32)
        ensures
            r == self@.stacks(t),
    {
        match t {
            StatusType::Strength => self.strength,
            StatusType::Dexterity => self.dexterity,
            StatusType::Vulnerable => self.vulnerable,
            StatusType::Weak => self.weak,
            StatusType::Poison => self.poison,
            StatusType::Frail => self.frail,
        }
    }

    fn store_stacks(&mut self, t: StatusType, n: i32)
        ensures
            final(self)@ == old(self)@.with_stacks(t, n as int),
    {
        match t {
            StatusType::Strength => self.strength = n,
            StatusType::Dexterity => self.dexterity = n,
            StatusType::Vulnerable => self.vulnerable = n,
            StatusType::Weak => self.weak = n,
            StatusType::Poison => self.poison = n,
            StatusType::Frail => self.frail = n,
        }
    }
}

/// Read and write access to a combatant's ledger.
pub trait State {
    /// The ledger this value carries.
    spec fn ledger(&self) -> LedgerView;

    fn get_name(&self) -> (r: &str)
        ensures
            r@ == self.ledger().name,
    ;

    fn get_max_health(&self) -> (r: i32)
        ensures
            r == self.ledger().max_health,
    ;

    fn get_current_health(&self) -> (r: i32)
        ensures
            r == self.ledger().health,
    ;

    fn get_block(&self) -> (r: i32)
        ensures
            r == self.ledger().block,
    ;

    fn is_alive(&self) -> (r: bool)
        ensures
            r == self.ledger().is_alive(),
    ;

    fn get_status(&self, status_type: &StatusType) -> (r: i32)
        ensures
            r == self.ledger().stacks(*status_type),
    ;

    fn get_all_statuses(&self) -> (r: Vec<Status>)
        ensures
            r@ == self.ledger().status_list(),
    ;

    fn add_status(&mut self, status_type: StatusType, stacks: i32)
        requires
            old(self).ledger().wf(),
        ensures
            final(self).ledger() == old(self).ledger().add_status(status_type, stacks as int),
            final(self).ledger().wf(),
    ;

    fn reduce_status(&mut self, status_type: StatusType, amount: i32)
        requires
            old(self).ledger().wf(),
        ensures
            final(self).ledger() == old(self).ledger().reduce_status(status_type, amount as int),
            final(self).ledger().wf(),
    ;

    fn set_block(&mut self, amount: i32)
        requires
            old(self).ledger().wf(),
        ensures
            final(self).ledger() == old(self).ledger().set_block(amount as int),
            final(self).ledger().wf(),
    ;

    fn set_health(&mut self, amount: i32)
        requires
            old(self).ledger().wf(),
        ensures
            final(self).ledger() == old(self).ledger().set_health(amount as int),
            final(self).ledger().wf(),
    ;

    fn has_modifier(&self, modifier: &Modifier) -> (r: bool)
        ensures
            r == self.ledger().has(*modifier),
    ;

    fn add_modifier(&mut self, modifier: Modifier)
        requires
            old(self).ledger().wf(),
        ensures
            final(self).ledger() == old(self).ledger().with_modifier(modifier, true),
            final(self).ledger().wf(),
    ;

    fn remove_modifier(&mut self, modifier: &Modifier)
        requires
            old(self).ledger().wf(),
        ensures
            final(self).ledger() == old(self).ledger().with_modifier(*modifier, false),
            final(self).ledger().wf(),
    ;

    /// Drops every status whose count is not positive. A well-formed ledger
    /// stores none, so this leaves it as it is.
    fn remove_expired_statuses(&mut self)
        requires
            old(self).ledger().wf(),
        ensures
            final(self).ledger() == old(self).ledger(),
    ;

    fn decay_debuffs(&mut self)
        requires
            old(self).ledger().wf(),
        ensures
            final(self).ledger() == old(self).ledger().decay_debuffs(),
            final(self).ledger().wf(),
    ;
}

impl State for BaseState {
    open spec fn ledger(&self) -> LedgerView {
        self@
    }

    fn get_name(&self) -> (r: &str) {
        self.name.as_str()
    }

    fn get_max_health(&self) -> (r: i32) {
        self.max_health
    }

    fn get_current_health(&self) -> (r: i32) {
        self.current_health
    }

    fn get_block(&self) -> (r: i32) {
        self.block
    }

    fn is_alive(&self) -> (r: bool) {
        self.current_health > 0
    }

    fn get_status(&self, status_type: &StatusType) -> (r: i32) {
        self.stacks_of(*status_type)
    }

    fn get_all_statuses(&self) -> (r: Vec<Status>) {
        let mut out: Vec<Status> = Vec::new();
        if self.strength > 0 {
            out.push(Status::new(StatusType::Strength, self.strength));
        }
        if self.dexterity > 0 {
            out.push(Status::new(StatusType::Dexterity, self.dexterity));
        }
        if self.vulnerable > 0 {
            out.push(Status::new(StatusType::Vulnerable, self.vulnerable));
        }
        if self.weak > 0 {
            out.push(Status::new(StatusType::Weak, self.weak));
        }
        if self.poison > 0 {
            out.push(Status::new(StatusType::Poison, self.poison));
        }
        if self.frail > 0 {
            out.push(Status::new(StatusType::Frail, self.frail));
        }
        proof {
            let v = self@;
            let all = seq![
                StatusType::Strength,
                StatusType::Dexterity,
                StatusType::Vulnerable,
                StatusType::Weak,
                StatusType::Poison,
                StatusType::Frail,
            ];
            let pred = |t: StatusType| v.stacks(t) > 0;
            reveal_with_fuel(Seq::filter, 7);
            assert(all.drop_last().drop_last().drop_last().drop_last().drop_last().drop_last()
                =~= Seq::<StatusType>::empty());
            assert(out@ =~= v.status_list());
        }
        out
    }

    fn add_status(&mut self, status_type: StatusType, stacks: i32) {
        let cur = self.stacks_of(status_type);
        let n = clamp_to_stacks(cur as i64 + stacks as i64);
        self.store_stacks(status_type, n);
    }

    fn reduce_status(&mut self, status_type: StatusType, amount: i32) {
        let cur = self.stacks_of(status_type);
        if cur > 0 {
            let n = clamp_to_stacks(cur as i64 - amount as i64);
            self.store_stacks(status_type, n);
        }
    }

    fn set_block(&mut self, amount: i32) {
        self.block = if amount < 0 { 0 } else { amount };
    }

    fn set_health(&mut self, amount: i32) {
        self.current_health = if amount < 0 {
            0
        } else if amount > self.max_health {
            self.max_health
        } else {
            amount
        };
    }

    fn has_modifier(&self, modifier: &Modifier) -> (r: bool) {
        match modifier {
            Modifier::RetainHand => self.retain_hand,
            Modifier::RetainBlock => self.retain_block,
        }
    }

    fn add_modifier(&mut self, modifier: Modifier) {
        match modifier {
            Modifier::RetainHand => self.retain_hand = true,
            Modifier::RetainBlock => self.retain_block = true,
        }
    }

    fn remove_modifier(&mut self, modifier: &Modifier) {
        match modifier {
            Modifier::RetainHand => self.retain_hand = false,
            Modifier::RetainBlock => self.retain_block = false,
        }
    }

    fn remove_expired_statuses(&mut self) {
    }

    fn decay_debuffs(&mut self) {
        self.vulnerable = clamp_to_stacks(self.vulnerable as i64 - 1);
        self.weak = clamp_to_stacks(self.weak as i64 - 1);
        self.frail = clamp_to_stacks(self.frail as i64 - 1);
    }
}

} // verus!
