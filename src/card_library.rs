use vstd::prelude::*;
use crate::actions::{
    Action, AddModifierAction, ApplyEffect, ApplyStatusAction, BlockEffect, DamageEffect,
    DrawCardsAction, XDamageEffect,
};
use crate::card::{Card, CardTargeting, CardType, CardView, Cost};
use crate::effects::{Effect, EnergyNextTurnEffect};
use crate::ledger::{Modifier, StatusType};
use crate::text::{decimal, decimal_text, replace_all, replace_text};

verus! {

/// The regular and the upgraded variant of one card's definition record.
pub struct CardConfigs<T> {
    pub regular: T,
    pub upgraded: T,
}

impl<T> CardConfigs<T> {
    pub open spec fn pick(&self, upgraded: bool) -> &T {
        if upgraded { &self.upgraded } else { &self.regular }
    }
}

pub struct StrikeConfig {
    pub name: String,
    pub cost: i32,
    pub damage: i32,
    pub description: String,
}

pub struct DefendConfig {
    pub name: String,
    pub cost: i32,
    pub block: i32,
    pub description: String,
}

pub struct InflameConfig {
    pub name: String,
    pub cost: i32,
    pub strength: i32,
    pub description: String,
}

pub struct BarricadeConfig {
    pub name: String,
    pub cost: i32,
    pub description: String,
}

pub struct WhirlwindConfig {
    pub name: String,
    pub damage_per_energy: i32,
    pub description: String,
}

pub struct HasteConfig {
    pub name: String,
    pub cost: i32,
    pub draw: usize,
    pub vulnerable: i32,
    pub description: String,
}

pub struct QuickStrikeConfig {
    pub name: String,
    pub cost: i32,
    pub damage: i32,
    pub energy_next_turn: i32,
    pub description: String,
}

/// The model a card built from a definition has.
pub open spec fn card_view(
    instance_id: u32,
    id: Seq<char>,
    name: Seq<char>,
    base_cost: Cost,
    card_type: CardType,
    targeting: CardTargeting,
    effects: Seq<Action>,
    description: Seq<char>,
    upgraded: bool,
    exhaust: bool,
) -> CardView {
    CardView {
        instance_id,
        id,
        name,
        base_cost,
        cost_reduction: 0,
        card_type,
        targeting,
        effects,
        description,
        upgraded,
        exhaust,
    }
}

pub open spec fn strike_view(instance_id: u32, c: &StrikeConfig, upgraded: bool) -> CardView {
    card_view(
        instance_id,
        "strike"@,
        c.name@,
        Cost::Fixed(c.cost),
        CardType::Attack,
        CardTargeting::SingleEnemy,
        seq![Action::Damage(DamageEffect { amount: c.damage })],
        replace_all(c.description@, "{}"@, decimal(c.damage as int)),
        upgraded,
        false,
    )
}

pub open spec fn defend_view(instance_id: u32, c: &DefendConfig, upgraded: bool) -> CardView {
    card_view(
        instance_id,
        "defend"@,
        c.name@,
        Cost::Fixed(c.cost),
        CardType::Skill,
        CardTargeting::Self_,
        seq![Action::Block(BlockEffect { amount: c.block })],
        replace_all(c.description@, "{}"@, decimal(c.block as int)),
        upgraded,
        false,
    )
}

pub open spec fn inflame_view(instance_id: u32, c: &InflameConfig, upgraded: bool) -> CardView {
    card_view(
        instance_id,
        "inflame"@,
        c.name@,
        Cost::Fixed(c.cost),
        CardType::Power,
        CardTargeting::Self_,
        seq![Action::ApplyStatus(ApplyStatusAction { status_type: StatusType::Strength, stacks: c.strength })],
        replace_all(c.description@, "{}"@, decimal(c.strength as int)),
        upgraded,
        true,
    )
}

pub open spec fn barricade_view(instance_id: u32, c: &BarricadeConfig, upgraded: bool) -> CardView {
    card_view(
        instance_id,
        "barricade"@,
        c.name@,
        Cost::Fixed(c.cost),
        CardType::Power,
        CardTargeting::NoTarget,
        seq![Action::AddModifier(AddModifierAction { modifier: Modifier::RetainBlock })],
        c.description@,
        upgraded,
        false,
    )
}

pub open spec fn whirlwind_view(instance_id: u32, c: &WhirlwindConfig, upgraded: bool) -> CardView {
    card_view(
        instance_id,
        "whirlwind"@,
        c.name@,
        Cost::X,
        CardType::Attack,
        CardTargeting::AllEnemies,
        seq![Action::XDamage(XDamageEffect { damage_per_energy: c.damage_per_energy })],
        replace_all(c.description@, "{}"@, decimal(c.damage_per_energy as int)),
        upgraded,
        false,
    )
}

pub open spec fn haste_view(instance_id: u32, c: &HasteConfig, upgraded: bool) -> CardView {
    card_view(
        instance_id,
        "haste"@,
        c.name@,
        Cost::Fixed(c.cost),
        CardType::Skill,
        CardTargeting::SingleEnemy,
        seq![
            Action::DrawCards(DrawCardsAction { count: c.draw }),
            Action::ApplyStatus(ApplyStatusAction { status_type: StatusType::Vulnerable, stacks: c.vulnerable }),
        ],
        replace_all(
            replace_all(c.description@, "{draw}"@, decimal(c.draw as int)),
            "{vulnerable}"@,
            decimal(c.vulnerable as int),
        ),
        upgraded,
        true,
    )
}

pub open spec fn quick_strike_view(instance_id: u32, c: &QuickStrikeConfig, upgraded: bool) -> CardView {
    card_view(
        instance_id,
        "quick_strike"@,
        c.name@,
        Cost::Fixed(c.cost),
        CardType::Attack,
        CardTargeting::SingleEnemy,
        seq![
            Action::Damage(DamageEffect { amount: c.damage }),
            Action::ApplyEffect(ApplyEffect {
                effect: Effect::EnergyNextTurn(EnergyNextTurnEffect::fresh(c.energy_next_turn)),
            }),
        ],
        replace_all(
            replace_all(c.description@, "{damage}"@, decimal(c.damage as int)),
            "{energy}"@,
            decimal(c.energy_next_turn as int),
        ),
        upgraded,
        false,
    )
}

/// `template` with `token` replaced by the decimal text of `value`.
fn fill(template: &String, token: &str, value: i128) -> (r: String)
    requires
        token@.len() > 0,
    ensures
        r@ == replace_all(template@, token@, decimal(value as int)),
{
    let text = decimal_text(value);
    replace_text(template.as_str(), token, text.as_str())
}

fn strike_variant(instance_id: u32, c: &StrikeConfig, upgraded: bool, upgrade: Option<Card>) -> (r: Card)
    ensures
        r@ == strike_view(instance_id, c, upgraded),
        r.spec_upgrade() == (match upgrade { Some(u) => u, None => r }),
{
    proof {
        reveal_strlit("{}");
        reveal_strlit("strike");
    }
    let mut effects: Vec<Action> = Vec::new();
    effects.push(Action::Damage(DamageEffect { amount: c.damage }));
    proof {
        assert(effects@ =~= seq![Action::Damage(DamageEffect { amount: c.damage })]);
    }
    Card::new(
        instance_id,
        String::from_str("strike"),
        c.name.clone(),
        Cost::Fixed(c.cost),
        CardType::Attack,
        CardTargeting::SingleEnemy,
        effects,
        fill(&c.description, "{}", c.damage as i128),
        upgraded,
        upgrade,
        false,
    )
}

/// Strike: deal damage to one enemy.
pub fn strike(instance_id: u32, upgraded: bool, config: &CardConfigs<StrikeConfig>) -> (r: Card)
    ensures
        r@ == strike_view(instance_id, config.pick(upgraded), upgraded),
        r.spec_upgrade()@ == strike_view(instance_id, &config.upgraded, true),
{
    let top = strike_variant(instance_id, &config.upgraded, true, None);
    if upgraded {
        top
    } else {
        strike_variant(instance_id, &config.regular, false, Some(top))
    }
}

fn defend_variant(instance_id: u32, c: &DefendConfig, upgraded: bool, upgrade: Option<Card>) -> (r: Card)
    ensures
        r@ == defend_view(instance_id, c, upgraded),
        r.spec_upgrade() == (match upgrade { Some(u) => u, None => r }),
{
    proof {
        reveal_strlit("{}");
        reveal_strlit("defend");
    }
    let mut effects: Vec<Action> = Vec::new();
    effects.push(Action::Block(BlockEffect { amount: c.block }));
    proof {
        assert(effects@ =~= seq![Action::Block(BlockEffect { amount: c.block })]);
    }
    let description = fill(&c.description, "{}", c.block as i128);
    Card::new(
        instance_id,
        String::from_str("defend"),
        c.name.clone(),
        Cost::Fixed(c.cost),
        CardType::Skill,
        CardTargeting::Self_,
        effects,
        description,
        upgraded,
        upgrade,
        false,
    )
}

/// Defend: gain block.
pub fn defend(instance_id: u32, upgraded: bool, config: &CardConfigs<DefendConfig>) -> (r: Card)
    ensures
        r@ == defend_view(instance_id, config.pick(upgraded), upgraded),
        r.spec_upgrade()@ == defend_view(instance_id, &config.upgraded, true),
{
    let top = defend_variant(instance_id, &config.upgraded, true, None);
    if upgraded {
        top
    } else {
        defend_variant(instance_id, &config.regular, false, Some(top))
    }
}

fn inflame_variant(instance_id: u32, c: &InflameConfig, upgraded: bool, upgrade: Option<Card>) -> (r: Card)
    ensures
        r@ == inflame_view(instance_id, c, upgraded),
        r.spec_upgrade() == (match upgrade { Some(u) => u, None => r }),
{
    proof {
        reveal_strlit("{}");
        reveal_strlit("inflame");
    }
    let mut effects: Vec<Action> = Vec::new();
    effects.push(Action::ApplyStatus(ApplyStatusAction { status_type: StatusType::Strength, stacks: c.strength }));
    proof {
        assert(effects@ =~= seq![Action::ApplyStatus(ApplyStatusAction { status_type: StatusType::Strength, stacks: c.strength })]);
    }
    let description = fill(&c.description, "{}", c.strength as i128);
    Card::new(
        instance_id,
        String::from_str("inflame"),
        c.name.clone(),
        Cost::Fixed(c.cost),
        CardType::Power,
        CardTargeting::Self_,
        effects,
        description,
        upgraded,
        upgrade,
        true,
    )
}

/// Inflame: gain Strength; exhausts.
pub fn inflame(instance_id: u32, upgraded: bool, config: &CardConfigs<InflameConfig>) -> (r: Card)
    ensures
        r@ == inflame_view(instance_id, config.pick(upgraded), upgraded),
        r.spec_upgrade()@ == inflame_view(instance_id, &config.upgraded, true),
{
    let top = inflame_variant(instance_id, &config.upgraded, true, None);
    if upgraded {
        top
    } else {
        inflame_variant(instance_id, &config.regular, false, Some(top))
    }
}

fn barricade_variant(instance_id: u32, c: &BarricadeConfig, upgraded: bool, upgrade: Option<Card>) -> (r: Card)
    ensures
        r@ == barricade_view(instance_id, c, upgraded),
        r.spec_upgrade() == (match upgrade { Some(u) => u, None => r }),
{
    proof {
        reveal_strlit("barricade");
    }
    let mut effects: Vec<Action> = Vec::new();
    effects.push(Action::AddModifier(AddModifierAction { modifier: Modifier::RetainBlock }));
    proof {
        assert(effects@ =~= seq![Action::AddModifier(AddModifierAction { modifier: Modifier::RetainBlock })]);
    }
    let description = c.description.clone();
    Card::new(
        instance_id,
        String::from_str("barricade"),
        c.name.clone(),
        Cost::Fixed(c.cost),
        CardType::Power,
        CardTargeting::NoTarget,
        effects,
        description,
        upgraded,
        upgrade,
        false,
    )
}

/// Barricade: block is no longer cleared at turn start.
pub fn barricade(instance_id: u32, upgraded: bool, config: &CardConfigs<BarricadeConfig>) -> (r: Card)
    ensures
        r@ == barricade_view(instance_id, config.pick(upgraded), upgraded),
        r.spec_upgrade()@ == barricade_view(instance_id, &config.upgraded, true),
{
    let top = barricade_variant(instance_id, &config.upgraded, true, None);
    if upgraded {
        top
    } else {
        barricade_variant(instance_id, &config.regular, false, Some(top))
    }
}

fn whirlwind_variant(instance_id: u32, c: &WhirlwindConfig, upgraded: bool, upgrade: Option<Card>) -> (r: Card)
    ensures
        r@ == whirlwind_view(instance_id, c, upgraded),
        r.spec_upgrade() == (match upgrade { Some(u) => u, None => r }),
{
    proof {
        reveal_strlit("{}");
        reveal_strlit("whirlwind");
    }
    let mut effects: Vec<Action> = Vec::new();
    effects.push(Action::XDamage(XDamageEffect { damage_per_energy: c.damage_per_energy }));
    proof {
        assert(effects@ =~= seq![Action::XDamage(XDamageEffect { damage_per_energy: c.damage_per_energy })]);
    }
    let description = fill(&c.description, "{}", c.damage_per_energy as i128);
    Card::new(
        instance_id,
        String::from_str("whirlwind"),
        c.name.clone(),
        Cost::X,
        CardType::Attack,
        CardTargeting::AllEnemies,
        effects,
        description,
        upgraded,
        upgrade,
        false,
    )
}

/// Whirlwind: spend all energy to hit every enemy per point spent.
pub fn whirlwind(instance_id: u32, upgraded: bool, config: &CardConfigs<WhirlwindConfig>) -> (r: Card)
    ensures
        r@ == whirlwind_view(instance_id, config.pick(upgraded), upgraded),
        r.spec_upgrade()@ == whirlwind_view(instance_id, &config.upgraded, true),
{
    let top = whirlwind_variant(instance_id, &config.upgraded, true, None);
    if upgraded {
        top
    } else {
        whirlwind_variant(instance_id, &config.regular, false, Some(top))
    }
}

fn haste_variant(instance_id: u32, c: &HasteConfig, upgraded: bool, upgrade: Option<Card>) -> (r: Card)
    ensures
        r@ == haste_view(instance_id, c, upgraded),
        r.spec_upgrade() == (match upgrade { Some(u) => u, None => r }),
{
    proof {
        reveal_strlit("{draw}");
        reveal_strlit("{vulnerable}");
        reveal_strlit("haste");
    }
    let mut effects: Vec<Action> = Vec::new();
    effects.push(Action::DrawCards(DrawCardsAction { count: c.draw }));
    effects.push(Action::ApplyStatus(ApplyStatusAction { status_type: StatusType::Vulnerable, stacks: c.vulnerable }));
    proof {
        assert(effects@ =~= seq![Action::DrawCards(DrawCardsAction { count: c.draw }), Action::ApplyStatus(ApplyStatusAction { status_type: StatusType::Vulnerable, stacks: c.vulnerable })]);
    }
    let first = fill(&c.description, "{draw}", c.draw as i128);
    let description = fill(&first, "{vulnerable}", c.vulnerable as i128);
    Card::new(
        instance_id,
        String::from_str("haste"),
        c.name.clone(),
        Cost::Fixed(c.cost),
        CardType::Skill,
        CardTargeting::SingleEnemy,
        effects,
        description,
        upgraded,
        upgrade,
        true,
    )
}

/// Haste: draw cards and make the target Vulnerable; exhausts.
pub fn haste(instance_id: u32, upgraded: bool, config: &CardConfigs<HasteConfig>) -> (r: Card)
    ensures
        r@ == haste_view(instance_id, config.pick(upgraded), upgraded),
        r.spec_upgrade()@ == haste_view(instance_id, &config.upgraded, true),
{
    let top = haste_variant(instance_id, &config.upgraded, true, None);
    if upgraded {
        top
    } else {
        haste_variant(instance_id, &config.regular, false, Some(top))
    }
}

fn quick_strike_variant(instance_id: u32, c: &QuickStrikeConfig, upgraded: bool, upgrade: Option<Card>) -> (r: Card)
    ensures
        r@ == quick_strike_view(instance_id, c, upgraded),
        r.spec_upgrade() == (match upgrade { Some(u) => u, None => r }),
{
    proof {
        reveal_strlit("{damage}");
        reveal_strlit("{energy}");
        reveal_strlit("quick_strike");
    }
    let energy = EnergyNextTurnEffect::new(c.energy_next_turn);
    let mut effects: Vec<Action> = Vec::new();
    effects.push(Action::Damage(DamageEffect { amount: c.damage }));
    effects.push(Action::ApplyEffect(ApplyEffect { effect: Effect::EnergyNextTurn(energy) }));
    proof {
        assert(effects@ =~= seq![Action::Damage(DamageEffect { amount: c.damage }), Action::ApplyEffect(ApplyEffect { effect: Effect::EnergyNextTurn(EnergyNextTurnEffect::fresh(c.energy_next_turn)) })]);
    }
    let first = fill(&c.description, "{damage}", c.damage as i128);
    let description = fill(&first, "{energy}", c.energy_next_turn as i128);
    Card::new(
        instance_id,
        String::from_str("quick_strike"),
        c.name.clone(),
        Cost::Fixed(c.cost),
        CardType::Attack,
        CardTargeting::SingleEnemy,
        effects,
        description,
        upgraded,
        upgrade,
        false,
    )
}

/// Quick Strike: deal damage and gain energy next turn.
pub fn quick_strike(instance_id: u32, upgraded: bool, config: &CardConfigs<QuickStrikeConfig>) -> (r: Card)
    ensures
        r@ == quick_strike_view(instance_id, config.pick(upgraded), upgraded),
        r.spec_upgrade()@ == quick_strike_view(instance_id, &config.upgraded, true),
{
    let top = quick_strike_variant(instance_id, &config.upgraded, true, None);
    if upgraded {
        top
    } else {
        quick_strike_variant(instance_id, &config.regular, false, Some(top))
    }
}

} // verus!
