use spire_combat::actions::{Action, DamageEffect};
use spire_combat::card::{Card, CardTargeting, CardType, Cost};
use spire_combat::card_library::{
    barricade, defend, haste, inflame, quick_strike, strike, whirlwind, BarricadeConfig,
    CardConfigs, DefendConfig, HasteConfig, InflameConfig, QuickStrikeConfig, StrikeConfig,
    WhirlwindConfig,
};
use spire_combat::damage::{compute_block, compute_damage};
use spire_combat::effects::{EnergyNextTurnEffect, Effect, Ritual};
use spire_combat::enemy::{Dragonling, Enemy};
use spire_combat::game_state::{CombatError, EntityId, GameState};
use spire_combat::ledger::{BaseState, Modifier, State, StatusType};
use spire_combat::player::{Player, STSClass};

#[allow(dead_code)]
fn strike_data() -> CardConfigs<StrikeConfig> {
    CardConfigs {
        regular: StrikeConfig {
            name: "Strike".to_string(),
            cost: 1,
            damage: 6,
            description: "Deal {} damage.".to_string(),
        },
        upgraded: StrikeConfig {
            name: "Strike+".to_string(),
            cost: 1,
            damage: 9,
            description: "Deal {} damage.".to_string(),
        },
    }
}

#[allow(dead_code)]
fn defend_data() -> CardConfigs<DefendConfig> {
    CardConfigs {
        regular: DefendConfig {
            name: "Defend".to_string(),
            cost: 1,
            block: 5,
            description: "Gain {} Block.".to_string(),
        },
        upgraded: DefendConfig {
            name: "Defend+".to_string(),
            cost: 1,
            block: 12,
            description: "Gain {} Block.".to_string(),
        },
    }
}

#[allow(dead_code)]
fn inflame_data() -> CardConfigs<InflameConfig> {
    CardConfigs {
        regular: InflameConfig {
            name: "Inflame".to_string(),
            cost: 1,
            strength: 2,
            description: "Gain {} Strength.".to_string(),
        },
        upgraded: InflameConfig {
            name: "Inflame+".to_string(),
            cost: 1,
            strength: 3,
            description: "Gain {} Strength.".to_string(),
        },
    }
}

#[allow(dead_code)]
fn whirlwind_data() -> CardConfigs<WhirlwindConfig> {
    CardConfigs {
        regular: WhirlwindConfig {
            name: "Whirlwind".to_string(),
            damage_per_energy: 5,
            description: "Deal {} damage to ALL enemies X times.".to_string(),
        },
        upgraded: WhirlwindConfig {
            name: "Whirlwind+".to_string(),
            damage_per_energy: 8,
            description: "Deal {} damage to ALL enemies X times.".to_string(),
        },
    }
}

#[allow(dead_code)]
fn haste_data() -> CardConfigs<HasteConfig> {
    CardConfigs {
        regular: HasteConfig {
            name: "Haste".to_string(),
            cost: 0,
            draw: 2,
            vulnerable: 1,
            description: "Draw {draw} cards. Apply {vulnerable} Vulnerable.".to_string(),
        },
        upgraded: HasteConfig {
            name: "Haste+".to_string(),
            cost: 0,
            draw: 3,
            vulnerable: 2,
            description: "Draw {draw} cards. Apply {vulnerable} Vulnerable.".to_string(),
        },
    }
}

#[allow(dead_code)]
fn dragonling() -> Enemy {
    Enemy::dragonling(Dragonling::new("Dragonling".to_string(), 50))
}

#[allow(dead_code)]
fn hero(name: &str, health: i32) -> Player {
    Player::new(STSClass::Ironclad, name.to_string(), health)
}

fn plain_card(id: u32, exhaust: bool) -> Card {
    Card::new(
        id,
        "test".to_string(),
        "Test".to_string(),
        Cost::Free,
        CardType::Skill,
        CardTargeting::NoTarget,
        Vec::new(),
        "Nothing.".to_string(),
        false,
        None,
        exhaust,
    )
}

#[test]
fn damage_formula_examples() {
    assert_eq!(compute_damage(6, 0, false, false), 6);
    assert_eq!(compute_damage(10, 0, false, true), 15);
    assert_eq!(compute_damage(10, 0, true, true), 10);
    assert_eq!(compute_damage(10, 0, true, false), 7);
    assert_eq!(compute_damage(10, 3, false, false), 13);
    assert_eq!(compute_damage(2, -5, false, true), 0);
    assert_eq!(compute_damage(i32::MAX, i32::MAX, false, true), (i32::MAX as i64) * 3);
}

#[test]
fn block_formula_examples() {
    assert_eq!(compute_block(5, 0, false), 5);
    assert_eq!(compute_block(5, 2, false), 7);
    assert_eq!(compute_block(5, 0, true), 3);
    assert_eq!(compute_block(1, -4, true), 0);
}

#[test]
fn basic_strike_scenario() {
    let mut game = GameState::new(hero("Hero", 100), vec![dragonling()]);
    let amount = game.deal_damage(EntityId::Player, EntityId::Enemy(0), 6);
    assert_eq!(amount, 6);
    assert_eq!(game.enemies()[0].get_current_health(), 44);
}

#[test]
fn vulnerable_scenario() {
    let mut game = GameState::new(hero("Hero", 100), vec![dragonling()]);
    game.add_status(EntityId::Enemy(0), StatusType::Vulnerable, 1);
    let amount = game.deal_damage(EntityId::Player, EntityId::Enemy(0), 10);
    assert_eq!(amount, 15);
    assert_eq!(game.enemies()[0].get_current_health(), 35);
}

#[test]
fn weak_and_vulnerable_scenario() {
    let mut game = GameState::new(hero("Hero", 100), vec![dragonling()]);
    game.add_status(EntityId::Player, StatusType::Weak, 1);
    game.add_status(EntityId::Enemy(0), StatusType::Vulnerable, 1);
    let amount = game.deal_damage(EntityId::Player, EntityId::Enemy(0), 10);
    assert_eq!(amount, 10);
    assert_eq!(game.enemies()[0].get_current_health(), 40);
}

#[test]
fn block_absorption_scenario() {
    let mut game = GameState::new(hero("Hero", 100), vec![dragonling()]);
    game.gain_block(EntityId::Player, 5);
    assert_eq!(game.player().get_block(), 5);
    let amount = game.deal_damage(EntityId::Enemy(0), EntityId::Player, 8);
    assert_eq!(amount, 3);
    assert_eq!(game.player().get_block(), 0);
    assert_eq!(game.player().get_current_health(), 97);
}

#[test]
fn special_ability_scenario() {
    let deck = vec![strike(1, false, &strike_data()), defend(2, false, &defend_data())];
    let mut game = GameState::new_with_deck(hero("Hero", 100), vec![dragonling()], deck);
    game.start_player_turn();
    let rightmost = game.hand().last().unwrap().instance_id();
    let rightmost_name = game.hand().last().unwrap().name().to_string();
    assert_eq!(game.player().get_energy(), 3);
    game.use_hero_ability().unwrap();
    assert_eq!(game.player().get_energy(), 2);
    assert!(game.player().hero_ability_used());
    assert_eq!(game.exhaust_pile().last().unwrap().instance_id(), rightmost);
    assert_eq!(game.use_hero_ability(), Err(CombatError::AbilityAlreadyUsed));
    game.end_player_turn();
    game.execute_all_enemy_turns();
    game.start_player_turn();
    assert!(game
        .hand()
        .iter()
        .any(|c| c.instance_id() == rightmost && c.is_upgraded() && c.name() == format!("{}+", rightmost_name)));
}

#[test]
fn ledger_stays_in_range() {
    let mut s = BaseState::new("Target".to_string(), 20);
    s.set_block(-5);
    assert_eq!(s.get_block(), 0);
    s.set_health(50);
    assert_eq!(s.get_current_health(), 20);
    s.set_health(-3);
    assert_eq!(s.get_current_health(), 0);
    assert!(!s.is_alive());
    let mut game = GameState::new(hero("Hero", 30), vec![dragonling()]);
    game.gain_block(EntityId::Player, 4);
    game.deal_damage(EntityId::Enemy(0), EntityId::Player, 1000);
    assert_eq!(game.player().get_block(), 0);
    assert_eq!(game.player().get_current_health(), 0);
    game.gain_block(EntityId::Player, i32::MAX);
    game.gain_block(EntityId::Player, i32::MAX);
    assert_eq!(game.player().get_block(), i32::MAX);
}

#[test]
fn statuses_are_pruned_and_merged() {
    let mut s = BaseState::new("Target".to_string(), 20);
    s.add_status(StatusType::Weak, 2);
    s.add_status(StatusType::Weak, 1);
    assert_eq!(s.get_status(&StatusType::Weak), 3);
    s.add_status(StatusType::Strength, -2);
    assert_eq!(s.get_status(&StatusType::Strength), 0);
    assert_eq!(s.get_all_statuses().len(), 1);
    s.reduce_status(StatusType::Weak, 5);
    assert_eq!(s.get_status(&StatusType::Weak), 0);
    assert!(s.get_all_statuses().is_empty());
    s.add_status(StatusType::Vulnerable, 1);
    s.add_status(StatusType::Poison, 3);
    s.decay_debuffs();
    assert_eq!(s.get_status(&StatusType::Vulnerable), 0);
    assert_eq!(s.get_status(&StatusType::Poison), 3);
    s.add_modifier(Modifier::RetainHand);
    assert!(s.has_modifier(&Modifier::RetainHand));
    s.remove_modifier(&Modifier::RetainHand);
    assert!(!s.has_modifier(&Modifier::RetainHand));
}

#[test]
fn reshuffle_moves_discard_into_draw() {
    let mut game = GameState::new(hero("Hero", 100), vec![dragonling()]);
    game.add_card_to_discard(plain_card(1, false));
    game.add_card_to_discard(plain_card(2, false));
    game.add_card_to_discard(plain_card(3, false));
    let drawn = game.draw_card().unwrap();
    assert!(game.discard_pile().is_empty());
    assert_eq!(game.draw_pile().len(), 2);
    let mut ids: Vec<u32> = game.draw_pile().iter().map(|c| c.instance_id()).collect();
    ids.push(drawn.instance_id());
    ids.sort();
    assert_eq!(ids, vec![1, 2, 3]);
}

#[test]
fn drawing_from_two_empty_piles_yields_nothing() {
    let mut game = GameState::new(hero("Hero", 100), vec![dragonling()]);
    assert!(game.draw_card().is_none());
    game.draw_cards(5);
    assert!(game.hand().is_empty());
}

#[test]
fn exhaust_and_discard_routing() {
    let mut game = GameState::new(hero("Hero", 100), vec![dragonling()]);
    game.add_card_to_hand(plain_card(1, true));
    game.add_card_to_hand(plain_card(2, false));
    game.play_card(0, None).unwrap();
    assert_eq!(game.exhaust_pile().len(), 1);
    assert_eq!(game.exhaust_pile()[0].instance_id(), 1);
    assert!(game.discard_pile().is_empty());
    game.play_card(0, None).unwrap();
    assert_eq!(game.exhaust_pile().len(), 1);
    assert_eq!(game.discard_pile()[0].instance_id(), 2);
}

#[test]
fn sweep_twice_equals_sweep_once() {
    let mut game = GameState::new(hero("Hero", 100), vec![dragonling(), dragonling(), dragonling()]);
    game.deal_damage(EntityId::Player, EntityId::Enemy(1), 999);
    game.remove_dead_enemies();
    assert_eq!(game.enemies().len(), 2);
    game.remove_dead_enemies();
    assert_eq!(game.enemies().len(), 2);
    assert_eq!(game.living_enemy_count(), 2);
}

#[test]
fn play_card_errors() {
    let mut game = GameState::new(hero("Hero", 100), vec![dragonling()]);
    game.start_player_turn();
    assert_eq!(game.play_card(0, None), Err(CombatError::IndexOutOfBounds));
    game.add_card_to_hand(strike(1, false, &strike_data()));
    assert_eq!(game.play_card(0, None), Err(CombatError::TargetRequired));
    assert_eq!(game.play_card(0, Some(EntityId::Player)), Err(CombatError::TargetRequired));
    assert_eq!(game.play_card(0, Some(EntityId::Enemy(4))), Err(CombatError::InvalidTarget));
    game.player_mut().spend_energy(3);
    assert_eq!(
        game.play_card(0, Some(EntityId::Enemy(0))),
        Err(CombatError::NotEnoughEnergy { need: 1, have: 0 })
    );
    assert_eq!(game.hand().len(), 1);
    let unplayable = Card::new(
        9,
        "curse".to_string(),
        "Curse".to_string(),
        Cost::Unplayable,
        CardType::Skill,
        CardTargeting::NoTarget,
        Vec::new(),
        "Unplayable.".to_string(),
        false,
        None,
        false,
    );
    game.add_card_to_hand(unplayable);
    assert_eq!(game.play_card(1, None), Err(CombatError::Unplayable));
    assert!(unplayable_message_is_text());
}

fn unplayable_message_is_text() -> bool {
    CombatError::NotEnoughEnergy { need: 2, have: 1 }.message() == "Not enough energy: need 2, have 1"
}

#[test]
fn actions_after_combat_end_are_refused() {
    let mut game = GameState::new(hero("Hero", 100), vec![dragonling()]);
    game.start_player_turn();
    game.add_card_to_hand(defend(1, false, &defend_data()));
    game.deal_damage(EntityId::Player, EntityId::Enemy(0), 999);
    assert_eq!(game.play_card(0, None), Err(CombatError::CombatOver));
    assert_eq!(game.use_hero_ability(), Err(CombatError::CombatOver));
}

#[test]
fn hero_ability_errors() {
    let mut game = GameState::new(hero("Hero", 100), vec![dragonling()]);
    game.start_player_turn();
    assert_eq!(game.use_hero_ability(), Err(CombatError::EmptyHand));
    game.add_card_to_hand(plain_card(1, false));
    game.player_mut().spend_energy(3);
    assert_eq!(
        game.use_hero_ability(),
        Err(CombatError::NotEnoughEnergy { need: 1, have: 0 })
    );
}

#[test]
fn ritual_and_energy_effects() {
    let mut game = GameState::new(hero("Hero", 100), vec![dragonling()]);
    game.add_effect(EntityId::Player, Effect::Ritual(Ritual { amount: 2 }));
    game.add_effect(EntityId::Player, Effect::EnergyNextTurn(EnergyNextTurnEffect::new(2)));
    game.end_player_turn();
    assert_eq!(game.player().get_status(&StatusType::Strength), 2);
    game.start_player_turn();
    assert_eq!(game.player().get_energy(), 5);
    assert_eq!(game.effects().len(), 1);
    game.end_player_turn();
    assert_eq!(game.player().get_status(&StatusType::Strength), 4);
}

#[test]
fn quick_strike_and_barricade() {
    let qs = CardConfigs {
        regular: QuickStrikeConfig {
            name: "Quick Strike".to_string(),
            cost: 1,
            damage: 4,
            energy_next_turn: 1,
            description: "Deal {damage} damage. Next turn gain {energy} energy.".to_string(),
        },
        upgraded: QuickStrikeConfig {
            name: "Quick Strike+".to_string(),
            cost: 1,
            damage: 7,
            energy_next_turn: 1,
            description: "Deal {damage} damage. Next turn gain {energy} energy.".to_string(),
        },
    };
    let bar = CardConfigs {
        regular: BarricadeConfig {
            name: "Barricade".to_string(),
            cost: 3,
            description: "Block is not removed at the start of your turn.".to_string(),
        },
        upgraded: BarricadeConfig {
            name: "Barricade+".to_string(),
            cost: 2,
            description: "Block is not removed at the start of your turn.".to_string(),
        },
    };
    let card = quick_strike(1, false, &qs);
    assert_eq!(card.description(), "Deal 4 damage. Next turn gain 1 energy.");
    let mut game = GameState::new(hero("Hero", 100), vec![dragonling()]);
    game.start_player_turn();
    game.add_card_to_hand(card);
    game.play_card(0, Some(EntityId::Enemy(0))).unwrap();
    assert_eq!(game.enemies()[0].get_current_health(), 46);
    game.add_card_to_hand(barricade(2, false, &bar));
    assert!(game.play_card(0, None).is_err());
    game.end_player_turn();
    game.execute_all_enemy_turns();
    game.start_player_turn();
    assert_eq!(game.player().get_energy(), 4);
    game.add_card_to_hand(barricade(3, true, &bar));
    game.play_card(game.hand().len() - 1, None).unwrap();
    assert!(game.player().has_modifier(&Modifier::RetainBlock));
    game.gain_block(EntityId::Player, 6);
    game.end_player_turn();
    game.start_player_turn();
    assert_eq!(game.player().get_block(), 6);
}

#[test]
fn dragonling_behaviour_cycle() {
    let d = Dragonling::new("Dragonling".to_string(), 50);
    assert_eq!(d.get_intent(0).description(), "Attack for 8");
    assert_eq!(d.get_intent(1).description(), "Gain 6 Block");
    assert_eq!(d.get_intent(2).description(), "Attack for 6");
    assert_eq!(d.get_intent(7).description(), "Attack for 6");
    assert_eq!(d.get_intent(4).actions()[0], Action::Damage(DamageEffect { amount: 8 }));
    let mut game = GameState::new(hero("Hero", 100), vec![dragonling()]);
    game.execute_all_enemy_turns();
    assert_eq!(game.player().get_current_health(), 92);
    assert_eq!(game.get_turn_count(), 1);
    assert_eq!(game.current_turn_record().enemy_intents.len(), 1);
    game.execute_all_enemy_turns();
    assert_eq!(game.enemies()[0].get_block(), 6);
}

#[test]
fn poison_ticks_then_decays() {
    let mut game = GameState::new(hero("Hero", 100), vec![dragonling()]);
    game.add_status(EntityId::Player, StatusType::Poison, 3);
    game.start_player_turn();
    assert_eq!(game.player().get_current_health(), 97);
    assert_eq!(game.player().get_status(&StatusType::Poison), 2);
    game.add_status(EntityId::Enemy(0), StatusType::Poison, 4);
    game.process_enemy_turn_start(0);
    assert_eq!(game.enemies()[0].get_current_health(), 46);
    assert_eq!(game.enemies()[0].get_status(&StatusType::Poison), 3);
}

#[test]
fn action_descriptions() {
    assert_eq!(Action::Damage(DamageEffect { amount: 6 }).description(), "Deal 6 damage");
    assert_eq!(Effect::Ritual(Ritual { amount: 2 }).ui_state().description, "At end of turn gain 2 Strength");
    let w = whirlwind(1, false, &whirlwind_data());
    assert_eq!(w.get_current_cost().unwrap(), None);
    assert_eq!(w.description(), "Deal 5 damage to ALL enemies X times.");
    let i = inflame(2, true, &inflame_data());
    assert_eq!(i.name(), "Inflame+");
    let h = haste(3, false, &haste_data());
    assert_eq!(h.effects().len(), 2);
}

#[test]
fn player_energy_rules() {
    let mut p = Player::new(STSClass::Ironclad, "Hero".to_string(), 10);
    p.spend_energy(5);
    assert_eq!(p.get_energy(), 0);
    p.gain_energy(2);
    assert_eq!(p.get_energy(), 2);
    p.refill_energy();
    assert_eq!(p.get_energy(), p.get_max_energy());
}

#[test]
fn stale_enemy_slot_is_a_no_op() {
    let mut game = GameState::new(hero("Hero", 100), vec![dragonling()]);
    let amount = game.deal_damage(EntityId::Player, EntityId::Enemy(3), 7);
    assert_eq!(amount, 7);
    game.add_status(EntityId::Enemy(3), StatusType::Weak, 2);
    game.gain_block(EntityId::Enemy(3), 5);
    assert_eq!(game.enemies().len(), 1);
    assert_eq!(game.enemies()[0].get_current_health(), 50);
    assert_eq!(game.enemies()[0].get_block(), 0);
    assert_eq!(game.player().get_current_health(), 100);
}

#[test]
fn hand_index_operations_ignore_bad_indices() {
    let mut game = GameState::new(hero("Hero", 100), vec![dragonling()]);
    game.add_card_to_hand(plain_card(1, false));
    game.add_card_to_hand(plain_card(2, false));
    assert_eq!(game.discard_from_hand(5), None);
    assert_eq!(game.exhaust_from_hand(5), None);
    assert!(game.remove_from_hand(5).is_none());
    assert_eq!(game.hand().len(), 2);
    assert_eq!(game.exhaust_from_hand(0), Some(1));
    assert_eq!(game.discard_from_hand(0), Some(2));
    assert!(game.hand().is_empty());
    assert_eq!(game.exhaust_pile().len(), 1);
    assert_eq!(game.discard_pile().len(), 1);
    assert_eq!(game.find_in_hand(|c| c.instance_id() == 1), None);
}

#[test]
fn seeded_shuffles_repeat() {
    let deck = |_: ()| -> Vec<Card> { (1..=20).map(|i| plain_card(i, false)).collect() };
    let a = GameState::new_with_deck_seeded(hero("Hero", 100), vec![dragonling()], deck(()), 42);
    let b = GameState::new_with_deck_seeded(hero("Hero", 100), vec![dragonling()], deck(()), 42);
    let order_a: Vec<u32> = a.draw_pile().iter().map(|c| c.instance_id()).collect();
    let order_b: Vec<u32> = b.draw_pile().iter().map(|c| c.instance_id()).collect();
    assert_eq!(order_a, order_b);
    let mut sorted = order_a.clone();
    sorted.sort();
    assert_eq!(sorted, (1..=20).collect::<Vec<u32>>());
}
