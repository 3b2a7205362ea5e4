use spire_combat::card_library::{
    defend, haste, inflame, strike, whirlwind, CardConfigs, DefendConfig, HasteConfig,
    InflameConfig, StrikeConfig, WhirlwindConfig,
};
use spire_combat::enemy::{Dragonling, Enemy};
use spire_combat::game_state::{EntityId, GameState};
use spire_combat::ledger::{State, StatusType};
use spire_combat::player::{Player, STSClass};

#[allow(dead_code)]
fn strike_data() -> CardConfigs<StrikeConfig> {
    CardConfigs {
        regular: StrikeConfig {
            name: "Strike".to_string(),
            cost: 1,
            damage: 6,
            description: "Deal {} damage.".to_string(),
        },
        upgraded: StrikeConfig {
            name: "Strike+".to_string(),
            cost: 1,
            damage: 9,
            description: "Deal {} damage.".to_string(),
        },
    }
}

#[allow(dead_code)]
fn defend_data() -> CardConfigs<DefendConfig> {
    CardConfigs {
        regular: DefendConfig {
            name: "Defend".to_string(),
            cost: 1,
            block: 5,
            description: "Gain {} Block.".to_string(),
        },
        upgraded: DefendConfig {
            name: "Defend+".to_string(),
            cost: 1,
            block: 12,
            description: "Gain {} Block.".to_string(),
        },
    }
}

#[allow(dead_code)]
fn inflame_data() -> CardConfigs<InflameConfig> {
    CardConfigs {
        regular: InflameConfig {
            name: "Inflame".to_string(),
            cost: 1,
            strength: 2,
            description: "Gain {} Strength.".to_string(),
        },
        upgraded: InflameConfig {
            name: "Inflame+".to_string(),
            cost: 1,
            strength: 3,
            description: "Gain {} Strength.".to_string(),
        },
    }
}

#[allow(dead_code)]
fn whirlwind_data() -> CardConfigs<WhirlwindConfig> {
    CardConfigs {
        regular: WhirlwindConfig {
            name: "Whirlwind".to_string(),
            damage_per_energy: 5,
            description: "Deal {} damage to ALL enemies X times.".to_string(),
        },
        upgraded: WhirlwindConfig {
            name: "Whirlwind+".to_string(),
            damage_per_energy: 8,
            description: "Deal {} damage to ALL enemies X times.".to_string(),
        },
    }
}

#[allow(dead_code)]
fn haste_data() -> CardConfigs<HasteConfig> {
    CardConfigs {
        regular: HasteConfig {
            name: "Haste".to_string(),
            cost: 0,
            draw: 2,
            vulnerable: 1,
            description: "Draw {draw} cards. Apply {vulnerable} Vulnerable.".to_string(),
        },
        upgraded: HasteConfig {
            name: "Haste+".to_string(),
            cost: 0,
            draw: 3,
            vulnerable: 2,
            description: "Draw {draw} cards. Apply {vulnerable} Vulnerable.".to_string(),
        },
    }
}

#[allow(dead_code)]
fn dragonling() -> Enemy {
    Enemy::dragonling(Dragonling::new("Dragonling".to_string(), 50))
}

#[allow(dead_code)]
fn hero(name: &str, health: i32) -> Player {
    Player::new(STSClass::Ironclad, name.to_string(), health)
}

#[test]
fn test_energy_system() {
    let mut game = GameState::new(hero("TestHero", 100), vec![dragonling()]);

    game.start_player_turn();
    assert_eq!(game.player().get_energy(), 3);

    game.add_card_to_hand(strike(100, false, &strike_data()));
    game.play_card(0, Some(EntityId::Enemy(0))).unwrap();

    assert_eq!(game.player().get_energy(), 2);
}

#[test]
fn test_insufficient_energy() {
    let mut game = GameState::new(hero("TestHero", 100), vec![dragonling()]);

    game.start_player_turn();
    game.player_mut().spend_energy(3);

    game.add_card_to_hand(strike(100, false, &strike_data()));

    let result = game.play_card(0, Some(EntityId::Enemy(0)));
    assert!(result.is_err());
}

#[test]
fn test_block_absorbs_damage() {
    let mut game = GameState::new(hero("TestHero", 100), vec![dragonling()]);

    game.start_player_turn();
    game.add_card_to_hand(defend(100, false, &defend_data()));
    game.play_card(0, None).unwrap();

    assert_eq!(game.player().get_block(), 5);

    game.deal_damage(EntityId::Enemy(0), EntityId::Player, 3);

    assert_eq!(game.player().get_block(), 2);
    assert_eq!(game.player().get_current_health(), 100);
}

#[test]
fn test_damage_exceeds_block() {
    let mut game = GameState::new(hero("TestHero", 100), vec![dragonling()]);

    game.start_player_turn();
    game.add_card_to_hand(defend(100, false, &defend_data()));
    game.play_card(0, None).unwrap();

    assert_eq!(game.player().get_block(), 5);

    game.deal_damage(EntityId::Enemy(0), EntityId::Player, 10);

    assert_eq!(game.player().get_block(), 0);
    assert_eq!(game.player().get_current_health(), 95);
}

#[test]
fn test_draw_and_discard() {
    let deck = vec![
        strike(1, false, &strike_data()),
        strike(2, false, &strike_data()),
        defend(3, false, &defend_data()),
    ];
    let mut game = GameState::new_with_deck(hero("TestHero", 100), vec![dragonling()], deck);

    assert_eq!(game.draw_pile().len(), 3);
    assert_eq!(game.hand().len(), 0);

    game.start_player_turn();

    assert_eq!(game.hand().len(), 3);
    assert_eq!(game.draw_pile().len(), 0);

    game.end_player_turn();

    assert_eq!(game.hand().len(), 0);
    assert_eq!(game.discard_pile().len(), 3);
}

#[test]
fn test_shuffle_when_draw_pile_empty() {
    let deck = vec![strike(1, false, &strike_data()), strike(2, false, &strike_data())];
    let mut game = GameState::new_with_deck(hero("TestHero", 100), vec![dragonling()], deck);

    game.start_player_turn();
    assert_eq!(game.hand().len(), 2);

    game.end_player_turn();
    game.execute_all_enemy_turns();

    game.start_player_turn();
    assert_eq!(game.hand().len(), 2);
}

#[test]
fn test_vulnerable_increases_damage() {
    let mut game = GameState::new(hero("TestHero", 100), vec![dragonling()]);

    game.deal_damage(EntityId::Player, EntityId::Enemy(0), 10);
    assert_eq!(game.enemies()[0].get_current_health(), 40);

    game.add_status(EntityId::Enemy(0), StatusType::Vulnerable, 1);

    game.deal_damage(EntityId::Player, EntityId::Enemy(0), 10);
    assert_eq!(game.enemies()[0].get_current_health(), 25);
}

#[test]
fn test_weak_reduces_damage() {
    let mut game = GameState::new(hero("TestHero", 100), vec![dragonling()]);

    game.deal_damage(EntityId::Enemy(0), EntityId::Player, 10);
    let hp_after_normal = game.player().get_current_health();
    assert_eq!(hp_after_normal, 90);

    game.add_status(EntityId::Enemy(0), StatusType::Weak, 1);

    game.deal_damage(EntityId::Enemy(0), EntityId::Player, 10);
    let hp_after_weak = game.player().get_current_health();
    assert_eq!(hp_after_weak, 83);
}

#[test]
fn test_strength_increases_damage() {
    let mut game = GameState::new(hero("TestHero", 100), vec![dragonling()]);

    game.add_status(EntityId::Player, StatusType::Strength, 3);

    game.deal_damage(EntityId::Player, EntityId::Enemy(0), 10);
    assert_eq!(game.enemies()[0].get_current_health(), 37);
}

#[test]
fn test_death_removes_enemies() {
    let mut game = GameState::new(hero("TestHero", 100), vec![dragonling(), dragonling()]);

    assert_eq!(game.enemies().len(), 2);

    game.deal_damage(EntityId::Player, EntityId::Enemy(0), 999);
    game.remove_dead_enemies();

    assert_eq!(game.enemies().len(), 1);
    assert_eq!(game.living_enemy_count(), 1);
}

#[test]
fn test_combat_over_when_all_enemies_dead() {
    let mut game = GameState::new(hero("TestHero", 100), vec![dragonling()]);

    assert!(!game.is_combat_over());

    game.deal_damage(EntityId::Player, EntityId::Enemy(0), 999);

    assert!(game.are_all_enemies_dead());
    assert!(game.is_combat_over());
}

#[test]
fn test_combat_over_when_player_dead() {
    let mut game = GameState::new(hero("TestHero", 10), vec![dragonling()]);

    assert!(!game.is_combat_over());

    game.deal_damage(EntityId::Enemy(0), EntityId::Player, 999);

    assert!(game.is_player_dead());
    assert!(game.is_combat_over());
}
