use spire_combat::card_library::{
    defend, haste, inflame, strike, whirlwind, CardConfigs, DefendConfig, HasteConfig,
    InflameConfig, StrikeConfig, WhirlwindConfig,
};
use spire_combat::enemy::{Dragonling, Enemy};
use spire_combat::game_state::{EntityId, GameState};
use spire_combat::ledger::{State, StatusType};
use spire_combat::player::{Player, STSClass};

#[allow(dead_code)]
fn strike_data() -> CardConfigs<StrikeConfig> {
    CardConfigs {
        regular: StrikeConfig {
            name: "Strike".to_string(),
            cost: 1,
            damage: 6,
            description: "Deal {} damage.".to_string(),
        },
        upgraded: StrikeConfig {
            name: "Strike+".to_string(),
            cost: 1,
            damage: 9,
            description: "Deal {} damage.".to_string(),
        },
    }
}

#[allow(dead_code)]
fn defend_data() -> CardConfigs<DefendConfig> {
    CardConfigs {
        regular: DefendConfig {
            name: "Defend".to_string(),
            cost: 1,
            block: 5,
            description: "Gain {} Block.".to_string(),
        },
        upgraded: DefendConfig {
            name: "Defend+".to_string(),
            cost: 1,
            block: 12,
            description: "Gain {} Block.".to_string(),
        },
    }
}

#[allow(dead_code)]
fn inflame_data() -> CardConfigs<InflameConfig> {
    CardConfigs {
        regular: InflameConfig {
            name: "Inflame".to_string(),
            cost: 1,
            strength: 2,
            description: "Gain {} Strength.".to_string(),
        },
        upgraded: InflameConfig {
            name: "Inflame+".to_string(),
            cost: 1,
            strength: 3,
            description: "Gain {} Strength.".to_string(),
        },
    }
}

#[allow(dead_code)]
fn whirlwind_data() -> CardConfigs<WhirlwindConfig> {
    CardConfigs {
        regular: WhirlwindConfig {
            name: "Whirlwind".to_string(),
            damage_per_energy: 5,
            description: "Deal {} damage to ALL enemies X times.".to_string(),
        },
        upgraded: WhirlwindConfig {
            name: "Whirlwind+".to_string(),
            damage_per_energy: 8,
            description: "Deal {} damage to ALL enemies X times.".to_string(),
        },
    }
}

#[allow(dead_code)]
fn haste_data() -> CardConfigs<HasteConfig> {
    CardConfigs {
        regular: HasteConfig {
            name: "Haste".to_string(),
            cost: 0,
            draw: 2,
            vulnerable: 1,
            description: "Draw {draw} cards. Apply {vulnerable} Vulnerable.".to_string(),
        },
        upgraded: HasteConfig {
            name: "Haste+".to_string(),
            cost: 0,
            draw: 3,
            vulnerable: 2,
            description: "Draw {draw} cards. Apply {vulnerable} Vulnerable.".to_string(),
        },
    }
}

#[allow(dead_code)]
fn dragonling() -> Enemy {
    Enemy::dragonling(Dragonling::new("Dragonling".to_string(), 50))
}

#[allow(dead_code)]
fn hero(name: &str, health: i32) -> Player {
    Player::new(STSClass::Ironclad, name.to_string(), health)
}

use spire_combat::card::upgrade_card;

#[test]
fn test_complete_combat_scenario() {
    let player = hero("Hero", 80);
    let mut starting_deck = Vec::new();
    for i in 0..5 {
        starting_deck.push(strike(i, false, &strike_data()));
    }
    for i in 5..10 {
        starting_deck.push(defend(i, false, &defend_data()));
    }

    let enemies = vec![dragonling(), dragonling()];

    let mut game = GameState::new_with_deck(player, enemies, starting_deck);

    assert_eq!(game.player().get_current_health(), 80);
    assert_eq!(game.enemies().len(), 2);
    assert!(!game.is_combat_over());

    game.start_player_turn();
    assert_eq!(game.hand().len(), 5);
    assert_eq!(game.player().get_energy(), 3);

    if let Some(strike_idx) = game.hand().iter().position(|c| c.id() == "strike") {
        game.play_card(strike_idx, Some(EntityId::Enemy(0))).unwrap();
        assert!(game.enemies()[0].get_current_health() < 50);
    }

    game.end_player_turn();
    game.execute_all_enemy_turns();

    assert!(game.player().get_current_health() <= 80);

    game.start_player_turn();

    assert!(!game.is_combat_over());
    assert_eq!(game.living_enemy_count(), 2);
}

#[test]
fn test_victory_condition() {
    let mut game = GameState::new(hero("Hero", 100), vec![dragonling()]);

    assert!(!game.is_combat_over());

    game.deal_damage(EntityId::Player, EntityId::Enemy(0), 50);

    assert!(game.is_combat_over());
    assert!(game.are_all_enemies_dead());
    assert!(!game.is_player_dead());
}

#[test]
fn test_defeat_condition() {
    let mut game = GameState::new(hero("Hero", 10), vec![dragonling()]);

    assert!(!game.is_combat_over());

    game.deal_damage(EntityId::Enemy(0), EntityId::Player, 20);

    assert!(game.is_combat_over());
    assert!(!game.are_all_enemies_dead());
    assert!(game.is_player_dead());
}

#[test]
fn test_upgrade_system_in_combat() {
    let mut game = GameState::new(hero("Hero", 100), vec![dragonling()]);

    game.start_player_turn();

    let strike_regular = strike(100, false, &strike_data());
    let strike_upgraded = upgrade_card(strike_regular);

    assert!(strike_upgraded.is_upgraded());

    game.add_card_to_hand(strike(101, false, &strike_data()));
    game.add_card_to_hand(strike(102, true, &strike_data()));

    let enemy_hp = game.enemies()[0].get_current_health();

    game.play_card(0, Some(EntityId::Enemy(0))).unwrap();
    let damage1 = enemy_hp - game.enemies()[0].get_current_health();

    let enemy_hp2 = game.enemies()[0].get_current_health();
    game.play_card(0, Some(EntityId::Enemy(0))).unwrap();
    let damage2 = enemy_hp2 - game.enemies()[0].get_current_health();

    assert!(damage2 > damage1);
}

#[test]
fn test_multi_turn_status_effects() {
    let mut game = GameState::new(hero("Hero", 100), vec![dragonling()]);

    game.start_player_turn();
    game.add_status(EntityId::Player, StatusType::Strength, 2);

    assert_eq!(game.player().get_status(&StatusType::Strength), 2);

    game.add_status(EntityId::Enemy(0), StatusType::Vulnerable, 1);
    assert_eq!(game.enemies()[0].get_status(&StatusType::Vulnerable), 1);

    game.end_player_turn();
    game.execute_all_enemy_turns();

    assert_eq!(game.player().get_status(&StatusType::Strength), 2);
}
