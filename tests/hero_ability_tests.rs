use spire_combat::card_library::{
    defend, haste, inflame, strike, whirlwind, CardConfigs, DefendConfig, HasteConfig,
    InflameConfig, StrikeConfig, WhirlwindConfig,
};
use spire_combat::enemy::{Dragonling, Enemy};
use spire_combat::game_state::{EntityId, GameState};
use spire_combat::ledger::{State, StatusType};
use spire_combat::player::{Player, STSClass};

#[allow(dead_code)]
fn strike_data() -> CardConfigs<StrikeConfig> {
    CardConfigs {
        regular: StrikeConfig {
            name: "Strike".to_string(),
            cost: 1,
            damage: 6,
            description: "Deal {} damage.".to_string(),
        },
        upgraded: StrikeConfig {
            name: "Strike+".to_string(),
            cost: 1,
            damage: 9,
            description: "Deal {} damage.".to_string(),
        },
    }
}

#[allow(dead_code)]
fn defend_data() -> CardConfigs<DefendConfig> {
    CardConfigs {
        regular: DefendConfig {
            name: "Defend".to_string(),
            cost: 1,
            block: 5,
            description: "Gain {} Block.".to_string(),
        },
        upgraded: DefendConfig {
            name: "Defend+".to_string(),
            cost: 1,
            block: 12,
            description: "Gain {} Block.".to_string(),
        },
    }
}

#[allow(dead_code)]
fn inflame_data() -> CardConfigs<InflameConfig> {
    CardConfigs {
        regular: InflameConfig {
            name: "Inflame".to_string(),
            cost: 1,
            strength: 2,
            description: "Gain {} Strength.".to_string(),
        },
        upgraded: InflameConfig {
            name: "Inflame+".to_string(),
            cost: 1,
            strength: 3,
            description: "Gain {} Strength.".to_string(),
        },
    }
}

#[allow(dead_code)]
fn whirlwind_data() -> CardConfigs<WhirlwindConfig> {
    CardConfigs {
        regular: WhirlwindConfig {
            name: "Whirlwind".to_string(),
            damage_per_energy: 5,
            description: "Deal {} damage to ALL enemies X times.".to_string(),
        },
        upgraded: WhirlwindConfig {
            name: "Whirlwind+".to_string(),
            damage_per_energy: 8,
            description: "Deal {} damage to ALL enemies X times.".to_string(),
        },
    }
}

#[allow(dead_code)]
fn haste_data() -> CardConfigs<HasteConfig> {
    CardConfigs {
        regular: HasteConfig {
            name: "Haste".to_string(),
            cost: 0,
            draw: 2,
            vulnerable: 1,
            description: "Draw {draw} cards. Apply {vulnerable} Vulnerable.".to_string(),
        },
        upgraded: HasteConfig {
            name: "Haste+".to_string(),
            cost: 0,
            draw: 3,
            vulnerable: 2,
            description: "Draw {draw} cards. Apply {vulnerable} Vulnerable.".to_string(),
        },
    }
}

#[allow(dead_code)]
fn dragonling() -> Enemy {
    Enemy::dragonling(Dragonling::new("Dragonling".to_string(), 50))
}

#[allow(dead_code)]
fn hero(name: &str, health: i32) -> Player {
    Player::new(STSClass::Ironclad, name.to_string(), health)
}

#[test]
fn test_hero_ability_basic() {
    let deck = vec![
        strike(1, false, &strike_data()),
        defend(2, false, &defend_data()),
        inflame(3, false, &inflame_data()),
    ];
    let mut game = GameState::new_with_deck(hero("TestHero", 100), vec![dragonling()], deck);

    game.start_player_turn();

    assert_eq!(game.hand().len(), 3);
    assert_eq!(game.player().get_energy(), 3);
    assert_eq!(game.player().get_current_health(), 100);
    assert!(!game.player().hero_ability_used());

    game.use_hero_ability().unwrap();

    assert_eq!(game.hand().len(), 2);
    assert_eq!(game.player().get_energy(), 2);
    assert_eq!(game.player().get_current_health(), 98);
    assert!(game.player().hero_ability_used());
    assert_eq!(game.exhaust_pile().len(), 1);
}

#[test]
fn test_hero_ability_exhausts_rightmost() {
    let deck = vec![strike(1, false, &strike_data()), defend(2, false, &defend_data())];
    let mut game = GameState::new_with_deck(hero("TestHero", 100), vec![dragonling()], deck);

    game.start_player_turn();

    let rightmost_name = game.hand().last().unwrap().name().to_string();

    game.use_hero_ability().unwrap();

    let exhausted_name = game.exhaust_pile()[0].name().to_string();
    assert_eq!(exhausted_name, rightmost_name);
}

#[test]
fn test_hero_ability_cannot_use_twice() {
    let deck = vec![
        strike(1, false, &strike_data()),
        defend(2, false, &defend_data()),
        inflame(3, false, &inflame_data()),
    ];
    let mut game = GameState::new_with_deck(hero("TestHero", 100), vec![dragonling()], deck);

    game.start_player_turn();

    game.use_hero_ability().unwrap();
    let result = game.use_hero_ability();

    assert!(result.is_err());
}

#[test]
fn test_hero_ability_requires_energy() {
    let deck = vec![strike(1, false, &strike_data())];
    let mut game = GameState::new_with_deck(hero("TestHero", 100), vec![dragonling()], deck);

    game.start_player_turn();
    game.player_mut().spend_energy(3);

    let result = game.use_hero_ability();
    assert!(result.is_err());
}

#[test]
fn test_hero_ability_requires_cards_in_hand() {
    let mut game = GameState::new(hero("TestHero", 100), vec![dragonling()]);

    game.start_player_turn();
    game.discard_hand();

    let result = game.use_hero_ability();
    assert!(result.is_err());
}

#[test]
fn test_hero_ability_adds_upgraded_next_turn() {
    let deck = vec![
        strike(1, false, &strike_data()),
        defend(2, false, &defend_data()),
        inflame(3, false, &inflame_data()),
    ];
    let mut game = GameState::new_with_deck(hero("TestHero", 100), vec![dragonling()], deck);

    game.start_player_turn();

    let rightmost_name = game.hand().last().unwrap().name().to_string();

    game.use_hero_ability().unwrap();

    game.end_player_turn();
    game.execute_all_enemy_turns();
    game.start_player_turn();

    let has_upgraded = game
        .hand()
        .iter()
        .any(|c| c.is_upgraded() && c.name().contains(&rightmost_name));
    assert!(has_upgraded);
}

#[test]
fn test_hero_ability_resets_each_turn() {
    let deck = vec![
        strike(1, false, &strike_data()),
        defend(2, false, &defend_data()),
        inflame(3, false, &inflame_data()),
        strike(4, false, &strike_data()),
    ];
    let mut game = GameState::new_with_deck(hero("TestHero", 100), vec![dragonling()], deck);

    game.start_player_turn();
    game.use_hero_ability().unwrap();
    assert!(game.player().hero_ability_used());

    game.end_player_turn();
    game.execute_all_enemy_turns();
    game.start_player_turn();

    assert!(!game.player().hero_ability_used());

    let result = game.use_hero_ability();
    assert!(result.is_ok());
}
