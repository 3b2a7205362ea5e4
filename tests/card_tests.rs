use spire_combat::card_library::{
    defend, haste, inflame, strike, whirlwind, CardConfigs, DefendConfig, HasteConfig,
    InflameConfig, StrikeConfig, WhirlwindConfig,
};
use spire_combat::enemy::{Dragonling, Enemy};
use spire_combat::game_state::{EntityId, GameState};
use spire_combat::ledger::{State, StatusType};
use spire_combat::player::{Player, STSClass};

#[allow(dead_code)]
fn strike_data() -> CardConfigs<StrikeConfig> {
    CardConfigs {
        regular: StrikeConfig {
            name: "Strike".to_string(),
            cost: 1,
            damage: 6,
            description: "Deal {} damage.".to_string(),
        },
        upgraded: StrikeConfig {
            name: "Strike+".to_string(),
            cost: 1,
            damage: 9,
            description: "Deal {} damage.".to_string(),
        },
    }
}

#[allow(dead_code)]
fn defend_data() -> CardConfigs<DefendConfig> {
    CardConfigs {
        regular: DefendConfig {
            name: "Defend".to_string(),
            cost: 1,
            block: 5,
            description: "Gain {} Block.".to_string(),
        },
        upgraded: DefendConfig {
            name: "Defend+".to_string(),
            cost: 1,
            block: 12,
            description: "Gain {} Block.".to_string(),
        },
    }
}

#[allow(dead_code)]
fn inflame_data() -> CardConfigs<InflameConfig> {
    CardConfigs {
        regular: InflameConfig {
            name: "Inflame".to_string(),
            cost: 1,
            strength: 2,
            description: "Gain {} Strength.".to_string(),
        },
        upgraded: InflameConfig {
            name: "Inflame+".to_string(),
            cost: 1,
            strength: 3,
            description: "Gain {} Strength.".to_string(),
        },
    }
}

#[allow(dead_code)]
fn whirlwind_data() -> CardConfigs<WhirlwindConfig> {
    CardConfigs {
        regular: WhirlwindConfig {
            name: "Whirlwind".to_string(),
            damage_per_energy: 5,
            description: "Deal {} damage to ALL enemies X times.".to_string(),
        },
        upgraded: WhirlwindConfig {
            name: "Whirlwind+".to_string(),
            damage_per_energy: 8,
            description: "Deal {} damage to ALL enemies X times.".to_string(),
        },
    }
}

#[allow(dead_code)]
fn haste_data() -> CardConfigs<HasteConfig> {
    CardConfigs {
        regular: HasteConfig {
            name: "Haste".to_string(),
            cost: 0,
            draw: 2,
            vulnerable: 1,
            description: "Draw {draw} cards. Apply {vulnerable} Vulnerable.".to_string(),
        },
        upgraded: HasteConfig {
            name: "Haste+".to_string(),
            cost: 0,
            draw: 3,
            vulnerable: 2,
            description: "Draw {draw} cards. Apply {vulnerable} Vulnerable.".to_string(),
        },
    }
}

#[allow(dead_code)]
fn dragonling() -> Enemy {
    Enemy::dragonling(Dragonling::new("Dragonling".to_string(), 50))
}

#[allow(dead_code)]
fn hero(name: &str, health: i32) -> Player {
    Player::new(STSClass::Ironclad, name.to_string(), health)
}


#[test]
fn test_card_creation() {
    let strike_card = strike(1, false, &strike_data());
    assert_eq!(strike_card.name(), "Strike");
    assert_eq!(strike_card.get_current_cost().unwrap(), Some(1));
    assert!(!strike_card.is_upgraded());
    assert!(!strike_card.exhaust());
}

#[test]
fn test_upgraded_card() {
    let strike_plus = strike(1, true, &strike_data());
    assert_eq!(strike_plus.name(), "Strike+");
    assert!(strike_plus.is_upgraded());
}

#[test]
fn test_strike_deals_damage() {
    let player = hero("TestHero", 100);
    let enemies = vec![dragonling()];
    let mut game = GameState::new(player, enemies);

    game.start_player_turn();
    let strike_card = strike(100, false, &strike_data());
    game.add_card_to_hand(strike_card);

    let enemy_hp_before = game.enemies()[0].get_current_health();
    game.play_card(0, Some(EntityId::Enemy(0))).unwrap();
    let enemy_hp_after = game.enemies()[0].get_current_health();

    assert_eq!(enemy_hp_before - enemy_hp_after, 6);
}

#[test]
fn test_defend_gains_block() {
    let player = hero("TestHero", 100);
    let enemies = vec![dragonling()];
    let mut game = GameState::new(player, enemies);

    game.start_player_turn();
    let defend_card = defend(100, false, &defend_data());
    game.add_card_to_hand(defend_card);

    assert_eq!(game.player().get_block(), 0);
    game.play_card(0, None).unwrap();
    assert_eq!(game.player().get_block(), 5);
}

#[test]
fn test_upgraded_defend_more_block() {
    let player = hero("TestHero", 100);
    let enemies = vec![dragonling()];
    let mut game = GameState::new(player, enemies);

    game.start_player_turn();
    let defend_plus = defend(100, true, &defend_data());
    game.add_card_to_hand(defend_plus);

    game.play_card(0, None).unwrap();
    assert_eq!(game.player().get_block(), 12);
}

#[test]
fn haste_needs_an_enemy_target_and_then_exhausts() {
    let player = hero("TestHero", 100);
    let enemies = vec![dragonling()];
    let mut game = GameState::new(player, enemies);

    game.start_player_turn();
    let haste_card = haste(100, false, &haste_data());
    assert!(haste_card.exhaust());
    game.add_card_to_hand(haste_card);

    assert!(game.play_card(0, None).is_err());
    game.play_card(0, Some(EntityId::Enemy(0))).unwrap();

    assert_eq!(game.exhaust_pile().len(), 1);
    assert_eq!(game.discard_pile().len(), 0);
    assert_eq!(game.enemies()[0].get_status(&StatusType::Vulnerable), 1);
}

#[test]
fn test_x_cost_whirlwind() {
    let player = hero("TestHero", 100);
    let enemies = vec![dragonling(), dragonling()];
    let mut game = GameState::new(player, enemies);

    game.start_player_turn();
    let whirlwind_card = whirlwind(100, false, &whirlwind_data());
    game.add_card_to_hand(whirlwind_card);

    let energy_before = game.player().get_energy();
    game.play_card(0, None).unwrap();

    assert_eq!(game.player().get_energy(), 0);
    assert_eq!(game.enemies()[0].get_current_health(), 50 - (5 * energy_before));
    assert_eq!(game.enemies()[1].get_current_health(), 50 - (5 * energy_before));
}

#[test]
fn test_card_targeting() {
    let player = hero("TestHero", 100);
    let enemies = vec![dragonling(), dragonling()];
    let mut game = GameState::new(player, enemies);

    game.start_player_turn();
    let strike_card = strike(100, false, &strike_data());
    game.add_card_to_hand(strike_card);

    game.play_card(0, Some(EntityId::Enemy(0))).unwrap();

    assert_eq!(game.enemies()[0].get_current_health(), 44);
    assert_eq!(game.enemies()[1].get_current_health(), 50);
}

#[test]
fn card_descriptions_fill_their_numbers() {
    let s = strike(1, false, &strike_data());
    assert_eq!(s.description(), "Deal 6 damage.");
    let h = haste(2, true, &haste_data());
    assert_eq!(h.description(), "Draw 3 cards. Apply 2 Vulnerable.");
    let i = inflame(3, false, &inflame_data());
    assert_eq!(i.description(), "Gain 2 Strength.");
}
