//! Drives the battle domain end to end: starter menus for both players in
//! order, the on-enter hooks, and the main turn loop.

use std::rc::Rc;

use simtree::ability::Ability;
use simtree::pokemon::{
    AllowedGenders, Gender, MoveSet, PokeMove, PokeType, Pokemon, PokemonForm, PokemonSpecies,
    Stats, Team,
};
use simtree::single::{Player, State};
use simtree::state::{PlayerBase, StateBase};

fn flat_stats() -> Stats {
    Stats {
        hp: 10,
        attack: 10,
        defense: 10,
        special_attack: 10,
        special_defense: 10,
        speed: 10,
    }
}

fn monster(species_name: &str, nickname: Option<&str>, move_names: &[&str], hp: u32) -> Pokemon {
    let species = Rc::new(PokemonSpecies {
        national_dex_no: 1,
        name: species_name.to_string(),
        forms: vec![],
    });
    let form = Rc::new(PokemonForm {
        species,
        name: None,
        types: vec![PokeType::Normal],
        genders: AllowedGenders::MaleOrFemale,
        base_stats: flat_stats(),
    });
    let mut moves = MoveSet::new();
    for m in move_names {
        moves.push(PokeMove { name: m.to_string() });
    }
    Pokemon {
        form,
        nickname: nickname.map(|n| n.to_string()),
        gender: Gender::Male,
        moves,
        ev: flat_stats(),
        iv: flat_stats(),
        ability: Ability::Inert,
        current_hp: hp,
    }
}

fn roster(names: &[&str]) -> Team {
    let mut t = Team::new();
    for n in names {
        t.push(monster(n, None, &["Tackle"], 10));
    }
    t
}

const SIX: [&str; 6] = ["Ember", "Splash", "Vine", "Bolt", "Gale", "Stone"];

#[test]
fn six_slot_roster_menu_is_indexed_in_encounter_order() {
    let n = State::start(roster(&SIX), roster(&SIX));
    assert!(n.is_decision());
    assert_eq!(n.name().as_str(), "Choose your active pokemon");
    assert_eq!(n.decision_player(), Player::Player1);
    assert_eq!(n.num_branches(), 6);
    for (i, name) in SIX.iter().enumerate() {
        assert_eq!(n.branch_name(i).as_str(), *name);
    }
}

#[test]
fn resolving_slot_two_records_index_two_on_the_same_state() {
    let n = State::start(roster(&SIX), roster(&SIX));
    let after_p1 = n.resolve(2);
    assert!(after_p1.is_decision());
    assert_eq!(after_p1.decision_player(), Player::Player2);
    assert_eq!(after_p1.name().as_str(), "Choose your active pokemon");
    assert_eq!(after_p1.num_branches(), 6);
    let s = after_p1.into_state();
    assert_eq!(s.player(Player::Player1).active_pokemon_idx, Some(2));
    assert_eq!(s.player(Player::Player2).active_pokemon_idx, None);
}

#[test]
fn both_starters_chosen_leads_into_the_action_menu() {
    let n = State::start(roster(&SIX), roster(&SIX));
    let turn = n.resolve(2).resolve(4);
    assert!(turn.is_decision());
    assert_eq!(turn.name().as_str(), "Choose your action");
    assert_eq!(turn.decision_player(), Player::Player1);
    // One known move plus five conscious teammates to switch to.
    assert_eq!(turn.num_branches(), 6);
    assert_eq!(turn.branch_name(0).as_str(), "Tackle");
    assert_eq!(turn.branch_name(1).as_str(), "Ember");
    assert_eq!(turn.branch_name(2).as_str(), "Splash");
    assert_eq!(turn.branch_name(3).as_str(), "Bolt");
}

#[test]
fn the_turn_loop_asks_both_players_then_starts_over() {
    let n = State::start(roster(&SIX), roster(&SIX));
    let p1_menu = n.resolve(0).resolve(0);
    let p2_menu = p1_menu.resolve(0);
    assert!(p2_menu.is_decision());
    assert_eq!(p2_menu.decision_player(), Player::Player2);
    assert_eq!(p2_menu.name().as_str(), "Choose your action");
    let next_turn = p2_menu.resolve(1);
    assert!(next_turn.is_decision());
    assert_eq!(next_turn.decision_player(), Player::Player1);
    assert_eq!(next_turn.name().as_str(), "Choose your action");
    let s = next_turn.into_state();
    assert!(s.player(Player::Player1).turn_action.is_some());
    assert!(s.player(Player::Player2).turn_action.is_some());
}

#[test]
fn fainted_teammates_offer_no_switch() {
    let mut t1 = Team::new();
    t1.push(monster("Lead", None, &["Tackle", "Growl"], 10));
    t1.push(monster("Fainted", None, &["Tackle"], 0));
    t1.push(monster("Backup", None, &["Tackle"], 3));
    let n = State::start(t1, roster(&["Solo"]));
    let turn = n.resolve(0).resolve(0);
    assert!(turn.is_decision());
    // Two moves, and only the conscious teammate as a switch.
    assert_eq!(turn.num_branches(), 3);
    assert_eq!(turn.branch_name(0).as_str(), "Tackle");
    assert_eq!(turn.branch_name(1).as_str(), "Growl");
    assert_eq!(turn.branch_name(2).as_str(), "Backup");
}

#[test]
fn battle_players_enumerate_in_decision_order() {
    assert_eq!(Player::values(), vec![Player::Player1, Player::Player2]);
}
