//! Exact values from the type chart, the gender sets, and the textual
//! renderings of species, forms and combatants.

use std::rc::Rc;

use simtree::ability::Ability;
use simtree::pokemon::{
    AllowedGenders, Gender, MoveSet, PokeType, Pokemon, PokemonForm, PokemonSpecies, Stats,
    TypeEffectiveness,
};

#[test]
fn chart_no_effect_pairs() {
    assert!(PokeType::Normal.effectiveness_on(&PokeType::Phantom) == TypeEffectiveness::NoEffect);
    assert!(PokeType::Electric.effectiveness_on(&PokeType::Ground) == TypeEffectiveness::NoEffect);
    assert!(PokeType::Phantom.effectiveness_on(&PokeType::Normal) == TypeEffectiveness::NoEffect);
    assert!(PokeType::Dragon.effectiveness_on(&PokeType::Fairy) == TypeEffectiveness::NoEffect);
    assert!(PokeType::Psychic.effectiveness_on(&PokeType::Dark) == TypeEffectiveness::NoEffect);
}

#[test]
fn chart_super_effective_pairs() {
    assert!(PokeType::Fire.effectiveness_on(&PokeType::Grass) == TypeEffectiveness::SuperEffective);
    assert!(PokeType::Water.effectiveness_on(&PokeType::Fire) == TypeEffectiveness::SuperEffective);
    assert!(
        PokeType::Fighting.effectiveness_on(&PokeType::Steel) == TypeEffectiveness::SuperEffective
    );
    assert!(PokeType::Bug.effectiveness_on(&PokeType::Dark) == TypeEffectiveness::SuperEffective);
    assert!(
        PokeType::Dragon.effectiveness_on(&PokeType::Dragon) == TypeEffectiveness::SuperEffective
    );
}

#[test]
fn chart_resisted_pairs() {
    assert!(
        PokeType::Water.effectiveness_on(&PokeType::Water) == TypeEffectiveness::NotVeryEffective
    );
    assert!(
        PokeType::Fairy.effectiveness_on(&PokeType::Steel) == TypeEffectiveness::NotVeryEffective
    );
    assert!(
        PokeType::Normal.effectiveness_on(&PokeType::Rock) == TypeEffectiveness::NotVeryEffective
    );
}

#[test]
fn chart_regular_pairs() {
    assert!(PokeType::Normal.effectiveness_on(&PokeType::Fighting) == TypeEffectiveness::Regular);
    assert!(PokeType::Fire.effectiveness_on(&PokeType::Electric) == TypeEffectiveness::Regular);
    assert!(PokeType::Dark.effectiveness_on(&PokeType::Normal) == TypeEffectiveness::Regular);
}

#[test]
fn allowed_genders_enumerate_in_canonical_order() {
    assert!(AllowedGenders::MaleOrFemale.as_slice() == vec![Gender::Male, Gender::Female]);
    assert!(AllowedGenders::MaleOnly.as_slice() == vec![Gender::Male]);
    assert!(AllowedGenders::FemaleOnly.as_slice() == vec![Gender::Female]);
    assert!(AllowedGenders::NoGender.as_slice() == vec![Gender::Genderless]);
}

fn species(name: &str) -> Rc<PokemonSpecies> {
    Rc::new(PokemonSpecies {
        national_dex_no: 6,
        name: name.to_string(),
        forms: vec![],
    })
}

fn form_of(species_name: &str, form_name: Option<&str>) -> PokemonForm {
    PokemonForm {
        species: species(species_name),
        name: form_name.map(|n| n.to_string()),
        types: vec![PokeType::Fire, PokeType::Flying],
        genders: AllowedGenders::MaleOrFemale,
        base_stats: Stats {
            hp: 78,
            attack: 84,
            defense: 78,
            special_attack: 109,
            special_defense: 85,
            speed: 100,
        },
    }
}

#[test]
fn species_and_form_render_their_names() {
    assert_eq!(species("Charizard").label(), "Charizard");
    assert_eq!(form_of("Charizard", None).label(), "Charizard");
    assert_eq!(
        form_of("Charizard", Some("Mega X")).label(),
        "Charizard - Mega X"
    );
}

#[test]
fn combatants_render_nickname_with_form_in_parentheses() {
    let plain = Pokemon {
        form: Rc::new(form_of("Charizard", None)),
        nickname: None,
        gender: Gender::Female,
        moves: MoveSet::new(),
        ev: form_of("Charizard", None).base_stats,
        iv: form_of("Charizard", None).base_stats,
        ability: Ability::Inert,
        current_hp: 78,
    };
    assert_eq!(plain.label(), "Charizard");
    let named = Pokemon {
        nickname: Some("Zippo".to_string()),
        ..plain
    };
    assert_eq!(named.label(), "Zippo (Charizard)");
}
