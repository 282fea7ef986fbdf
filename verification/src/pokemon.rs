//! The concrete battle data model: species, forms, stats, types and the
//! type-effectiveness chart. This is domain data the engine itself never
//! inspects; the battle module reads it when building decisions.

use vstd::prelude::*;

use std::rc::Rc;

use crate::ability::Ability;

verus! {

/// A named move a combatant knows.
#[derive(Clone)]
pub struct PokeMove {
    pub name: String,
}

impl PokeMove {
    /// The textual rendering of the move: its name.
    pub fn label(&self) -> (r: String)
        ensures
            r@ == self.name@,
    {
        self.name.clone()
    }
}

/// A species, with the forms it can appear in.
#[derive(Clone)]
pub struct PokemonSpecies {
    pub national_dex_no: u32,
    pub name: String,
    pub forms: Vec<Rc<PokemonForm>>,
}

impl PokemonSpecies {
    /// The textual rendering of the species: its name.
    pub fn label(&self) -> (r: String)
        ensures
            r@ == self.name@,
    {
        self.name.clone()
    }
}

/// One form of a species, with its typing, genders and base stats.
#[derive(Clone)]
pub struct PokemonForm {
    pub species: Rc<PokemonSpecies>,
    pub name: Option<String>,
    pub types: Vec<PokeType>,
    pub genders: AllowedGenders,
    pub base_stats: Stats,
}

impl PokemonForm {
    /// The textual rendering of the form: the species name, with the form's
    /// own name after a dash when the form is named.
    pub open spec fn label_spec(self) -> Seq<char> {
        match self.name {
            Option::Some(n) => self.species.name@ + " - "@ + n@,
            Option::None => self.species.name@,
        }
    }

    /// Renders the form as [`Self::label_spec`] says.
    pub fn label(&self) -> (r: String)
        ensures
            r@ == self.label_spec(),
    {
        match &self.name {
            Option::Some(n) => {
                let mut s = self.species.name.clone();
                s.append(" - ");
                s.append(n.as_str());
                s
            },
            Option::None => self.species.name.clone(),
        }
    }
}

/// The six base stats.
#[derive(Clone)]
pub struct Stats {
    pub hp: u32,
    pub attack: u32,
    pub defense: u32,
    pub special_attack: u32,
    pub special_defense: u32,
    pub speed: u32,
}

/// One combatant: a form plus everything that makes this individual.
#[derive(Clone)]
pub struct Pokemon {
    pub form: Rc<PokemonForm>,
    pub nickname: Option<String>,
    pub gender: Gender,
    pub moves: MoveSet,
    pub ev: Stats,
    pub iv: Stats,
    pub ability: Ability,
    pub current_hp: u32,
}

impl Pokemon {
    /// The textual rendering of the combatant: its nickname with the form in
    /// parentheses, or the form alone when it has no nickname.
    pub open spec fn label_spec(self) -> Seq<char> {
        match self.nickname {
            Option::Some(n) => n@ + " ("@ + self.form.label_spec() + ")"@,
            Option::None => self.form.label_spec(),
        }
    }

    /// Renders the combatant as [`Self::label_spec`] says.
    pub fn label(&self) -> (r: String)
        ensures
            r@ == self.label_spec(),
    {
        match &self.nickname {
            Option::Some(n) => {
                let mut s = n.clone();
                s.append(" (");
                let f = self.form.label();
                s.append(f.as_str());
                s.append(")");
                s
            },
            Option::None => self.form.label(),
        }
    }
}

/// Which genders a form allows.
#[derive(Clone)]
pub enum AllowedGenders {
    MaleOrFemale,
    MaleOnly,
    FemaleOnly,
    NoGender,
}

impl AllowedGenders {
    /// The allowed genders, in canonical order.
    pub open spec fn as_slice_spec(self) -> Seq<Gender> {
        match self {
            AllowedGenders::MaleOrFemale => seq![Gender::Male, Gender::Female],
            AllowedGenders::MaleOnly => seq![Gender::Male],
            AllowedGenders::FemaleOnly => seq![Gender::Female],
            AllowedGenders::NoGender => seq![Gender::Genderless],
        }
    }

    /// The allowed genders, in canonical order.
    pub fn as_slice(&self) -> (r: Vec<Gender>)
        ensures
            r@ == self.as_slice_spec(),
    {
        let r: Vec<Gender> = match self {
            AllowedGenders::MaleOrFemale => vec![Gender::Male, Gender::Female],
            AllowedGenders::MaleOnly => vec![Gender::Male],
            AllowedGenders::FemaleOnly => vec![Gender::Female],
            AllowedGenders::NoGender => vec![Gender::Genderless],
        };
        proof {
            assert(r@ =~= self.as_slice_spec());
        }
        r
    }
}

/// A combatant's gender.
#[derive(Clone, Copy, PartialEq, Eq, Structural, Debug)]
pub enum Gender {
    Genderless,
    Male,
    Female,
}

/// The eighteen elemental types.
#[derive(Clone, Copy, PartialEq, Eq, Structural, Debug)]
pub enum PokeType {
    Normal,
    Fire,
    Water,
    Electric,
    Grass,
    Ice,
    Fighting,
    Poison,
    Ground,
    Flying,
    Psychic,
    Bug,
    Rock,
    Phantom,
    Dragon,
    Dark,
    Steel,
    Fairy,
}

/// The full type chart: how effective an attack of type `attacker` is on a
/// defender of type `defender`.
pub open spec fn effectiveness_spec(attacker: PokeType, defender: PokeType) -> TypeEffectiveness {
    match attacker {
        PokeType::Normal => match defender {
            PokeType::Phantom => TypeEffectiveness::NoEffect,
            PokeType::Rock | PokeType::Steel => TypeEffectiveness::NotVeryEffective,
            _ => TypeEffectiveness::Regular,
        },
        PokeType::Fire => match defender {
            PokeType::Fire | PokeType::Water | PokeType::Rock | PokeType::Dragon => TypeEffectiveness::NotVeryEffective,
            PokeType::Grass | PokeType::Ice | PokeType::Bug | PokeType::Steel => TypeEffectiveness::SuperEffective,
            _ => TypeEffectiveness::Regular,
        },
        PokeType::Water => match defender {
            PokeType::Water | PokeType::Grass | PokeType::Dragon => TypeEffectiveness::NotVeryEffective,
            PokeType::Fire | PokeType::Ground | PokeType::Rock => TypeEffectiveness::SuperEffective,
            _ => TypeEffectiveness::Regular,
        },
        PokeType::Electric => match defender {
            PokeType::Ground => TypeEffectiveness::NoEffect,
            PokeType::Electric | PokeType::Grass | PokeType::Dragon => TypeEffectiveness::NotVeryEffective,
            PokeType::Water | PokeType::Flying => TypeEffectiveness::SuperEffective,
            _ => TypeEffectiveness::Regular,
        },
        PokeType::Grass => match defender {
            PokeType::Fire | PokeType::Grass | PokeType::Poison | PokeType::Flying | PokeType::Bug | PokeType::Dragon | PokeType::Steel => TypeEffectiveness::NotVeryEffective,
            PokeType::Water | PokeType::Ground | PokeType::Rock => TypeEffectiveness::SuperEffective,
            _ => TypeEffectiveness::Regular,
        },
        PokeType::Ice => match defender {
            PokeType::Fire | PokeType::Water | PokeType::Ice | PokeType::Steel => TypeEffectiveness::NotVeryEffective,
            PokeType::Grass | PokeType::Ground | PokeType::Flying | PokeType::Dragon => TypeEffectiveness::SuperEffective,
            _ => TypeEffectiveness::Regular,
        },
        PokeType::Fighting => match defender {
            PokeType::Phantom => TypeEffectiveness::NoEffect,
            PokeType::Poison | PokeType::Flying | PokeType::Psychic | PokeType::Bug | PokeType::Fairy => TypeEffectiveness::NotVeryEffective,
            PokeType::Normal | PokeType::Ice | PokeType::Rock | PokeType::Dark | PokeType::Steel => TypeEffectiveness::SuperEffective,
            _ => TypeEffectiveness::Regular,
        },
        PokeType::Poison => match defender {
            PokeType::Steel => TypeEffectiveness::NoEffect,
            PokeType::Poison | PokeType::Ground | PokeType::Rock | PokeType::Phantom => TypeEffectiveness::NotVeryEffective,
            PokeType::Grass | PokeType::Fairy => TypeEffectiveness::SuperEffective,
            _ => TypeEffectiveness::Regular,
        },
        PokeType::Ground => match defender {
            PokeType::Flying => TypeEffectiveness::NoEffect,
            PokeType::Grass | PokeType::Bug => TypeEffectiveness::NotVeryEffective,
            PokeType::Fire | PokeType::Electric | PokeType::Poison | PokeType::Rock | PokeType::Steel => TypeEffectiveness::SuperEffective,
            _ => TypeEffectiveness::Regular,
        },
        PokeType::Flying => match defender {
            PokeType::Electric | PokeType::Rock | PokeType::Steel => TypeEffectiveness::NotVeryEffective,
            PokeType::Grass | PokeType::Fighting | PokeType::Bug => TypeEffectiveness::SuperEffective,
            _ => TypeEffectiveness::Regular,
        },
        PokeType::Psychic => match defender {
            PokeType::Dark => TypeEffectiveness::NoEffect,
            PokeType::Psychic | PokeType::Steel => TypeEffectiveness::NotVeryEffective,
            PokeType::Fighting | PokeType::Poison => TypeEffectiveness::SuperEffective,
            _ => TypeEffectiveness::Regular,
        },
        PokeType::Bug => match defender {
            PokeType::Fire | PokeType::Fighting | PokeType::Poison | PokeType::Flying | PokeType::Phantom | PokeType::Steel | PokeType::Fairy => TypeEffectiveness::NotVeryEffective,
            PokeType::Grass | PokeType::Psychic | PokeType::Dark => TypeEffectiveness::SuperEffective,
            _ => TypeEffectiveness::Regular,
        },
        PokeType::Rock => match defender {
            PokeType::Fighting | PokeType::Ground | PokeType::Steel => TypeEffectiveness::NotVeryEffective,
            PokeType::Fire | PokeType::Ice | PokeType::Flying | PokeType::Bug => TypeEffectiveness::SuperEffective,
            _ => TypeEffectiveness::Regular,
        },
        PokeType::Phantom => match defender {
            PokeType::Normal => TypeEffectiveness::NoEffect,
            PokeType::Dark => TypeEffectiveness::NotVeryEffective,
            PokeType::Psychic | PokeType::Phantom => TypeEffectiveness::SuperEffective,
            _ => TypeEffectiveness::Regular,
        },
        PokeType::Dragon => match defender {
            PokeType::Fairy => TypeEffectiveness::NoEffect,
            PokeType::Steel => TypeEffectiveness::NotVeryEffective,
            PokeType::Dragon => TypeEffectiveness::SuperEffective,
            _ => TypeEffectiveness::Regular,
        },
        PokeType::Dark => match defender {
            PokeType::Fighting | PokeType::Dragon | PokeType::Fairy => TypeEffectiveness::NotVeryEffective,
            PokeType::Psychic | PokeType::Phantom => TypeEffectiveness::SuperEffective,
            _ => TypeEffectiveness::Regular,
        },
        PokeType::Steel => match defender {
            PokeType::Fire | PokeType::Water | PokeType::Electric | PokeType::Steel => TypeEffectiveness::NotVeryEffective,
            PokeType::Ice | PokeType::Rock | PokeType::Fairy => TypeEffectiveness::SuperEffective,
            _ => TypeEffectiveness::Regular,
        },
        PokeType::Fairy => match defender {
            PokeType::Fire | PokeType::Poison | PokeType::Steel => TypeEffectiveness::NotVeryEffective,
            PokeType::Fighting | PokeType::Dragon | PokeType::Dark => TypeEffectiveness::SuperEffective,
            _ => TypeEffectiveness::Regular,
        },
    }
}

impl PokeType {
    /// How effective an attack of this type is on `defender`, exactly as the
    /// type chart [`effectiveness_spec`] says.
    pub fn effectiveness_on(&self, defender: &Self) -> (r: TypeEffectiveness)
        ensures
            r == effectiveness_spec(*self, *defender),
    {
        match self {
        PokeType::Normal => match *defender {
            PokeType::Phantom => TypeEffectiveness::NoEffect,
            PokeType::Rock | PokeType::Steel => TypeEffectiveness::NotVeryEffective,
            _ => TypeEffectiveness::Regular,
        },
        PokeType::Fire => match *defender {
            PokeType::Fire | PokeType::Water | PokeType::Rock | PokeType::Dragon => TypeEffectiveness::NotVeryEffective,
            PokeType::Grass | PokeType::Ice | PokeType::Bug | PokeType::Steel => TypeEffectiveness::SuperEffective,
            _ => TypeEffectiveness::Regular,
        },
        PokeType::Water => match *defender {
            PokeType::Water | PokeType::Grass | PokeType::Dragon => TypeEffectiveness::NotVeryEffective,
            PokeType::Fire | PokeType::Ground | PokeType::Rock => TypeEffectiveness::SuperEffective,
            _ => TypeEffectiveness::Regular,
        },
        PokeType::Electric => match *defender {
            PokeType::Ground => TypeEffectiveness::NoEffect,
            PokeType::Electric | PokeType::Grass | PokeType::Dragon => TypeEffectiveness::NotVeryEffective,
            PokeType::Water | PokeType::Flying => TypeEffectiveness::SuperEffective,
            _ => TypeEffectiveness::Regular,
        },
        PokeType::Grass => match *defender {
            PokeType::Fire | PokeType::Grass | PokeType::Poison | PokeType::Flying | PokeType::Bug | PokeType::Dragon | PokeType::Steel => TypeEffectiveness::NotVeryEffective,
            PokeType::Water | PokeType::Ground | PokeType::Rock => TypeEffectiveness::SuperEffective,
            _ => TypeEffectiveness::Regular,
        },
        PokeType::Ice => match *defender {
            PokeType::Fire | PokeType::Water | PokeType::Ice | PokeType::Steel => TypeEffectiveness::NotVeryEffective,
            PokeType::Grass | PokeType::Ground | PokeType::Flying | PokeType::Dragon => TypeEffectiveness::SuperEffective,
            _ => TypeEffectiveness::Regular,
        },
        PokeType::Fighting => match *defender {
            PokeType::Phantom => TypeEffectiveness::NoEffect,
            PokeType::Poison | PokeType::Flying | PokeType::Psychic | PokeType::Bug | PokeType::Fairy => TypeEffectiveness::NotVeryEffective,
            PokeType::Normal | PokeType::Ice | PokeType::Rock | PokeType::Dark | PokeType::Steel => TypeEffectiveness::SuperEffective,
            _ => TypeEffectiveness::Regular,
        },
        PokeType::Poison => match *defender {
            PokeType::Steel => TypeEffectiveness::NoEffect,
            PokeType::Poison | PokeType::Ground | PokeType::Rock | PokeType::Phantom => TypeEffectiveness::NotVeryEffective,
            PokeType::Grass | PokeType::Fairy => TypeEffectiveness::SuperEffective,
            _ => TypeEffectiveness::Regular,
        },
        PokeType::Ground => match *defender {
            PokeType::Flying => TypeEffectiveness::NoEffect,
            PokeType::Grass | PokeType::Bug => TypeEffectiveness::NotVeryEffective,
            PokeType::Fire | PokeType::Electric | PokeType::Poison | PokeType::Rock | PokeType::Steel => TypeEffectiveness::SuperEffective,
            _ => TypeEffectiveness::Regular,
        },
        PokeType::Flying => match *defender {
            PokeType::Electric | PokeType::Rock | PokeType::Steel => TypeEffectiveness::NotVeryEffective,
            PokeType::Grass | PokeType::Fighting | PokeType::Bug => TypeEffectiveness::SuperEffective,
            _ => TypeEffectiveness::Regular,
        },
        PokeType::Psychic => match *defender {
            PokeType::Dark => TypeEffectiveness::NoEffect,
            PokeType::Psychic | PokeType::Steel => TypeEffectiveness::NotVeryEffective,
            PokeType::Fighting | PokeType::Poison => TypeEffectiveness::SuperEffective,
            _ => TypeEffectiveness::Regular,
        },
        PokeType::Bug => match *defender {
            PokeType::Fire | PokeType::Fighting | PokeType::Poison | PokeType::Flying | PokeType::Phantom | PokeType::Steel | PokeType::Fairy => TypeEffectiveness::NotVeryEffective,
            PokeType::Grass | PokeType::Psychic | PokeType::Dark => TypeEffectiveness::SuperEffective,
            _ => TypeEffectiveness::Regular,
        },
        PokeType::Rock => match *defender {
            PokeType::Fighting | PokeType::Ground | PokeType::Steel => TypeEffectiveness::NotVeryEffective,
            PokeType::Fire | PokeType::Ice | PokeType::Flying | PokeType::Bug => TypeEffectiveness::SuperEffective,
            _ => TypeEffectiveness::Regular,
        },
        PokeType::Phantom => match *defender {
            PokeType::Normal => TypeEffectiveness::NoEffect,
            PokeType::Dark => TypeEffectiveness::NotVeryEffective,
            PokeType::Psychic | PokeType::Phantom => TypeEffectiveness::SuperEffective,
            _ => TypeEffectiveness::Regular,
        },
        PokeType::Dragon => match *defender {
            PokeType::Fairy => TypeEffectiveness::NoEffect,
            PokeType::Steel => TypeEffectiveness::NotVeryEffective,
            PokeType::Dragon => TypeEffectiveness::SuperEffective,
            _ => TypeEffectiveness::Regular,
        },
        PokeType::Dark => match *defender {
            PokeType::Fighting | PokeType::Dragon | PokeType::Fairy => TypeEffectiveness::NotVeryEffective,
            PokeType::Psychic | PokeType::Phantom => TypeEffectiveness::SuperEffective,
            _ => TypeEffectiveness::Regular,
        },
        PokeType::Steel => match *defender {
            PokeType::Fire | PokeType::Water | PokeType::Electric | PokeType::Steel => TypeEffectiveness::NotVeryEffective,
            PokeType::Ice | PokeType::Rock | PokeType::Fairy => TypeEffectiveness::SuperEffective,
            _ => TypeEffectiveness::Regular,
        },
        PokeType::Fairy => match *defender {
            PokeType::Fire | PokeType::Poison | PokeType::Steel => TypeEffectiveness::NotVeryEffective,
            PokeType::Fighting | PokeType::Dragon | PokeType::Dark => TypeEffectiveness::SuperEffective,
            _ => TypeEffectiveness::Regular,
        },
        }
    }
}

/// How effective an attack is: no effect, halved, regular or doubled.
#[derive(Clone, Copy, PartialEq, Eq, Structural, Debug)]
pub enum TypeEffectiveness {
    NoEffect,
    NotVeryEffective,
    Regular,
    SuperEffective,
}

// ---------------------------------------------------------------------------
// The fixed-capacity collections the battle module stores its data in
// ---------------------------------------------------------------------------

/// A team: at most six combatants, in roster order.
pub type Team = arrayvec::ArrayVec<Pokemon, 6>;

/// The moves one combatant knows: at most four.
pub type MoveSet = arrayvec::ArrayVec<PokeMove, 4>;

#[verifier::external_type_specification]
#[verifier::external_body]
#[verifier::reject_recursive_types(T)]
pub struct ExArrayVec<T, const CAP: usize>(arrayvec::ArrayVec<T, CAP>);

/// Relies on arrayvec's `ArrayVec::clone`, which clones each element in
/// order; nothing is assumed of the result. The derived clones of the types
/// that hold a team or a move set call it.
pub assume_specification<T: Clone, const CAP: usize>[ <arrayvec::ArrayVec<
    T,
    CAP,
> as Clone>::clone ](v: &arrayvec::ArrayVec<T, CAP>) -> (r: arrayvec::ArrayVec<T, CAP>);

/// The combatants a team holds, in roster order.
pub uninterp spec fn team_seq(t: Team) -> Seq<Pokemon>;

/// The moves a move set holds, in order.
pub uninterp spec fn moves_seq(m: MoveSet) -> Seq<PokeMove>;

/// Relies on arrayvec's `ArrayVec::len`: how many elements are held.
#[verifier::external_body]
pub fn team_len(t: &Team) -> (r: usize)
    ensures
        r == team_seq(*t).len(),
{
    t.len()
}

/// Relies on arrayvec's slice indexing (through its deref to a slice of the
/// initialized prefix): element `i` of the held elements.
#[verifier::external_body]
pub fn team_get(t: &Team, i: usize) -> (r: &Pokemon)
    requires
        i < team_seq(*t).len(),
    ensures
        *r == team_seq(*t)[i as int],
{
    &t[i]
}

/// Relies on arrayvec's `ArrayVec::len`: how many elements are held.
#[verifier::external_body]
pub fn moves_len(m: &MoveSet) -> (r: usize)
    ensures
        r == moves_seq(*m).len(),
{
    m.len()
}

/// Relies on arrayvec's slice indexing (through its deref to a slice of the
/// initialized prefix): element `i` of the held elements.
#[verifier::external_body]
pub fn moves_get(m: &MoveSet, i: usize) -> (r: &PokeMove)
    requires
        i < moves_seq(*m).len(),
    ensures
        *r == moves_seq(*m)[i as int],
{
    &m[i]
}

} // verus!
