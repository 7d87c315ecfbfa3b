//! The shapes of the records that the remote service hands out.

use vstd::prelude::*;

verus! {

/// A creature.
#[derive(Debug)]
pub struct Pokemon {
    pub id: u32,
    pub name: String,
    pub height: u32,
    pub weight: u32,
    pub base_experience: Option<u32>,
    pub types: Vec<PokemonType>,
    pub abilities: Vec<PokemonAbility>,
    pub stats: Vec<PokemonStat>,
    pub sprites: PokemonSprites,
}

/// One of the types of a creature, with the slot it takes.
#[derive(Debug)]
pub struct PokemonType {
    pub slot: u8,
    pub type_info: NamedApiResource,
}

/// One of the abilities of a creature.
#[derive(Debug)]
pub struct PokemonAbility {
    pub is_hidden: bool,
    pub slot: u8,
    pub ability: NamedApiResource,
}

/// One of the stats of a creature.
#[derive(Debug)]
pub struct PokemonStat {
    pub base_stat: u32,
    pub effort: u32,
    pub stat: NamedApiResource,
}

/// The addresses of the pictures of a creature.
#[derive(Debug)]
pub struct PokemonSprites {
    pub front_default: Option<String>,
    pub front_shiny: Option<String>,
    pub back_default: Option<String>,
    pub back_shiny: Option<String>,
}

/// A reference to another resource: its name and its address.
#[derive(Debug)]
pub struct NamedApiResource {
    pub name: String,
    pub url: String,
}

/// A move.
#[derive(Debug)]
pub struct Move {
    pub id: u32,
    pub name: String,
    pub accuracy: Option<u32>,
    pub power: Option<u32>,
    pub pp: Option<u32>,
    pub move_type: NamedApiResource,
    pub damage_class: NamedApiResource,
}

/// An item.
#[derive(Debug)]
pub struct Item {
    pub id: u32,
    pub name: String,
    pub cost: u32,
    pub category: NamedApiResource,
}

} // verus!
