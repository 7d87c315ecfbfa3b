//! The addresses of the remote resources.

use vstd::prelude::*;
use vstd::string::StringExecFns;

verus! {

/// The addresses of the remote resources.
pub struct Endpoints;

impl Endpoints {
    /// The address under which every resource lives.
    pub const BASE_URL: &'static str = "https://pokeapi.co/api/v2";

    /// The address of the resource `name_or_id` of the kind whose path
    /// segment is `segment`.
    pub open spec fn address(segment: Seq<char>, name_or_id: Seq<char>) -> Seq<char> {
        "https://pokeapi.co/api/v2"@ + segment + name_or_id
    }

    /// The address of one resource of the kind whose path segment is
    /// `segment`.
    fn resource(segment: &str, name_or_id: &str) -> (url: String)
        ensures
            url@ == Self::address(segment@, name_or_id@),
    {
        String::from_str(Self::BASE_URL).concat(segment).concat(name_or_id)
    }

    /// The address of a creature.
    pub fn pokemon(name_or_id: &str) -> (url: String)
        ensures
            url@ == Self::address("/pokemon/"@, name_or_id@),
    {
        Self::resource("/pokemon/", name_or_id)
    }

    /// The address of a move.
    pub fn move_(name_or_id: &str) -> (url: String)
        ensures
            url@ == Self::address("/move/"@, name_or_id@),
    {
        Self::resource("/move/", name_or_id)
    }

    /// The address of an item.
    pub fn item(name_or_id: &str) -> (url: String)
        ensures
            url@ == Self::address("/item/"@, name_or_id@),
    {
        Self::resource("/item/", name_or_id)
    }
}

} // verus!
