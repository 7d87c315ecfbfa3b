//! The steps by which a creature is fetched: from the cache where it is
//! there, else from the remote service, whose answer is then cached.
//!
//! Sending the request and decoding texts into records is the driver's
//! work. After each piece of it the driver reports what happened and is
//! told what to do next.

use std::time::Duration;
use vstd::prelude::*;
use vstd::string::StringExecFns;
use crate::api::endpoints::Endpoints;
use crate::cache::clock::duration_from_secs;
use crate::cache::{Cache, MemoryCache};
use crate::error::PokeCliError;
use crate::utils::{normalized, trimmed, validate_pokemon_input};

verus! {

/// For how many seconds a fetched creature stays in the cache.
pub const POKEMON_TTL_SECS: u64 = 3600;

/// The key under which a creature is cached.
pub open spec fn pokemon_cache_key(input: Seq<char>) -> Seq<char> {
    "pokemon:"@ + input
}

/// Whether a status code of HTTP reports success.
pub open spec fn status_is_success(status: u16) -> bool {
    200 <= status < 300
}

/// Whether a status code of HTTP reports success.
pub fn is_success(status: u16) -> (success: bool)
    ensures
        success == status_is_success(status),
{
    200 <= status && status < 300
}

/// What the driver reports.
#[derive(Debug)]
pub enum FetchEvent {
    /// Nothing has been done yet.
    Started,
    /// The payload from the cache could not be decoded.
    CachedPayloadUnusable,
    /// The remote service answered with this status code.
    Responded { status: u16 },
    /// The body of the answer was decoded. The payload is the record as
    /// text, where it has a text form.
    BodyDecoded { payload: Option<String> },
}

/// What the driver is told to do.
#[derive(Debug)]
pub enum FetchAction {
    /// Decode this payload from the cache and hand the record out. If it
    /// cannot be decoded, report so.
    UseCached { payload: String },
    /// Send a request to this address and report the status code.
    Request { url: String },
    /// Decode the body of the answer and report the record as text.
    DecodeBody,
    /// Hand the decoded record out.
    Deliver,
    /// Fail with this error.
    Fail(PokeCliError),
    /// Fail with the error that the transport makes of the answer.
    FailWithResponse,
}

/// The fetch of one creature.
pub struct PokemonFetch {
    asked: String,
    input: String,
    url: String,
    cache_key: String,
}

impl PokemonFetch {
    /// The name or number as the user typed it.
    pub closed spec fn asked(&self) -> Seq<char> {
        self.asked@
    }

    /// The name or number in its normal form.
    pub closed spec fn input(&self) -> Seq<char> {
        self.input@
    }

    /// The address of the creature.
    pub closed spec fn url(&self) -> Seq<char> {
        self.url@
    }

    /// The key under which the creature is cached.
    pub closed spec fn cache_key(&self) -> Seq<char> {
        self.cache_key@
    }

    /// Every part of the fetch follows from what was asked.
    pub open spec fn is_fetch_of(&self, name_or_id: Seq<char>) -> bool {
        &&& self.asked() == name_or_id
        &&& self.input() == normalized(trimmed(name_or_id))
        &&& self.url() == Endpoints::address("/pokemon/"@, self.input())
        &&& self.cache_key() == pokemon_cache_key(self.input())
    }

    /// Prepares the fetch of the creature that `name_or_id` names. Text
    /// that is empty once trimmed is rejected.
    pub fn new(name_or_id: &str) -> (fetch: Result<PokemonFetch, PokeCliError>)
        ensures
            match fetch {
                Ok(fetch) => trimmed(name_or_id@).len() > 0 && fetch.is_fetch_of(name_or_id@),
                Err(error) => trimmed(name_or_id@).len() == 0 && error.is_invalid_input(
                    name_or_id@,
                ),
            },
    {
        match validate_pokemon_input(name_or_id) {
            Ok(input) => {
                let url = Endpoints::pokemon(input.as_str());
                let cache_key = String::from_str("pokemon:").concat(input.as_str());
                Ok(PokemonFetch { asked: name_or_id.to_owned(), input, url, cache_key })
            },
            Err(error) => Err(error),
        }
    }

    /// The address of the creature.
    pub fn address(&self) -> (url: &str)
        ensures
            url@ == self.url(),
    {
        self.url.as_str()
    }

    /// What is to be done once the cache has been asked, given its answer:
    /// a payload that it holds is to be used; on a miss, and where the
    /// cache failed, the request is sent. A failure of the cache is never
    /// passed on.
    pub fn after_lookup(&self, answer: Result<Option<String>, PokeCliError>) -> (action:
        FetchAction)
        ensures
            match answer {
                Ok(Some(payload)) => action matches FetchAction::UseCached { payload: used }
                    && used@ == payload@,
                _ => action matches FetchAction::Request { url } && url@ == self.url(),
            },
    {
        match answer {
            Ok(Some(payload)) => FetchAction::UseCached { payload },
            _ => FetchAction::Request { url: self.url.clone() },
        }
    }

    /// What is to be written to the cache once the body is decoded: with
    /// a cache at hand and a record that has a text form, that text under
    /// the key of the creature, to live for `POKEMON_TTL_SECS` seconds;
    /// else nothing.
    pub fn write_back(&self, payload: Option<String>, has_cache: bool) -> (write: Option<
        (String, String, u64),
    >)
        ensures
            match write {
                Some((key, text, secs)) => {
                    &&& has_cache
                    &&& payload matches Some(given)
                    &&& text@ == given@
                    &&& key@ == self.cache_key()
                    &&& secs == POKEMON_TTL_SECS
                },
                None => !has_cache || payload is None,
            },
    {
        match payload {
            Some(text) => {
                if has_cache {
                    Some((self.cache_key.clone(), text, POKEMON_TTL_SECS))
                } else {
                    None
                }
            },
            None => None,
        }
    }

    /// What is to be done after `event`.
    ///
    /// At the start the cache is asked, and [`Self::after_lookup`] decides
    /// on its answer; without a cache the request is sent. A cached
    /// payload that proves unusable leads to the request as well. Of the
    /// answers, those with a status code of success are decoded, 404 says
    /// that there is no such creature, and any other is the transport's to
    /// report. After a decoded body the cache is written as
    /// [`Self::write_back`] says, a failure of the cache is passed over,
    /// and the record is delivered.
    pub fn next(&self, event: FetchEvent, cache: &Option<MemoryCache>) -> (action: FetchAction)
        ensures
            match event {
                FetchEvent::Started => match action {
                    FetchAction::UseCached { .. } => cache is Some,
                    FetchAction::Request { url } => url@ == self.url(),
                    _ => false,
                },
                FetchEvent::CachedPayloadUnusable => action matches FetchAction::Request { url }
                    && url@ == self.url(),
                FetchEvent::Responded { status } => if status_is_success(status) {
                    action is DecodeBody
                } else if status == 404 {
                    action matches FetchAction::Fail(error) && error.is_not_found(self.asked())
                } else {
                    action is FailWithResponse
                },
                FetchEvent::BodyDecoded { .. } => action is Deliver,
            },
    {
        match event {
            FetchEvent::Started => {
                match cache {
                    Some(cache) => self.after_lookup(cache.get(self.cache_key.as_str())),
                    None => self.after_lookup(Ok(None)),
                }
            },
            FetchEvent::CachedPayloadUnusable => FetchAction::Request { url: self.url.clone() },
            FetchEvent::Responded { status } => {
                if is_success(status) {
                    FetchAction::DecodeBody
                } else if status == 404 {
                    FetchAction::Fail(PokeCliError::PokemonNotFound { name: self.asked.clone() })
                } else {
                    FetchAction::FailWithResponse
                }
            },
            FetchEvent::BodyDecoded { payload } => {
                match (cache, self.write_back(payload, cache.is_some())) {
                    (Some(cache), Some((key, text, secs))) => {
                        let _ = cache.set(key.as_str(), text, duration_from_secs(secs));
                    },
                    _ => {},
                }
                FetchAction::Deliver
            },
        }
    }
}

} // verus!
