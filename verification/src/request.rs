//! What a handler is given and what it may fail with: the flat parameter
//! map of a request, the values its context carries, and the error taxonomy.

use vstd::prelude::*;
use vstd::string::*;
use crate::text::str_eq;

verus! {

/// A flat, string-keyed parameter map, held as a list of pairs. Where a key
/// occurs more than once, the first pair counts.
#[derive(Clone, Debug, PartialEq, Eq)]
pub struct Params {
    pub pairs: Vec<(String, String)>,
}

impl View for Params {
    type V = Seq<(Seq<char>, Seq<char>)>;

    open spec fn view(&self) -> Seq<(Seq<char>, Seq<char>)> {
        self.pairs.deep_view()
    }
}

/// The value that a list of pairs gives to a key: that of the first pair
/// with this key, if there is one.
pub open spec fn lookup(pairs: Seq<(Seq<char>, Seq<char>)>, key: Seq<char>) -> Option<Seq<char>>
    decreases pairs.len(),
{
    if pairs.len() == 0 {
        None
    } else if pairs[0].0 == key {
        Some(pairs[0].1)
    } else {
        lookup(pairs.drop_first(), key)
    }
}

impl Params {
    /// A map without parameters.
    pub fn new() -> (p: Params)
        ensures
            p@ == Seq::<(Seq<char>, Seq<char>)>::empty(),
    {
        let p = Params { pairs: Vec::new() };
        assert(p@ =~= Seq::empty());
        p
    }

    /// Adds a pair behind those that are there.
    pub fn push(&mut self, key: &str, value: &str)
        ensures
            final(self)@ == old(self)@.push((key@, value@)),
    {
        self.pairs.push((String::from_str(key), String::from_str(value)));
        assert(self@ =~= old(self)@.push((key@, value@)));
    }

    /// The value of a key, if the map has it.
    pub fn get(&self, key: &str) -> (r: Option<&String>)
        ensures
            match r {
                Some(v) => lookup(self@, key@) == Some(v@),
                None => lookup(self@, key@) is None,
            },
    {
        let mut i: usize = 0;
        assert(self@.subrange(0, self@.len() as int) =~= self@);
        while i < self.pairs.len()
            invariant
                i <= self.pairs.len(),
                self@.len() == self.pairs.len(),
                lookup(self@, key@) == lookup(self@.subrange(i as int, self@.len() as int), key@),
            decreases self.pairs.len() - i,
        {
            let ghost rest = self@.subrange(i as int, self@.len() as int);
            assert(rest[0] == self@[i as int]);
            assert(rest.drop_first() =~= self@.subrange(i + 1, self@.len() as int));
            if str_eq(self.pairs[i].0.as_str(), key) {
                return Some(&self.pairs[i].1);
            }
            i = i + 1;
        }
        assert(self@.subrange(i as int, self@.len() as int).len() == 0);
        None
    }
}

/// The verb of a request.
#[derive(Clone, Copy, Debug, PartialEq, Eq)]
pub enum Method {
    Get,
    Post,
}

/// One inbound request: its verb and path, its parameters, and the values
/// that its context supplies (a fresh identifier under `random_str`, a
/// timestamp under `time`).
#[derive(Clone, Debug, PartialEq, Eq)]
pub struct Request {
    pub method: Method,
    pub path: String,
    pub params: Params,
    pub ext: Params,
}

/// Why a handler gave up.
#[derive(Clone, Debug, PartialEq, Eq)]
pub enum HandlerError {
    /// A required key is absent; the key is given.
    MissingParameter(String),
    /// The value under the given key is not of the type that is asked for.
    InvalidValue(String),
    /// The entity that was asked for is not stored.
    NotFound,
    /// The storage could not run a statement.
    StorageFailure(String),
    /// A setting that the backend needs is absent; its name is given.
    ConfigurationMissing(String),
    /// A stored row lacks a column or holds one of another type.
    DecodeFailure,
}

/// The mathematical content of a [`HandlerError`].
pub enum Failure {
    MissingParameter(Seq<char>),
    InvalidValue(Seq<char>),
    NotFound,
    StorageFailure(Seq<char>),
    ConfigurationMissing(Seq<char>),
    DecodeFailure,
}

impl View for HandlerError {
    type V = Failure;

    open spec fn view(&self) -> Failure {
        match self {
            HandlerError::MissingParameter(k) => Failure::MissingParameter(k@),
            HandlerError::InvalidValue(k) => Failure::InvalidValue(k@),
            HandlerError::NotFound => Failure::NotFound,
            HandlerError::StorageFailure(m) => Failure::StorageFailure(m@),
            HandlerError::ConfigurationMissing(k) => Failure::ConfigurationMissing(k@),
            HandlerError::DecodeFailure => Failure::DecodeFailure,
        }
    }
}

/// The message of a failure by itself, whatever operation it stopped.
pub open spec fn spec_message(f: Failure) -> Seq<char> {
    match f {
        Failure::MissingParameter(k) => k + " is required"@,
        Failure::InvalidValue(k) => k + " is not valid"@,
        Failure::NotFound => "no this item"@,
        Failure::StorageFailure(m) => m,
        Failure::ConfigurationMissing(k) => k + " is not set"@,
        Failure::DecodeFailure => "stored row does not match the model"@,
    }
}

impl HandlerError {
    /// The message of this failure by itself, whatever operation it stopped.
    pub fn message(&self) -> (m: String)
        ensures
            m@ == spec_message(self@),
    {
        match self {
            HandlerError::MissingParameter(k) => k.clone().concat(" is required"),
            HandlerError::InvalidValue(k) => k.clone().concat(" is not valid"),
            HandlerError::NotFound => String::from_str("no this item"),
            HandlerError::StorageFailure(m) => m.clone(),
            HandlerError::ConfigurationMissing(k) => k.clone().concat(" is not set"),
            HandlerError::DecodeFailure => String::from_str("stored row does not match the model"),
        }
    }
}

/// What asking for a required key gives: its value, or the failure that
/// names the key.
pub open spec fn spec_required(pairs: Seq<(Seq<char>, Seq<char>)>, key: Seq<char>) -> Result<
    Seq<char>,
    Failure,
> {
    match lookup(pairs, key) {
        Some(v) => Ok(v),
        None => Err(Failure::MissingParameter(key)),
    }
}

/// The value of a key that the request must carry.
pub fn required<'a>(params: &'a Params, key: &str) -> (r: Result<&'a String, HandlerError>)
    ensures
        match r {
            Ok(v) => spec_required(params@, key@) == Ok::<Seq<char>, Failure>(v@),
            Err(e) => spec_required(params@, key@) == Err::<Seq<char>, Failure>(e@),
        },
{
    match params.get(key) {
        Some(v) => Ok(v),
        None => Err(HandlerError::MissingParameter(String::from_str(key))),
    }
}

} // verus!
