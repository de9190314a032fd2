//! The pagination window: a transient `limit` / `offset` pair extracted from
//! a request's query parameters, which arrive as key/value pairs of text.

use vstd::prelude::*;
use vstd::string::StringExecFns;

use crate::digits::{parse_i32, spec_parse_i32};
use crate::error::Error;

verus! {

/// A requested slice of a listing, extracted per request from query
/// parameters and never persisted.
#[derive(Debug, Default, PartialEq)]
pub struct Pagination {
    /// Largest number of records the caller wants, when bounded.
    pub limit: Option<i32>,
    /// Index of the first record the caller wants.
    pub offset: i32,
}

/// The value under the first occurrence of `key` in the parameter list, if
/// any.
pub open spec fn spec_lookup(params: Seq<(String, String)>, key: Seq<char>) -> Option<Seq<char>>
    decreases params.len(),
{
    if params.len() == 0 {
        None
    } else if params[0].0@ == key {
        Some(params[0].1@)
    } else {
        spec_lookup(params.skip(1), key)
    }
}

/// Finds the value under `key` in the parameter list, exactly as
/// `spec_lookup` describes.
fn find_param<'a>(params: &'a Vec<(String, String)>, key: &str) -> (r: Option<&'a String>)
    ensures
        match r {
            Some(v) => spec_lookup(params@, key@) == Some(v@),
            None => spec_lookup(params@, key@) is None,
        },
{
    let key_s = String::from_str(key);
    let mut i: usize = 0;
    proof {
        assert(params@.skip(0) =~= params@);
    }
    while i < params.len()
        invariant
            i <= params@.len(),
            key_s@ == key@,
            spec_lookup(params@, key@) == spec_lookup(params@.skip(i as int), key@),
        decreases params@.len() - i,
    {
        proof {
            assert(params@.skip(i as int)[0] == params@[i as int]);
            assert(params@.skip(i as int).skip(1) =~= params@.skip(i + 1));
        }
        if params[i].0 == key_s {
            return Some(&params[i].1);
        }
        i = i + 1;
    }
    proof {
        assert(params@.skip(i as int) =~= Seq::<(String, String)>::empty());
    }
    None
}

/// What extracting a pagination window yields: both the `limit` and the
/// `offset` keys must be present, and each value must read as a 32-bit
/// integer; a missing key reports `MissingParameters`, a value that does not
/// parse reports `ParseError` for the first offender, `limit` first.
pub open spec fn spec_extract_pagination(params: Seq<(String, String)>) -> Result<
    Pagination,
    Error,
> {
    match (spec_lookup(params, "limit"@), spec_lookup(params, "offset"@)) {
        (Some(l), Some(o)) => match spec_parse_i32(l) {
            Err(k) => Err(Error::ParseError(k)),
            Ok(lv) => match spec_parse_i32(o) {
                Err(k) => Err(Error::ParseError(k)),
                Ok(ov) => Ok(Pagination { limit: Some(lv), offset: ov }),
            },
        },
        _ => Err(Error::MissingParameters),
    }
}

/// Extracts the pagination window from a request's query parameters, exactly
/// as `spec_extract_pagination` describes.
pub fn extract_pagination(params: Vec<(String, String)>) -> (r: Result<Pagination, Error>)
    ensures
        r == spec_extract_pagination(params@),
{
    let limit_v = find_param(&params, "limit");
    let offset_v = find_param(&params, "offset");
    match (limit_v, offset_v) {
        (Some(l), Some(o)) => match parse_i32(l.as_str()) {
            Err(k) => Err(Error::ParseError(k)),
            Ok(lv) => match parse_i32(o.as_str()) {
                Err(k) => Err(Error::ParseError(k)),
                Ok(ov) => Ok(Pagination { limit: Some(lv), offset: ov }),
            },
        },
        _ => Err(Error::MissingParameters),
    }
}

} // verus!
