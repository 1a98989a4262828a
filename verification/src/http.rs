//! HTTP-level decisions of the item API that do not depend on how a request
//! arrives: request methods, plain text responses, and reading the id from a path.

use vstd::prelude::*;
use vstd::string::*;

use crate::errors::{AppError, AppErrorView};
use crate::text::{lemma_parse_signed_decimal, parse_i64, parse_signed, signed_decimal};
use crate::types::Header;

verus! {

/// An HTTP request method.
#[derive(Debug, Clone, Copy, PartialEq, Eq, Structural)]
pub enum Method {
    Head,
    Get,
    Post,
    Put,
    Patch,
    Delete,
    Options,
    Connect,
    Trace,
}

/// A response with a text body, a status and headers to set.
#[derive(Debug)]
pub struct PlainResponse {
    pub status: u16,
    pub body: String,
    pub headers: Vec<Header>,
}

/// A response with the given status and body and no headers.
pub fn plain_response(status: u16, body: &str) -> (res: PlainResponse)
    ensures
        res.status == status,
        res.body@ == body@,
        res.headers@.len() == 0,
{
    PlainResponse { status, body: String::from_str(body), headers: Vec::new() }
}

/// The id in a request path: the decimal integer the `id` segment holds, a
/// bad-request error when the segment is not one, or when it is missing.
pub open spec fn id_param(param: Option<Seq<char>>) -> Result<i64, AppErrorView> {
    match param {
        None => Err(AppErrorView::BadRequest("Missing id parameter"@)),
        Some(p) => match parse_signed(p, i64::MIN as int, i64::MAX as nat) {
            Some(v) => Ok(v as i64),
            None => Err(AppErrorView::BadRequest("Invalid id parameter"@)),
        },
    }
}

/// Reads the id of an item from the `id` segment of a request path.
pub fn parse_id_param(param: Option<&str>) -> (res: Result<i64, AppError>)
    ensures
        match id_param(match param { Some(p) => Some(p@), None => None }) {
            Ok(v) => res == Ok::<i64, AppError>(v),
            Err(ev) => res matches Err(e) && e@ == ev,
        },
{
    match param {
        None => Err(AppError::BadRequest(String::from_str("Missing id parameter"))),
        Some(p) => match parse_i64(p) {
            Some(v) => Ok(v),
            None => Err(AppError::BadRequest(String::from_str("Invalid id parameter"))),
        },
    }
}

/// An id written in decimal into a path, as the front end writes item URLs,
/// is read back from the path as the same id.
pub proof fn lemma_id_param_round_trip(id: i64)
    ensures
        id_param(Some(signed_decimal(id as int))) == Ok::<i64, AppErrorView>(id),
{
    lemma_parse_signed_decimal(id as int, i64::MIN as int, i64::MAX as nat);
}

} // verus!
