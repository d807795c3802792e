//! Responses and the error translator: every repository outcome is turned
//! into an HTTP status and a JSON body here, and nowhere else.

use vstd::prelude::*;

use crate::json::encode_sample;
use crate::json::encode_samples;
use crate::json::sample_array;
use crate::json::sample_object;
use crate::model::DataError;
use crate::model::Sample;
use crate::table::names_of;

verus! {

/// An outbound response: a status code and a body.
pub struct HttpReply {
    pub status: u16,
    pub body: String,
}

/// The single mapping from data-access failure kinds to HTTP responses:
/// an absent row is a 404; every other store failure is a 500 whose body
/// never echoes the underlying error detail.
pub fn handle_db_error(e: DataError) -> (r: HttpReply)
    ensures
        e == DataError::NotFound ==> r.status == 404 && r.body@ == "\"Resource not found\""@,
        e != DataError::NotFound ==> r.status == 500 && r.body@ == "\"Internal server error\""@,
{
    match e {
        DataError::NotFound => HttpReply {
            status: 404,
            body: String::from_str("\"Resource not found\""),
        },
        _ => HttpReply { status: 500, body: String::from_str("\"Internal server error\"") },
    }
}

/// The liveness reply: always 200 with the body `"OK"`, whatever the
/// store is doing.
pub fn health_reply() -> (r: HttpReply)
    ensures
        r.status == 200,
        r.body@ == "\"OK\""@,
{
    HttpReply { status: 200, body: String::from_str("\"OK\"") }
}

/// The reply to a single-record fetch: the record's JSON object on
/// success, else a 404 whose body names the missing resource.
pub fn get_sample_reply(res: Result<Sample, DataError>) -> (r: HttpReply)
    ensures
        res matches Ok(s) ==> r.status == 200 && r.body@ == sample_object(s@),
        res is Err ==> r.status == 404 && r.body@ == "\"Sample not found\""@,
{
    match res {
        Ok(s) => HttpReply { status: 200, body: encode_sample(&s) },
        Err(_) => HttpReply { status: 404, body: String::from_str("\"Sample not found\"") },
    }
}

/// The reply to a creation: 201 with the stored record's JSON object on
/// success; failures go through the error translator.
pub fn create_sample_reply(res: Result<Sample, DataError>) -> (r: HttpReply)
    ensures
        res matches Ok(s) ==> r.status == 201 && r.body@ == sample_object(s@),
        res matches Err(e) ==> (e == DataError::NotFound ==> r.status == 404 && r.body@
            == "\"Resource not found\""@),
        res matches Err(e) ==> (e != DataError::NotFound ==> r.status == 500 && r.body@
            == "\"Internal server error\""@),
{
    match res {
        Ok(s) => HttpReply { status: 201, body: encode_sample(&s) },
        Err(e) => handle_db_error(e),
    }
}

/// The reply to a listing: 200 with the JSON array of every record on
/// success, else a 500 with a generic body.
pub fn get_samples_reply(res: Result<Vec<Sample>, DataError>) -> (r: HttpReply)
    ensures
        res matches Ok(v) ==> r.status == 200 && r.body@ == sample_array(names_of(v@)),
        res is Err ==> r.status == 500 && r.body@ == "\"Failed to fetch samples\""@,
{
    match res {
        Ok(v) => HttpReply { status: 200, body: encode_samples(&v) },
        Err(_) => HttpReply { status: 500, body: String::from_str("\"Failed to fetch samples\"") },
    }
}

} // verus!
