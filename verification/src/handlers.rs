//! Request handlers: each one invokes the repository on the table and
//! maps the outcome to a response, so its contract pins status and body
//! for every table state.

use vstd::prelude::*;

use crate::json::sample_array;
use crate::json::sample_object;
use crate::model::NewCategory;
use crate::responses::HttpReply;
use crate::responses::create_sample_reply;
use crate::responses::get_sample_reply;
use crate::responses::get_samples_reply;
use crate::responses::health_reply;
use crate::routing::Route;
use crate::routing::is_sample_path;
use crate::routing::match_route;
use crate::routing::percent_decoded;
use crate::table::Table;
use crate::table::contains_name;

verus! {

/// Whether some route accepts the method and path.
pub open spec fn routed(method: Seq<char>, path: Seq<char>) -> bool {
    (method == "GET"@ && path == "/health"@) || (method == "GET"@ && path == "/samples"@) || (
    method == "POST"@ && path == "/samples"@) || (method == "GET"@ && is_sample_path(path))
}

/// The liveness probe: 200 with body `"OK"`, always; it touches no data.
pub fn health_check() -> (r: HttpReply)
    ensures
        r.status == 200,
        r.body@ == "\"OK\""@,
{
    health_reply()
}

/// Fetch one record by name: its JSON object when some row carries the
/// name, else a 404 naming the missing sample.
pub fn get_sample(table: &Table, name: &str) -> (r: HttpReply)
    ensures
        contains_name(table@, name@) ==> r.status == 200 && r.body@ == sample_object(name@),
        !contains_name(table@, name@) ==> r.status == 404 && r.body@ == "\"Sample not found\""@,
{
    get_sample_reply(table.find_by_name(name))
}

/// Create one record from the client payload: the table grows by the
/// stored row, and the reply is 201 with that row's JSON object.
pub fn create_sample(table: &mut Table, new_sample: NewCategory) -> (r: HttpReply)
    ensures
        final(table)@ == old(table)@.push(new_sample@),
        r.status == 201,
        r.body@ == sample_object(new_sample@),
{
    create_sample_reply(table.insert(new_sample.name))
}

/// List every record: 200 with the JSON array of the whole table, in
/// store order.
pub fn get_samples(table: &Table) -> (r: HttpReply)
    ensures
        r.status == 200,
        r.body@ == sample_array(table@),
{
    get_samples_reply(table.list_all())
}

/// Dispatch one inbound request against the table: match the route, run
/// its handler, and answer as the framework does where no route matches
/// (404) or where the creation payload did not deserialize (400).
pub fn dispatch(table: &mut Table, method: &str, path: &str, body: Option<NewCategory>) -> (r:
    HttpReply)
    ensures
        method@ == "GET"@ && path@ == "/health"@ ==> final(table)@ == old(table)@ && r.status
            == 200 && r.body@ == "\"OK\""@,
        method@ == "GET"@ && path@ == "/samples"@ ==> final(table)@ == old(table)@ && r.status
            == 200 && r.body@ == sample_array(old(table)@),
        method@ == "POST"@ && path@ == "/samples"@ ==> (body matches Some(nc) ==> final(table)@
            == old(table)@.push(nc@) && r.status == 201 && r.body@ == sample_object(nc@)),
        method@ == "POST"@ && path@ == "/samples"@ && body is None ==> final(table)@ == old(
            table,
        )@ && r.status == 400,
        method@ == "GET"@ && is_sample_path(path@) ==> final(table)@ == old(table)@ && (
        percent_decoded(path@.skip(9)) matches Some(nm) ==> (contains_name(old(table)@, nm)
            ==> r.status == 200 && r.body@ == sample_object(nm)) && (!contains_name(
            old(table)@,
            nm,
        ) ==> r.status == 404 && r.body@ == "\"Sample not found\""@)),
        !routed(method@, path@) ==> final(table)@ == old(table)@ && r.status == 404,
{
    match match_route(method, path) {
        Route::Health => health_check(),
        Route::ListSamples => get_samples(table),
        Route::CreateSample => {
            match body {
                Some(nc) => create_sample(table, nc),
                None => HttpReply { status: 400, body: String::new() },
            }
        },
        Route::GetSample(name) => get_sample(table, name.as_str()),
        Route::NoMatch => HttpReply { status: 404, body: String::new() },
    }
}

} // verus!
