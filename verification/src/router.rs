//! One handler per protocol version. Each maps that version's URL shape to
//! its field set and statement shape: versions 1-3 build a 7-column row,
//! version 4 an 11-column row. Path-encoded values are percent-decoded;
//! query-parameter values arrive already decoded. The protocol version is
//! fixed by the route alone, and the timestamp is taken from the server
//! clock at handling time.

use vstd::prelude::*;
use crate::decode::{percent_decode_lossy, percent_decoded};
use crate::dto::{StatsV3Query, StatsV4Query};
use crate::normalize::normalize_spec;
use crate::record::{
    opt_i16_of_u16, opt_string_view, record_statistics_v1, record_statistics_v2, RowV1Model,
    RowV2Model, StatisticsRowV1, StatisticsRowV2,
};

verus! {

/// Relies on `chrono::Utc::now` for the server clock: the moment of the
/// call, in microseconds since the Unix epoch. Nothing is promised of the
/// clock's reading.
#[verifier::external_body]
pub(crate) fn current_micros() -> i64 {
    chrono::Utc::now().timestamp_micros()
}

/// The row a version-1 request persists: all four textual fields
/// percent-decoded from the path and normalized, the nonce decoded and kept
/// verbatim, protocol version 1.
pub open spec fn v1_row_model(
    item_name: Seq<char>,
    item_id: Seq<char>,
    user_id: Seq<char>,
    session_id: Seq<char>,
    cache_nonce: Seq<char>,
    timestamp: int,
) -> RowV1Model {
    RowV1Model {
        item_name: normalize_spec(Some(percent_decoded(item_name))),
        item_id: normalize_spec(Some(percent_decoded(item_id))),
        user_id: normalize_spec(Some(percent_decoded(user_id))),
        session_id: normalize_spec(Some(percent_decoded(session_id))),
        timestamp,
        protocol_version: 1,
        cache_nonce: percent_decoded(cache_nonce),
    }
}

/// The row a version-2 request persists: like version 1 but without a
/// session, protocol version 2.
pub open spec fn v2_row_model(
    item_name: Seq<char>,
    item_id: Seq<char>,
    user_id: Seq<char>,
    cache_nonce: Seq<char>,
    timestamp: int,
) -> RowV1Model {
    RowV1Model {
        item_name: normalize_spec(Some(percent_decoded(item_name))),
        item_id: normalize_spec(Some(percent_decoded(item_id))),
        user_id: normalize_spec(Some(percent_decoded(user_id))),
        session_id: None,
        timestamp,
        protocol_version: 2,
        cache_nonce: percent_decoded(cache_nonce),
    }
}

/// The row a version-3 request persists: the textual fields come from query
/// parameters, already decoded, and are normalized; only the nonce is
/// percent-decoded; protocol version 3.
pub open spec fn v3_row_model(q: StatsV3Query, cache_nonce: Seq<char>, timestamp: int) -> RowV1Model {
    RowV1Model {
        item_name: normalize_spec(opt_string_view(q.n)),
        item_id: normalize_spec(opt_string_view(q.i)),
        user_id: normalize_spec(opt_string_view(q.u)),
        session_id: normalize_spec(opt_string_view(q.s)),
        timestamp,
        protocol_version: 3,
        cache_nonce: percent_decoded(cache_nonce),
    }
}

/// The row a version-4 request persists: the version-3 fields plus the world
/// url and the client version, all optional textual fields normalized, the
/// client version numbers narrowed; protocol version 4.
pub open spec fn v4_row_model(q: StatsV4Query, cache_nonce: Seq<char>, timestamp: int) -> RowV2Model {
    RowV2Model {
        item_name: normalize_spec(opt_string_view(q.n)),
        item_id: normalize_spec(opt_string_view(q.i)),
        user_id: normalize_spec(opt_string_view(q.u)),
        session_id: normalize_spec(opt_string_view(q.s)),
        world_url: normalize_spec(opt_string_view(q.w)),
        timestamp,
        protocol_version: 4,
        neos_version: normalize_spec(opt_string_view(q.v)),
        cache_nonce: percent_decoded(cache_nonce),
        client_major_version: opt_i16_of_u16(q.c1),
        client_minor_version: opt_i16_of_u16(q.c2),
    }
}

/// Handles a version-1 request, whose fields are all path segments. The
/// world id is accepted and discarded: the current schema has no column for
/// it. The timestamp is the server clock at the call.
pub fn stats_v1_handler(
    item_name: &str,
    item_id: &str,
    user_id: &str,
    session_id: &str,
    _world_id: &str,
    cache_nonce: &str,
) -> (row: StatisticsRowV1)
    ensures
        row@ == v1_row_model(item_name@, item_id@, user_id@, session_id@, cache_nonce@, row@.timestamp),
{
    let timestamp = current_micros();
    let item_name = percent_decode_lossy(item_name);
    let item_id = percent_decode_lossy(item_id);
    let user_id = percent_decode_lossy(user_id);
    let session_id = percent_decode_lossy(session_id);
    let cache_nonce = percent_decode_lossy(cache_nonce);
    record_statistics_v1(
        Some(item_name.as_str()),
        Some(item_id.as_str()),
        Some(user_id.as_str()),
        Some(session_id.as_str()),
        timestamp,
        1,
        cache_nonce.as_str(),
    )
}

/// Handles a version-2 request: like version 1 but the route carries no
/// session or world segment, and the row's session is absent.
pub fn stats_v2_handler(
    item_name: &str,
    item_id: &str,
    user_id: &str,
    cache_nonce: &str,
) -> (row: StatisticsRowV1)
    ensures
        row@ == v2_row_model(item_name@, item_id@, user_id@, cache_nonce@, row@.timestamp),
{
    let timestamp = current_micros();
    let item_name = percent_decode_lossy(item_name);
    let item_id = percent_decode_lossy(item_id);
    let user_id = percent_decode_lossy(user_id);
    let cache_nonce = percent_decode_lossy(cache_nonce);
    record_statistics_v1(
        Some(item_name.as_str()),
        Some(item_id.as_str()),
        Some(user_id.as_str()),
        None,
        timestamp,
        2,
        cache_nonce.as_str(),
    )
}

/// Handles a version-3 request: the nonce is a path segment, the other
/// fields are query parameters.
pub fn stats_v3_handler(cache_nonce: &str, query_params: StatsV3Query) -> (row: StatisticsRowV1)
    ensures
        row@ == v3_row_model(query_params, cache_nonce@, row@.timestamp),
{
    let timestamp = current_micros();
    let cache_nonce = percent_decode_lossy(cache_nonce);
    record_statistics_v1(
        opt_deref(&query_params.n),
        opt_deref(&query_params.i),
        opt_deref(&query_params.u),
        opt_deref(&query_params.s),
        timestamp,
        3,
        cache_nonce.as_str(),
    )
}

/// Handles a version-4 request: the version-3 fields plus world url and
/// client version, bound to the 11-column statement shape.
pub fn stats_v4_handler(cache_nonce: &str, query_params: StatsV4Query) -> (row: StatisticsRowV2)
    ensures
        row@ == v4_row_model(query_params, cache_nonce@, row@.timestamp),
{
    let timestamp = current_micros();
    let cache_nonce = percent_decode_lossy(cache_nonce);
    record_statistics_v2(
        opt_deref(&query_params.n),
        opt_deref(&query_params.i),
        opt_deref(&query_params.u),
        opt_deref(&query_params.s),
        opt_deref(&query_params.w),
        timestamp,
        4,
        opt_deref(&query_params.v),
        cache_nonce.as_str(),
        query_params.c1,
        query_params.c2,
    )
}

/// Borrows an optional owned value as an optional slice.
fn opt_deref(s: &Option<String>) -> (r: Option<&str>)
    ensures
        crate::normalize::opt_view(r) == opt_string_view(*s),
{
    match s {
        Option::None => Option::None,
        Option::Some(t) => Option::Some(t.as_str()),
    }
}

/// Every route fixes the row's protocol version by itself, keeps the decoded
/// nonce byte-for-byte, and stores the server-assigned timestamp it was
/// given, whatever the request's field values are.
pub proof fn lemma_routes_fix_version_nonce_timestamp(
    item_name: Seq<char>,
    item_id: Seq<char>,
    user_id: Seq<char>,
    session_id: Seq<char>,
    cache_nonce: Seq<char>,
    q3: StatsV3Query,
    q4: StatsV4Query,
    t: int,
)
    ensures
        v1_row_model(item_name, item_id, user_id, session_id, cache_nonce, t).protocol_version
            == 1,
        v2_row_model(item_name, item_id, user_id, cache_nonce, t).protocol_version == 2,
        v3_row_model(q3, cache_nonce, t).protocol_version == 3,
        v4_row_model(q4, cache_nonce, t).protocol_version == 4,
        v1_row_model(item_name, item_id, user_id, session_id, cache_nonce, t).cache_nonce
            == percent_decoded(cache_nonce),
        v2_row_model(item_name, item_id, user_id, cache_nonce, t).cache_nonce == percent_decoded(
            cache_nonce,
        ),
        v3_row_model(q3, cache_nonce, t).cache_nonce == percent_decoded(cache_nonce),
        v4_row_model(q4, cache_nonce, t).cache_nonce == percent_decoded(cache_nonce),
        v1_row_model(item_name, item_id, user_id, session_id, cache_nonce, t).timestamp == t,
        v2_row_model(item_name, item_id, user_id, cache_nonce, t).timestamp == t,
        v3_row_model(q3, cache_nonce, t).timestamp == t,
        v4_row_model(q4, cache_nonce, t).timestamp == t,
{
}

} // verus!
