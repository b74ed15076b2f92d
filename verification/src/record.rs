//! The two persisted row shapes and their construction. Building a row
//! normalizes every optional textual field and narrows wire-level numeric
//! types to the storage types of the prepared statements; the cache nonce is
//! kept verbatim.

use vstd::prelude::*;
use crate::normalize::{normalize_spec, opt_view, str_is_blank};

verus! {

/// The mathematical value of an optional owned string.
pub open spec fn opt_string_view(s: Option<String>) -> Option<Seq<char>> {
    match s {
        Option::None => Option::None,
        Option::Some(t) => Option::Some(t@),
    }
}

/// The value of a u16 reinterpreted as a two's-complement i16, the narrowing
/// the wire-to-storage conversion performs.
pub open spec fn i16_of_u16(v: u16) -> int {
    if v < 0x8000 {
        v as int
    } else {
        v - 0x10000
    }
}

/// The model of an optional narrowed small integer.
pub open spec fn opt_i16_of_u16(v: Option<u16>) -> Option<int> {
    match v {
        Option::None => Option::None,
        Option::Some(x) => Option::Some(i16_of_u16(x)),
    }
}

/// A row bound to the 7-column statement shape (protocol versions 1-3):
/// no world or client-version columns.
#[derive(Debug, PartialEq, Eq)]
pub struct StatisticsRowV1 {
    pub item_name: Option<String>,
    pub item_id: Option<String>,
    pub user_id: Option<String>,
    pub session_id: Option<String>,
    /// Microseconds since the Unix epoch, assigned by the server.
    pub timestamp: i64,
    pub protocol_version: i16,
    pub cache_nonce: String,
}

/// A row bound to the 11-column statement shape (protocol version 4):
/// adds the world url and the client version fields.
#[derive(Debug, PartialEq, Eq)]
pub struct StatisticsRowV2 {
    pub item_name: Option<String>,
    pub item_id: Option<String>,
    pub user_id: Option<String>,
    pub session_id: Option<String>,
    pub world_url: Option<String>,
    /// Microseconds since the Unix epoch, assigned by the server.
    pub timestamp: i64,
    pub protocol_version: i16,
    pub neos_version: Option<String>,
    pub cache_nonce: String,
    pub client_major_version: Option<i16>,
    pub client_minor_version: Option<i16>,
}

#[verifier::ext_equal]
pub struct RowV1Model {
    pub item_name: Option<Seq<char>>,
    pub item_id: Option<Seq<char>>,
    pub user_id: Option<Seq<char>>,
    pub session_id: Option<Seq<char>>,
    pub timestamp: int,
    pub protocol_version: int,
    pub cache_nonce: Seq<char>,
}

#[verifier::ext_equal]
pub struct RowV2Model {
    pub item_name: Option<Seq<char>>,
    pub item_id: Option<Seq<char>>,
    pub user_id: Option<Seq<char>>,
    pub session_id: Option<Seq<char>>,
    pub world_url: Option<Seq<char>>,
    pub timestamp: int,
    pub protocol_version: int,
    pub neos_version: Option<Seq<char>>,
    pub cache_nonce: Seq<char>,
    pub client_major_version: Option<int>,
    pub client_minor_version: Option<int>,
}

impl View for StatisticsRowV1 {
    type V = RowV1Model;

    open spec fn view(&self) -> RowV1Model {
        RowV1Model {
            item_name: opt_string_view(self.item_name),
            item_id: opt_string_view(self.item_id),
            user_id: opt_string_view(self.user_id),
            session_id: opt_string_view(self.session_id),
            timestamp: self.timestamp as int,
            protocol_version: self.protocol_version as int,
            cache_nonce: self.cache_nonce@,
        }
    }
}

impl View for StatisticsRowV2 {
    type V = RowV2Model;

    open spec fn view(&self) -> RowV2Model {
        RowV2Model {
            item_name: opt_string_view(self.item_name),
            item_id: opt_string_view(self.item_id),
            user_id: opt_string_view(self.user_id),
            session_id: opt_string_view(self.session_id),
            world_url: opt_string_view(self.world_url),
            timestamp: self.timestamp as int,
            protocol_version: self.protocol_version as int,
            neos_version: opt_string_view(self.neos_version),
            cache_nonce: self.cache_nonce@,
            client_major_version: match self.client_major_version {
                Option::None => Option::None,
                Option::Some(v) => Option::Some(v as int),
            },
            client_minor_version: match self.client_minor_version {
                Option::None => Option::None,
                Option::Some(v) => Option::Some(v as int),
            },
        }
    }
}

/// Normalizes an optional borrowed field and takes ownership of the kept
/// value.
fn normalize_to_owned(s: Option<&str>) -> (r: Option<String>)
    ensures
        opt_string_view(r) == normalize_spec(opt_view(s)),
{
    match s {
        Option::None => Option::None,
        Option::Some(t) => if str_is_blank(t) {
            Option::None
        } else {
            Option::Some(t.to_owned())
        },
    }
}

/// Narrows a wire-level u16 to the i16 storage type, two's-complement.
fn narrow_u16(v: u16) -> (r: i16)
    ensures
        r as int == i16_of_u16(v),
{
    if v < 0x8000 {
        v as i16
    } else {
        let d: u16 = 0xFFFF - v;
        -(d as i16) - 1
    }
}

fn narrow_u16_opt(v: Option<u16>) -> (r: Option<i16>)
    ensures
        match v {
            Option::None => r is None,
            Option::Some(x) => r matches Some(y) && y as int == i16_of_u16(x),
        },
{
    match v {
        Option::None => Option::None,
        Option::Some(x) => Option::Some(narrow_u16(x)),
    }
}

/// Builds the row for the 7-column statement: every optional field
/// normalized, the protocol version narrowed to the storage type, the cache
/// nonce and timestamp kept exactly as given.
pub fn record_statistics_v1(
    item_name: Option<&str>,
    item_id: Option<&str>,
    user_id: Option<&str>,
    session_id: Option<&str>,
    timestamp: i64,
    protocol_version: u16,
    cache_nonce: &str,
) -> (row: StatisticsRowV1)
    requires
        1 <= protocol_version <= 4,
    ensures
        row@ == (RowV1Model {
            item_name: normalize_spec(opt_view(item_name)),
            item_id: normalize_spec(opt_view(item_id)),
            user_id: normalize_spec(opt_view(user_id)),
            session_id: normalize_spec(opt_view(session_id)),
            timestamp: timestamp as int,
            protocol_version: protocol_version as int,
            cache_nonce: cache_nonce@,
        }),
{
    StatisticsRowV1 {
        item_name: normalize_to_owned(item_name),
        item_id: normalize_to_owned(item_id),
        user_id: normalize_to_owned(user_id),
        session_id: normalize_to_owned(session_id),
        timestamp,
        protocol_version: protocol_version as i16,
        cache_nonce: cache_nonce.to_owned(),
    }
}

/// Builds the row for the 11-column statement: every optional textual field
/// normalized, the wire-level client version numbers narrowed to the storage
/// type, the cache nonce and timestamp kept exactly as given.
pub fn record_statistics_v2(
    item_name: Option<&str>,
    item_id: Option<&str>,
    user_id: Option<&str>,
    session_id: Option<&str>,
    world_url: Option<&str>,
    timestamp: i64,
    protocol_version: u16,
    neos_version: Option<&str>,
    cache_nonce: &str,
    client_major_version: Option<u16>,
    client_minor_version: Option<u16>,
) -> (row: StatisticsRowV2)
    requires
        1 <= protocol_version <= 4,
    ensures
        row@ == (RowV2Model {
            item_name: normalize_spec(opt_view(item_name)),
            item_id: normalize_spec(opt_view(item_id)),
            user_id: normalize_spec(opt_view(user_id)),
            session_id: normalize_spec(opt_view(session_id)),
            world_url: normalize_spec(opt_view(world_url)),
            timestamp: timestamp as int,
            protocol_version: protocol_version as int,
            neos_version: normalize_spec(opt_view(neos_version)),
            cache_nonce: cache_nonce@,
            client_major_version: opt_i16_of_u16(client_major_version),
            client_minor_version: opt_i16_of_u16(client_minor_version),
        }),
{
    StatisticsRowV2 {
        item_name: normalize_to_owned(item_name),
        item_id: normalize_to_owned(item_id),
        user_id: normalize_to_owned(user_id),
        session_id: normalize_to_owned(session_id),
        world_url: normalize_to_owned(world_url),
        timestamp,
        protocol_version: protocol_version as i16,
        neos_version: normalize_to_owned(neos_version),
        cache_nonce: cache_nonce.to_owned(),
        client_major_version: narrow_u16_opt(client_major_version),
        client_minor_version: narrow_u16_opt(client_minor_version),
    }
}

} // verus!
