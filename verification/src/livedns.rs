//! The provider's record API semantics: record kinds, upsert outcomes, and
//! the status-code dispatch behind the create-then-update-on-conflict
//! algorithm.
//!
//! A record is synchronised by first attempting a create (POST). A conflict
//! answer means the record already exists, and exactly one update (PUT) is
//! then attempted on the same endpoint. Any other non-success status is a
//! failure, surfaced with its status code and response body.

use vstd::prelude::*;

verus! {

/// Status the provider answers a create with when the record already held
/// the posted value.
pub const STATUS_UNCHANGED: u16 = 200;

/// Status the provider answers a create or an update with when the record
/// was written.
pub const STATUS_CREATED: u16 = 201;

/// Status the provider answers a create with when a record of that name and
/// kind already exists with another value.
pub const STATUS_CONFLICT: u16 = 409;

/// The kind of DNS record a target's address family maps to.
#[derive(Clone, Copy, Debug, PartialEq, Eq, Structural)]
pub enum DnsRecordType {
    A,
    AAAA,
}

/// The textual form of a record kind, as the provider's record endpoint
/// names it.
pub open spec fn record_type_chars(kind: DnsRecordType) -> Seq<char> {
    match kind {
        DnsRecordType::A => "A"@,
        DnsRecordType::AAAA => "AAAA"@,
    }
}

impl DnsRecordType {
    /// The kind as the provider's API spells it.
    pub fn as_str(&self) -> (r: &'static str)
        ensures
            r@ == record_type_chars(*self),
    {
        match self {
            DnsRecordType::A => "A",
            DnsRecordType::AAAA => "AAAA",
        }
    }
}

/// The logical result of synchronising one record.
#[derive(Debug)]
pub enum UpsertOutcome {
    Created,
    Updated,
    Unchanged,
    Failed { status: u16, body: String },
}

/// How the client reads the status of a create call.
#[derive(Clone, Copy, Debug, PartialEq, Eq, Structural)]
pub enum CreateDisposition {
    /// The record already held the value: outcome Unchanged.
    Unchanged,
    /// The record was written: outcome Created.
    Created,
    /// The record exists with another value: fall back to one update call.
    Conflict,
    /// Any other status: outcome Failed.
    Error,
}

/// How the client reads the status of the fallback update call.
#[derive(Clone, Copy, Debug, PartialEq, Eq, Structural)]
pub enum UpdateDisposition {
    /// The record was written: outcome Updated.
    Updated,
    /// Any other status: outcome Failed.
    Error,
}

/// The dispatch of a create call's status code.
pub open spec fn create_disposition_of(status: u16) -> CreateDisposition {
    if status == STATUS_UNCHANGED {
        CreateDisposition::Unchanged
    } else if status == STATUS_CREATED {
        CreateDisposition::Created
    } else if status == STATUS_CONFLICT {
        CreateDisposition::Conflict
    } else {
        CreateDisposition::Error
    }
}

/// The dispatch of the fallback update call's status code.
pub open spec fn update_disposition_of(status: u16) -> UpdateDisposition {
    if status == STATUS_CREATED {
        UpdateDisposition::Updated
    } else {
        UpdateDisposition::Error
    }
}

/// Reads a create call's status code.
pub fn create_disposition(status: u16) -> (r: CreateDisposition)
    ensures
        r == create_disposition_of(status),
{
    if status == STATUS_UNCHANGED {
        CreateDisposition::Unchanged
    } else if status == STATUS_CREATED {
        CreateDisposition::Created
    } else if status == STATUS_CONFLICT {
        CreateDisposition::Conflict
    } else {
        CreateDisposition::Error
    }
}

/// Reads the fallback update call's status code.
pub fn update_disposition(status: u16) -> (r: UpdateDisposition)
    ensures
        r == update_disposition_of(status),
{
    if status == STATUS_CREATED {
        UpdateDisposition::Updated
    } else {
        UpdateDisposition::Error
    }
}

/// A model of the provider's state for one record endpoint: the record's
/// value, if the record exists.
pub type ProviderRecord = Option<Seq<char>>;

/// The status a well-behaved provider answers a create (POST) of `value`
/// with: created when the record is absent, unchanged when it already holds
/// `value`, conflict when it holds another value.
pub open spec fn provider_create_status(rec: ProviderRecord, value: Seq<char>) -> u16 {
    match rec {
        None => STATUS_CREATED,
        Some(held) => if held == value {
            STATUS_UNCHANGED
        } else {
            STATUS_CONFLICT
        },
    }
}

/// The record after a create (POST) of `value`: written when absent,
/// untouched otherwise.
pub open spec fn provider_record_after_create(rec: ProviderRecord, value: Seq<char>)
    -> ProviderRecord {
    match rec {
        None => Some(value),
        Some(held) => Some(held),
    }
}

/// The status a well-behaved provider answers an update (PUT) of `value`
/// with: it overwrites unconditionally.
pub open spec fn provider_update_status(rec: ProviderRecord, value: Seq<char>) -> u16 {
    STATUS_CREATED
}

/// The record after an update (PUT) of `value`.
pub open spec fn provider_record_after_update(rec: ProviderRecord, value: Seq<char>)
    -> ProviderRecord {
    Some(value)
}

/// The record after one whole upsert of `value` against a well-behaved
/// provider: the create, followed by the fallback update when the create
/// answered conflict.
pub open spec fn provider_record_after_upsert(rec: ProviderRecord, value: Seq<char>)
    -> ProviderRecord {
    let after_create = provider_record_after_create(rec, value);
    match create_disposition_of(provider_create_status(rec, value)) {
        CreateDisposition::Conflict => provider_record_after_update(after_create, value),
        _ => after_create,
    }
}

/// Upserting is idempotent against a well-behaved provider. Whatever the
/// record held before, one upsert never fails — its create is read as
/// Created, Unchanged, or Conflict, and a conflict's fallback update is read
/// as Updated — and it leaves the record holding the value. A second upsert
/// of the same value therefore finds the record unchanged: its create is
/// answered with the unchanged status, so it is read as Unchanged and no
/// fallback update follows.
pub proof fn lemma_upsert_idempotent(rec: ProviderRecord, value: Seq<char>)
    ensures
        create_disposition_of(provider_create_status(rec, value)) != CreateDisposition::Error,
        create_disposition_of(provider_create_status(rec, value)) == CreateDisposition::Conflict
            ==> update_disposition_of(
            provider_update_status(provider_record_after_create(rec, value), value),
        ) == UpdateDisposition::Updated,
        provider_record_after_upsert(rec, value) == Some(value),
        create_disposition_of(
            provider_create_status(provider_record_after_upsert(rec, value), value),
        ) == CreateDisposition::Unchanged,
        provider_record_after_upsert(provider_record_after_upsert(rec, value), value)
            == Some(value),
{
}

} // verus!
