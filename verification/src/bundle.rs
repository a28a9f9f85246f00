//! Decisions of the DarkHooky bundle API: what a peer bundle looks like once
//! its C fields are read, and how a send request and its reply turn into a
//! `Result`.
use vstd::prelude::*;
use crate::hooky::{HookResult, hook_result_from_code};
use crate::text::{contains_nul, has_nul, text_or, text_or_spec};

verus! {

/// A loaded bundle as seen during the Start phase.
#[derive(Debug, Clone)]
pub struct BundleEntry {
    /// Bundle identifier (reverse-DNS).
    pub id: String,
    /// Bundle version number.
    pub version: u32,
    /// Human-readable bundle name.
    pub name: String,
}

/// The bytes behind a C string pointer, or nothing for a null pointer.
pub open spec fn c_bytes(bytes: Option<&[u8]>) -> Option<Seq<u8>> {
    match bytes {
        Some(b) => Some(b@),
        None => None,
    }
}

impl BundleEntry {
    /// Builds the entry for one raw bundle record. A null or non-UTF-8 id
    /// reads as `"(unknown)"`, a null or non-UTF-8 name as `"(unnamed)"`.
    pub fn from_c_fields(id: Option<&[u8]>, version: u32, name: Option<&[u8]>) -> (r: BundleEntry)
        ensures
            r.id@ == text_or_spec(c_bytes(id), "(unknown)"@),
            r.version == version,
            r.name@ == text_or_spec(c_bytes(name), "(unnamed)"@),
    {
        BundleEntry { id: text_or(id, "(unknown)"), version, name: text_or(name, "(unnamed)") }
    }
}

/// True when `e` is the entry built from one raw record.
pub open spec fn entry_of_record(e: BundleEntry, rec: (Option<&[u8]>, u32, Option<&[u8]>)) -> bool {
    &&& e.id@ == text_or_spec(c_bytes(rec.0), "(unknown)"@)
    &&& e.version == rec.1
    &&& e.name@ == text_or_spec(c_bytes(rec.2), "(unnamed)"@)
}

impl BundleEntry {
    /// Builds the entries for the raw bundle array, one per record and in
    /// the same order; an absent or empty array gives no entries.
    pub fn from_records(records: &[(Option<&[u8]>, u32, Option<&[u8]>)]) -> (r: Vec<BundleEntry>)
        ensures
            r@.len() == records@.len(),
            forall|i: int| 0 <= i < r@.len() ==> entry_of_record(#[trigger] r@[i], records@[i]),
    {
        let mut out: Vec<BundleEntry> = Vec::new();
        let mut i: usize = 0;
        while i < records.len()
            invariant
                i <= records@.len(),
                out@.len() == i,
                forall|j: int| 0 <= j < i ==> entry_of_record(#[trigger] out@[j], records@[j]),
            decreases records@.len() - i,
        {
            let (id, version, name) = records[i];
            out.push(BundleEntry::from_c_fields(id, version, name));
            i = i + 1;
        }
        out
    }
}

/// Whether the host's API table holds a field. The table begins with its
/// own size, `api_size` bytes, and grows with each API version, so an
/// older host hands a shorter one: a field ending `field_end` bytes from the
/// start may be read only when it lies within that size.
pub fn host_offers_field(api_size: u32, field_end: usize) -> (r: bool)
    ensures
        r == (field_end <= api_size),
{
    field_end <= api_size as usize
}

/// The identity of a message's sender: its bundle id, or `"(unknown)"` when
/// the sender record or its id is missing or not UTF-8.
pub fn sender_id(bytes: Option<&[u8]>) -> (r: String)
    ensures
        r@ == text_or_spec(c_bytes(bytes), "(unknown)"@),
{
    text_or(bytes, "(unknown)")
}

/// Whether a send request can go out: the host must offer `send_message`
/// and the target id must be a valid C string.
pub fn send_precheck(host_can_send: bool, target: &str) -> (r: Result<(), HookResult>)
    ensures
        !host_can_send ==> r == Err::<(), HookResult>(HookResult::Unsupported),
        host_can_send && has_nul(target@) ==> r == Err::<(), HookResult>(
            HookResult::TargetBundleNotFound,
        ),
        host_can_send && !has_nul(target@) ==> r is Ok,
{
    if !host_can_send {
        return Err(HookResult::Unsupported);
    }
    if contains_nul(target) {
        return Err(HookResult::TargetBundleNotFound);
    }
    Ok(())
}

/// The outcome of a send, from the host's raw reply code: success for code
/// 0, otherwise the error that the code names.
pub fn send_outcome(code: i32) -> (r: Result<(), HookResult>)
    ensures
        code == 0 ==> r is Ok,
        code != 0 ==> r == Err::<(), HookResult>(hook_result_from_code(code)),
{
    match HookResult::from_i32(code) {
        HookResult::Success => Ok(()),
        err => Err(err),
    }
}

/// Whether the host reports a bundle as loaded: it must offer the query,
/// the id must be a valid C string, and the host must answer non-zero.
pub fn bundle_loaded(host_can_query: bool, bundle_id: &str, answer: i32) -> (r: bool)
    ensures
        r == (host_can_query && !has_nul(bundle_id@) && answer != 0),
{
    host_can_query && !contains_nul(bundle_id) && answer != 0
}

/// The address pair found by the host's COM_QueryInterface scan, present
/// only when the scan reported success (non-zero).
pub fn com_query_interface_result(found: i32, fn_addr: u32, aggregate_addr: u32) -> (r: Option<
    (u32, u32),
>)
    ensures
        found != 0 ==> r == Some((fn_addr, aggregate_addr)),
        found == 0 ==> r is None,
{
    if found != 0 {
        Some((fn_addr, aggregate_addr))
    } else {
        None
    }
}

} // verus!
