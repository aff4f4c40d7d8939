//! Monitor descriptors: what the platform reports for each display output,
//! shaped into an immutable record with a stable per-session identifier.
use crate::rect_extensions::Rect;
use vstd::prelude::*;
use vstd::string::StringSliceAdditionalSpecFns;

verus! {

pub type MonitorId = u32;

/// Identity and geometry of one physical display, rebuilt fresh on every
/// enumeration.
#[derive(Debug)]
pub struct MonitorInfo {
    pub id: MonitorId,
    pub name: String,
    pub rect: Rect,
    /// The part of `rect` not covered by persistent OS UI such as a taskbar.
    pub work_area: Rect,
    pub is_primary: bool,
}

/// What the platform reports for one display output before it is shaped
/// into a `MonitorInfo`: the device path, the raw geometry, and the flag
/// word whose value 1 marks the primary display.
#[derive(Debug)]
pub struct RawMonitorInfo {
    pub name: String,
    pub rect: Rect,
    pub work_area: Rect,
    pub flags: u32,
}

/// One step of the display enumeration: either the platform handed the
/// output's information, or the query for that output failed.
#[derive(Debug)]
pub enum MonitorQuery {
    Info(RawMonitorInfo),
    QueryFailed,
}

/// The display query failed for some output; the enumeration has no
/// partial result. The caller may retry later.
#[derive(Debug, Clone, Copy, PartialEq, Eq, Structural)]
pub struct EnumerationError;

/// What `fxhash::hash32` returns for a device name: a fixed,
/// non-cryptographic hash that depends on the name's characters alone, so
/// identifiers are reproducible within a process run.
pub uninterp spec fn fx_hash32_of(name: Seq<char>) -> u32;

/// Relies on `fxhash::hash32` over the UTF-8 bytes of the name: an unseeded
/// hash whose result is a function of the hashed bytes alone.
#[verifier::external_body]
fn hash_device_name(name: &str) -> (id: u32)
    ensures
        id == fx_hash32_of(name@),
{
    fxhash::hash32(name.as_bytes())
}

/// The descriptor `m` is the one built from the raw platform record `raw`:
/// the identifier is the fxhash of the device name, and the primary flag is
/// set exactly when the platform's flag word is 1.
pub open spec fn monitor_info_matches(m: MonitorInfo, raw: RawMonitorInfo) -> bool {
    &&& m.id == fx_hash32_of(raw.name@)
    &&& m.name@ == raw.name@
    &&& m.rect == raw.rect
    &&& m.work_area == raw.work_area
    &&& m.is_primary == (raw.flags == 1)
}

/// Shape one raw platform record into a monitor descriptor.
pub fn monitor_info_from_raw(raw: &RawMonitorInfo) -> (m: MonitorInfo)
    ensures
        monitor_info_matches(m, *raw),
{
    let id = hash_device_name(raw.name.as_str());
    let name = raw.name.as_str().to_owned();
    MonitorInfo { id, name, rect: raw.rect, work_area: raw.work_area, is_primary: raw.flags == 1 }
}

/// All-or-nothing enumeration over the outputs the platform visited, in
/// the platform's order: if the query for any single output failed, the
/// whole enumeration fails; otherwise every output becomes exactly one
/// descriptor, in order.
pub fn get_monitor_infos(queries: &Vec<MonitorQuery>) -> (r: Result<
    Vec<MonitorInfo>,
    EnumerationError,
>)
    ensures
        r is Ok <==> (forall|i: int| 0 <= i < queries@.len() ==> queries@[i] is Info),
        r is Ok ==> {
            &&& r->Ok_0@.len() == queries@.len()
            &&& forall|i: int|
                0 <= i < queries@.len() ==> monitor_info_matches(
                    r->Ok_0@[i],
                    queries@[i]->Info_0,
                )
        },
        r is Err ==> r->Err_0 == EnumerationError,
{
    let n = queries.len();
    let mut infos: Vec<MonitorInfo> = Vec::new();
    let mut i: usize = 0;
    while i < n
        invariant
            n == queries@.len(),
            i <= n,
            infos@.len() == i,
            forall|j: int| 0 <= j < i ==> queries@[j] is Info,
            forall|j: int|
                0 <= j < i ==> monitor_info_matches(infos@[j], queries@[j]->Info_0),
        decreases n - i,
    {
        match &queries[i] {
            MonitorQuery::Info(raw) => {
                let info = monitor_info_from_raw(raw);
                infos.push(info);
            },
            MonitorQuery::QueryFailed => {
                proof {
                    assert(!(queries@[i as int] is Info));
                }
                return Err(EnumerationError);
            },
        }
        i += 1;
    }
    Ok(infos)
}

/// Whether a device name can serve as a platform device path: it must hold
/// no NUL byte. A name that fails this is rejected before any display
/// context is opened on it.
pub fn device_name_valid(name: &str) -> (r: bool)
    ensures
        r <==> (forall|i: int|
            0 <= i < name.spec_bytes().len() ==> name.spec_bytes()[i] != 0),
{
    let bytes = name.as_bytes();
    let n = bytes.len();
    let mut i: usize = 0;
    while i < n
        invariant
            n == bytes@.len(),
            bytes@ == name.spec_bytes(),
            i <= n,
            forall|j: int| 0 <= j < i ==> name.spec_bytes()[j] != 0,
        decreases n - i,
    {
        if bytes[i] == 0 {
            return false;
        }
        i += 1;
    }
    true
}

/// Identifier stability: two descriptors built, in this or any later
/// enumeration, from records that report the same device name carry the
/// same identifier, since the identifier is a function of the name alone.
pub proof fn lemma_enumeration_ids_stable(
    a: MonitorInfo,
    b: MonitorInfo,
    raw_a: RawMonitorInfo,
    raw_b: RawMonitorInfo,
)
    requires
        monitor_info_matches(a, raw_a),
        monitor_info_matches(b, raw_b),
        raw_a.name@ == raw_b.name@,
    ensures
        a.id == b.id,
{
}

} // verus!
