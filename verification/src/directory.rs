use vstd::prelude::*;

use crate::errors::EnumerationError;
use crate::monitor::{failure_matches, handle_matches, readings_complete, FieldReadings, SafeMonitor};

verus! {

/// Every display's identity query in the enumeration succeeded.
pub open spec fn all_ids_readable(rs: Seq<FieldReadings>) -> bool {
    forall|i: int| 0 <= i < rs.len() ==> (#[trigger] rs[i]).id is Ok
}

/// Some display in the enumeration answered the identity `id`.
pub open spec fn has_id(rs: Seq<FieldReadings>, id: u32) -> bool {
    exists|i: int| 0 <= i < rs.len() && (#[trigger] rs[i]).id is Ok && rs[i].id->Ok_0 == id
}

/// `i` is the least position whose display answered the identity `id`.
pub open spec fn first_match_at(rs: Seq<FieldReadings>, id: u32, i: int) -> bool {
    &&& 0 <= i < rs.len()
    &&& rs[i].id is Ok
    &&& rs[i].id->Ok_0 == id
    &&& forall|j: int| 0 <= j < i ==> !((#[trigger] rs[j]).id is Ok && rs[j].id->Ok_0 == id)
}

/// The least index at which `ids` holds `target`, if any: the core of
/// resolving a monitor identity against a freshly enumerated display set.
#[verifier::loop_isolation(false)]
pub fn find_monitor_index(ids: &Vec<u32>, target: u32) -> (r: Option<usize>)
    ensures
        match r {
            Some(i) => i < ids@.len() && ids@[i as int] == target && (forall|j: int|
                0 <= j < i ==> ids@[j] != target),
            None => forall|j: int| 0 <= j < ids@.len() ==> ids@[j] != target,
        },
{
    let mut i: usize = 0;
    while i < ids.len()
        invariant
            i <= ids@.len(),
            forall|j: int| 0 <= j < i ==> ids@[j] != target,
        decreases ids@.len() - i,
    {
        if ids[i] == target {
            return Some(i);
        }
        i += 1;
    }
    None
}

/// Turns the outcome of one native "enumerate all displays" query into the
/// full list of monitor handles. A failed native query fails the whole call,
/// and a failed field query on any display aborts with that display's first
/// failure, in enumeration order: no partial list is ever produced.
#[verifier::loop_isolation(false)]
pub fn list_monitors_from(outcome: Result<Vec<FieldReadings>, String>) -> (r: Result<
    Vec<SafeMonitor>,
    EnumerationError,
>)
    ensures
        match r {
            Ok(hs) => {
                &&& outcome matches Ok(rs)
                &&& hs@.len() == rs@.len()
                &&& forall|i: int|
                    0 <= i < hs@.len() ==> handle_matches(#[trigger] hs@[i], rs@[i])
            },
            Err(e) => match e {
                EnumerationError::NativeQuery { message } => outcome matches Err(m) && message
                    == m,
                _ => outcome matches Ok(rs) && exists|i: int|
                    0 <= i < rs@.len() && !readings_complete(#[trigger] rs@[i]) && failure_matches(
                        e,
                        rs@[i],
                    ) && (forall|j: int| 0 <= j < i ==> readings_complete(rs@[j])),
            },
        },
{
    let readings = match outcome {
        Ok(rs) => rs,
        Err(message) => {
            return Err(EnumerationError::NativeQuery { message });
        },
    };
    let mut out: Vec<SafeMonitor> = Vec::new();
    let mut i: usize = 0;
    while i < readings.len()
        invariant
            i <= readings@.len(),
            out@.len() == i,
            forall|j: int| 0 <= j < i ==> readings_complete(readings@[j]),
            forall|j: int| 0 <= j < i ==> handle_matches(#[trigger] out@[j], readings@[j]),
        decreases readings@.len() - i,
    {
        match SafeMonitor::new(&readings[i]) {
            Ok(m) => out.push(m),
            Err(e) => {
                proof {
                    assert((i as int) < readings@.len() && !readings_complete(
                        readings@[i as int],
                    ) && failure_matches(e, readings@[i as int]) && (forall|j: int|
                        0 <= j < i as int ==> readings_complete(readings@[j])));
                }
                return Err(e);
            },
        }
        i += 1;
    }
    Ok(out)
}

/// Turns the outcome of one native enumeration into the default monitor
/// handle: positionally the first display of the enumeration, regardless of
/// any primary flag. An empty enumeration has no default.
pub fn get_default_monitor_from(outcome: Result<Vec<FieldReadings>, String>) -> (r: Result<
    SafeMonitor,
    EnumerationError,
>)
    ensures
        match r {
            Ok(m) => outcome matches Ok(rs) && rs@.len() > 0 && handle_matches(m, rs@[0]),
            Err(e) => match e {
                EnumerationError::NativeQuery { message } => outcome matches Err(m) && message
                    == m,
                EnumerationError::NoDisplays => outcome matches Ok(rs) && rs@.len() == 0,
                _ => outcome matches Ok(rs) && rs@.len() > 0 && !readings_complete(rs@[0])
                    && failure_matches(e, rs@[0]),
            },
        },
{
    let readings = match outcome {
        Ok(rs) => rs,
        Err(message) => {
            return Err(EnumerationError::NativeQuery { message });
        },
    };
    if readings.len() == 0 {
        return Err(EnumerationError::NoDisplays);
    }
    SafeMonitor::new(&readings[0])
}

/// Turns the outcome of one native enumeration into the monitor handle with
/// the requested identity, collapsing every failure into absence: a failed
/// native query, a display whose identity cannot be read, an identity that no
/// display carries, and a matched display whose remaining field queries fail
/// all alike yield `None`.
#[verifier::loop_isolation(false)]
pub fn get_monitor_by_id_from(outcome: Result<Vec<FieldReadings>, String>, id: u32) -> (r: Option<
    SafeMonitor,
>)
    ensures
        match r {
            Some(m) => {
                &&& outcome matches Ok(rs)
                &&& all_ids_readable(rs@)
                &&& exists|i: int|
                    #[trigger] first_match_at(rs@, id, i) && handle_matches(m, rs@[i])
                &&& m.spec_id() == id
            },
            None => {
                ||| outcome is Err
                ||| (outcome matches Ok(rs) && !all_ids_readable(rs@))
                ||| (outcome matches Ok(rs) && all_ids_readable(rs@) && !has_id(rs@, id))
                ||| (outcome matches Ok(rs) && exists|i: int|
                    #[trigger] first_match_at(rs@, id, i) && !readings_complete(rs@[i]))
            },
        },
{
    let readings = match outcome {
        Ok(rs) => rs,
        Err(_) => {
            return None;
        },
    };
    let mut ids: Vec<u32> = Vec::new();
    let mut i: usize = 0;
    while i < readings.len()
        invariant
            i <= readings@.len(),
            ids@.len() == i,
            forall|j: int|
                0 <= j < i ==> (#[trigger] readings@[j]).id is Ok && ids@[j]
                    == readings@[j].id->Ok_0,
        decreases readings@.len() - i,
    {
        match &readings[i].id {
            Ok(v) => ids.push(*v),
            Err(_) => {
                proof {
                    assert(!all_ids_readable(readings@)) by {
                        assert((readings@[i as int]).id is Err);
                    }
                }
                return None;
            },
        }
        i += 1;
    }
    match find_monitor_index(&ids, id) {
        None => {
            proof {
                assert(!has_id(readings@, id)) by {
                    if has_id(readings@, id) {
                        let w = choose|k: int|
                            0 <= k < readings@.len() && (#[trigger] readings@[k]).id is Ok
                                && readings@[k].id->Ok_0 == id;
                        assert(ids@[w] == id);
                    }
                }
            }
            None
        },
        Some(i) => {
            proof {
                assert(first_match_at(readings@, id, i as int));
            }
            match SafeMonitor::new(&readings[i]) {
                Ok(m) => Some(m),
                Err(_) => None,
            }
        },
    }
}

} // verus!
