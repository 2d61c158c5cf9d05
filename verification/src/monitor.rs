use vstd::prelude::*;

use std::sync::Arc;

use crate::errors::{EnumerationError, Field};

verus! {

/// The answers of the five per-display native attribute queries, each
/// individually fallible, read at one enumeration instant. A failed query
/// carries the native layer's message.
pub struct FieldReadings {
    pub id: Result<u32, String>,
    pub width: Result<u32, String>,
    pub height: Result<u32, String>,
    pub name: Result<String, String>,
    pub is_primary: Result<bool, String>,
}

/// The static attributes of one display, recorded at enumeration time.
/// Immutable once constructed; shared read-only by every handle clone that
/// refers to the same enumeration event.
#[derive(Debug)]
pub struct MonitorData {
    pub width: u32,
    pub height: u32,
    pub name: String,
    pub is_primary: bool,
}

impl Clone for MonitorData {
    fn clone(&self) -> (r: Self)
        ensures
            r == *self,
    {
        MonitorData {
            width: self.width,
            height: self.height,
            name: self.name.clone(),
            is_primary: self.is_primary,
        }
    }
}

/// A cheap, cloneable handle pairing a display's stable identity with a
/// shared snapshot of its attributes. The identity and snapshot describe the
/// display at the enumeration that produced the handle; nothing mutates them
/// afterwards.
#[derive(Debug)]
pub struct SafeMonitor {
    monitor_id: u32,
    monitor_data: Arc<MonitorData>,
}

impl SafeMonitor {
    /// The identity recorded at construction.
    pub closed spec fn spec_id(self) -> u32 {
        self.monitor_id
    }

    /// The snapshot recorded at construction.
    pub closed spec fn spec_data(self) -> MonitorData {
        *self.monitor_data
    }
}

/// All five attribute queries of the reading succeeded.
pub open spec fn readings_complete(r: FieldReadings) -> bool {
    &&& r.id is Ok
    &&& r.width is Ok
    &&& r.height is Ok
    &&& r.name is Ok
    &&& r.is_primary is Ok
}

/// The handle records exactly the values that the reading answered.
pub open spec fn handle_matches(m: SafeMonitor, r: FieldReadings) -> bool {
    &&& readings_complete(r)
    &&& m.spec_id() == r.id->Ok_0
    &&& m.spec_data().width == r.width->Ok_0
    &&& m.spec_data().height == r.height->Ok_0
    &&& m.spec_data().name == r.name->Ok_0
    &&& m.spec_data().is_primary == r.is_primary->Ok_0
}

/// The error names the first failed query of the reading, in the order the
/// queries are made (id, width, height, name, is_primary), tagged with the
/// display's identity when the identity itself could be read.
pub open spec fn failure_matches(e: EnumerationError, r: FieldReadings) -> bool {
    match e {
        EnumerationError::FieldQuery { identity, field, message } => {
            if r.id is Err {
                &&& identity is None
                &&& field == Field::Id
                &&& message == r.id->Err_0
            } else if r.width is Err {
                &&& identity == Some(r.id->Ok_0)
                &&& field == Field::Width
                &&& message == r.width->Err_0
            } else if r.height is Err {
                &&& identity == Some(r.id->Ok_0)
                &&& field == Field::Height
                &&& message == r.height->Err_0
            } else if r.name is Err {
                &&& identity == Some(r.id->Ok_0)
                &&& field == Field::Name
                &&& message == r.name->Err_0
            } else if r.is_primary is Err {
                &&& identity == Some(r.id->Ok_0)
                &&& field == Field::IsPrimary
                &&& message == r.is_primary->Err_0
            } else {
                false
            }
        },
        _ => false,
    }
}

impl SafeMonitor {
    /// Builds a handle from one display's field readings: fail-fast, so a
    /// handle is produced exactly when every query succeeded, and otherwise
    /// the first failed query (in query order) is reported; partial metadata
    /// is never produced.
    pub fn new(readings: &FieldReadings) -> (r: Result<SafeMonitor, EnumerationError>)
        ensures
            match r {
                Ok(m) => readings_complete(*readings) && handle_matches(m, *readings),
                Err(e) => !readings_complete(*readings) && failure_matches(e, *readings),
            },
    {
        let id: u32 = match &readings.id {
            Ok(v) => *v,
            Err(m) => {
                return Err(EnumerationError::FieldQuery {
                    identity: None,
                    field: Field::Id,
                    message: m.clone(),
                });
            },
        };
        let width: u32 = match &readings.width {
            Ok(v) => *v,
            Err(m) => {
                return Err(EnumerationError::FieldQuery {
                    identity: Some(id),
                    field: Field::Width,
                    message: m.clone(),
                });
            },
        };
        let height: u32 = match &readings.height {
            Ok(v) => *v,
            Err(m) => {
                return Err(EnumerationError::FieldQuery {
                    identity: Some(id),
                    field: Field::Height,
                    message: m.clone(),
                });
            },
        };
        let name: String = match &readings.name {
            Ok(v) => v.clone(),
            Err(m) => {
                return Err(EnumerationError::FieldQuery {
                    identity: Some(id),
                    field: Field::Name,
                    message: m.clone(),
                });
            },
        };
        let is_primary: bool = match &readings.is_primary {
            Ok(v) => *v,
            Err(m) => {
                return Err(EnumerationError::FieldQuery {
                    identity: Some(id),
                    field: Field::IsPrimary,
                    message: m.clone(),
                });
            },
        };
        Ok(SafeMonitor {
            monitor_id: id,
            monitor_data: Arc::new(MonitorData { width, height, name, is_primary }),
        })
    }

    /// The identity, read from the in-memory handle alone.
    pub fn id(&self) -> (r: u32)
        ensures
            r == self.spec_id(),
    {
        self.monitor_id
    }

    /// Width and height as recorded in the snapshot at construction time.
    pub fn dimensions(&self) -> (r: (u32, u32))
        ensures
            r.0 == self.spec_data().width,
            r.1 == self.spec_data().height,
    {
        ((*self.monitor_data).width, (*self.monitor_data).height)
    }

    /// The recorded display name.
    pub fn name(&self) -> (r: &str)
        ensures
            r@ == self.spec_data().name@,
    {
        (*self.monitor_data).name.as_str()
    }

    /// The recorded width.
    pub fn width(&self) -> (r: u32)
        ensures
            r == self.spec_data().width,
    {
        (*self.monitor_data).width
    }

    /// The recorded height.
    pub fn height(&self) -> (r: u32)
        ensures
            r == self.spec_data().height,
    {
        (*self.monitor_data).height
    }

    /// The recorded primary flag.
    pub fn is_primary(&self) -> (r: bool)
        ensures
            r == self.spec_data().is_primary,
    {
        (*self.monitor_data).is_primary
    }

    /// A copy of the whole recorded snapshot.
    pub fn get_info(&self) -> (r: MonitorData)
        ensures
            r == self.spec_data(),
    {
        (*self.monitor_data).clone()
    }
}

impl Clone for SafeMonitor {
    /// Copies the identity and shares the snapshot. The body touches only
    /// in-memory state: no native query is made, and the clone observes the
    /// same identity and snapshot as the original.
    fn clone(&self) -> (r: Self)
        ensures
            r.spec_id() == self.spec_id(),
            r.spec_data() == self.spec_data(),
    {
        SafeMonitor { monitor_id: self.monitor_id, monitor_data: self.monitor_data.clone() }
    }
}

} // verus!
