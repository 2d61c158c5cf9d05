use vstd::prelude::*;

use crate::errors::{CaptureError, Field};
use crate::frame::{frame_into_image, image_of, CapturedFrame};
use crate::monitor::{FieldReadings, SafeMonitor};

verus! {

/// Scanning the enumeration in order for `target` ran into a display at
/// position `j` whose identity cannot be read, before any match.
pub open spec fn scan_stops_with_id_error_at(rs: Seq<FieldReadings>, target: u32, j: int) -> bool {
    &&& 0 <= j < rs.len()
    &&& rs[j].id is Err
    &&& forall|k: int| 0 <= k < j ==> (#[trigger] rs[k]).id is Ok && rs[k].id->Ok_0 != target
}

/// Scanning the enumeration in order for `target` finds its first match at
/// position `i`.
pub open spec fn scan_matches_at(rs: Seq<FieldReadings>, target: u32, i: int) -> bool {
    &&& 0 <= i < rs.len()
    &&& rs[i].id is Ok
    &&& rs[i].id->Ok_0 == target
    &&& forall|k: int| 0 <= k < i ==> (#[trigger] rs[k]).id is Ok && rs[k].id->Ok_0 != target
}

/// Every display's identity reads successfully and none of them is `target`.
pub open spec fn scan_finds_nothing(rs: Seq<FieldReadings>, target: u32) -> bool {
    forall|k: int| 0 <= k < rs.len() ==> (#[trigger] rs[k]).id is Ok && rs[k].id->Ok_0 != target
}

impl SafeMonitor {
    /// Resolves this handle's identity against the outcome of one fresh
    /// native enumeration and validates the matched display, yielding the
    /// position to capture from. The scan walks the enumeration in order and
    /// stops at the first match; it fails with the precise reason: the
    /// enumeration itself failed, an identity could not be read before any
    /// match, no display carries the identity, the matched display's live
    /// width or height could not be read, or the matched display reports a
    /// zero dimension — in which case no capture position is ever produced.
    #[verifier::loop_isolation(false)]
    pub fn resolve_capture(&self, outcome: Result<Vec<FieldReadings>, String>) -> (r: Result<
        usize,
        CaptureError,
    >)
        ensures
            match r {
                Ok(i) => {
                    &&& outcome matches Ok(rs)
                    &&& scan_matches_at(rs@, self.spec_id(), i as int)
                    &&& rs@[i as int].width is Ok
                    &&& rs@[i as int].height is Ok
                    &&& rs@[i as int].width->Ok_0 != 0
                    &&& rs@[i as int].height->Ok_0 != 0
                },
                Err(e) => match e {
                    CaptureError::Enumeration { message } => outcome matches Err(m) && message
                        == m,
                    CaptureError::FieldQuery { identity, field, message } => outcome matches Ok(rs)
                        && {
                        if field == Field::Id {
                            &&& identity is None
                            &&& exists|j: int|
                                #[trigger] scan_stops_with_id_error_at(rs@, self.spec_id(), j)
                                    && message == rs@[j].id->Err_0
                        } else if field == Field::Width {
                            &&& identity == Some(self.spec_id())
                            &&& exists|i: int|
                                #[trigger] scan_matches_at(rs@, self.spec_id(), i)
                                    && rs@[i].width is Err && message == rs@[i].width->Err_0
                        } else if field == Field::Height {
                            &&& identity == Some(self.spec_id())
                            &&& exists|i: int|
                                #[trigger] scan_matches_at(rs@, self.spec_id(), i)
                                    && rs@[i].width is Ok && rs@[i].height is Err && message
                                    == rs@[i].height->Err_0
                        } else {
                            false
                        }
                    },
                    CaptureError::NotFound { identity } => {
                        &&& identity == self.spec_id()
                        &&& outcome matches Ok(rs)
                        &&& scan_finds_nothing(rs@, self.spec_id())
                    },
                    CaptureError::InvalidDimensions { identity, width, height } => {
                        &&& identity == self.spec_id()
                        &&& outcome matches Ok(rs)
                        &&& exists|i: int|
                            #[trigger] scan_matches_at(rs@, self.spec_id(), i) && rs@[i].width
                                is Ok && rs@[i].height is Ok && rs@[i].width->Ok_0 == width
                                && rs@[i].height->Ok_0 == height
                        &&& (width == 0 || height == 0)
                    },
                    CaptureError::CaptureFailed { .. } => false,
                    CaptureError::WorkerAborted { .. } => false,
                },
            },
    {
        let target = self.id();
        let readings = match outcome {
            Ok(rs) => rs,
            Err(message) => {
                return Err(CaptureError::Enumeration { message });
            },
        };
        let mut i: usize = 0;
        while i < readings.len()
            invariant
                i <= readings@.len(),
                forall|k: int|
                    0 <= k < i ==> (#[trigger] readings@[k]).id is Ok && readings@[k].id->Ok_0
                        != target,
            decreases readings@.len() - i,
        {
            match &readings[i].id {
                Err(m) => {
                    proof {
                        assert(scan_stops_with_id_error_at(readings@, target, i as int));
                    }
                    return Err(CaptureError::FieldQuery {
                        identity: None,
                        field: Field::Id,
                        message: m.clone(),
                    });
                },
                Ok(v) => {
                    if *v == target {
                        proof {
                            assert(scan_matches_at(readings@, target, i as int));
                        }
                        let width: u32 = match &readings[i].width {
                            Ok(w) => *w,
                            Err(m) => {
                                return Err(CaptureError::FieldQuery {
                                    identity: Some(target),
                                    field: Field::Width,
                                    message: m.clone(),
                                });
                            },
                        };
                        let height: u32 = match &readings[i].height {
                            Ok(h) => *h,
                            Err(m) => {
                                return Err(CaptureError::FieldQuery {
                                    identity: Some(target),
                                    field: Field::Height,
                                    message: m.clone(),
                                });
                            },
                        };
                        if width == 0 || height == 0 {
                            return Err(CaptureError::InvalidDimensions {
                                identity: target,
                                width,
                                height,
                            });
                        }
                        return Ok(i);
                    }
                },
            }
            i += 1;
        }
        Err(CaptureError::NotFound { identity: target })
    }

    /// Turns the outcome of the native capture call on the resolved display
    /// into the capture's final result: on success, exactly the RGBA image
    /// wrapping the captured frame's bytes, with no pixel transformation;
    /// otherwise a `CaptureFailed` carrying this handle's identity and the
    /// native message.
    pub fn finish_capture(&self, outcome: Result<CapturedFrame, String>) -> (r: Result<
        image::DynamicImage,
        CaptureError,
    >)
        ensures
            r is Ok <==> outcome is Ok,
            r matches Ok(img) ==> outcome matches Ok(f) && img == image_of(
                f.spec_width(),
                f.spec_height(),
                f.spec_rgba(),
            ),
            r matches Err(e) ==> outcome matches Err(m) && e == (CaptureError::CaptureFailed {
                identity: self.spec_id(),
                message: m,
            }),
    {
        match outcome {
            Ok(frame) => Ok(frame_into_image(frame)),
            Err(message) => Err(CaptureError::CaptureFailed { identity: self.id(), message }),
        }
    }
}

} // verus!
