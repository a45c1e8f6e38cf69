//! The capture session's single-slot pending stores and its state
//! transitions: capture, publish, finalize and cancel. The pending canvas
//! and the preview are take-once; the published layout is handed to the
//! surface exactly once and kept for the monitor finalize step.

use vstd::prelude::*;
use crate::capture::{crop_monitor, crop_region, region_out_of_bounds, CompositeCapture, ScreenLayout};
use crate::errors::{ProtocolError, RegionError, SessionError};
use crate::image_data::Image;

verus! {

/// Single-slot, take-once store for the composited canvas. A read is
/// destructive: the slot is cleared by the first successful take, so a stale
/// capture can never leak into a second session.
pub struct PendingCapture(pub Option<Image>);

/// Single-slot, take-once store for the encoded preview handed to the
/// interactive selection surface.
pub struct PendingDataUrl(pub Option<String>);

/// Single-slot store for the published screen layout. The interactive
/// surface's request is take-once: publishing grants exactly one read, and a
/// second request fails with `NoPendingData`. The layout value itself is
/// immutable once published and stays in the slot, because the monitor
/// finalize step must still map a monitor index through it; only a finished
/// or cancelled session clears it.
pub struct PendingScreenLayout {
    pub slot: Option<ScreenLayout>,
    pub surface_pending: bool,
}

/// What taking from a single-slot store yields, and the store afterwards: a
/// full slot hands its value out exactly once and is empty from then on.
pub open spec fn take_outcome(s: Option<Image>) -> (Result<Image, ProtocolError>, Option<Image>) {
    match s {
        Some(img) => (Ok(img), None),
        None => (Err(ProtocolError::NoPendingCapture), None),
    }
}

impl PendingCapture {
    /// A held canvas is a well-formed image.
    pub open spec fn well_formed(self) -> bool {
        self.0 matches Some(img) ==> img.well_formed()
    }

    /// Take the pending canvas out of the slot, clearing it. A second take
    /// fails with `NoPendingCapture`: it signals a protocol violation by the
    /// caller and is never retried.
    pub fn take(&mut self) -> (r: Result<Image, ProtocolError>)
        ensures
            r == take_outcome(old(self).0).0,
            final(self).0 == take_outcome(old(self).0).1,
    {
        match self.0.take() {
            Some(img) => Ok(img),
            None => Err(ProtocolError::NoPendingCapture),
        }
    }
}

/// What requesting the layout yields, and the store afterwards: a published
/// layout is handed to the surface exactly once; the slot itself keeps the
/// layout for the finalize step.
pub open spec fn layout_request_outcome(s: PendingScreenLayout) -> (
    Result<ScreenLayout, ProtocolError>,
    PendingScreenLayout,
) {
    if s.surface_pending && s.slot is Some {
        (Ok(s.slot->0), PendingScreenLayout { slot: s.slot, surface_pending: false })
    } else {
        (Err(ProtocolError::NoPendingData), s)
    }
}

impl PendingScreenLayout {
    /// A held layout keeps every display rect inside its canvas.
    pub open spec fn well_formed(self) -> bool {
        self.slot matches Some(l) ==> l.well_formed()
    }
}

/// The published layout is handed to the surface exactly once: after one
/// successful request every further request fails with `NoPendingData`, and
/// only publishing a fresh capture grants a new read. The layout value stays
/// in the slot throughout, so the monitor finalize step can still map a
/// monitor index.
pub proof fn lemma_layout_request_once(s: PendingScreenLayout)
    requires
        s.slot is Some,
        s.surface_pending,
    ensures
        ({
            let (r1, s1) = layout_request_outcome(s);
            let (r2, s2) = layout_request_outcome(s1);
            &&& r1 == Ok::<ScreenLayout, ProtocolError>(s.slot->0)
            &&& s1.slot == s.slot
            &&& r2 == Err::<ScreenLayout, ProtocolError>(ProtocolError::NoPendingData)
            &&& s2.slot == s.slot
        }),
{
}

/// The pending canvas is take-once: taking from a full slot hands out its
/// canvas and empties the slot, and every further take from the emptied slot
/// fails with `NoPendingCapture`; only storing a fresh capture makes a take
/// succeed again.
pub proof fn lemma_pending_capture_take_once(s: Option<Image>)
    requires
        s is Some,
    ensures
        ({
            let (r1, s1) = take_outcome(s);
            let (r2, s2) = take_outcome(s1);
            &&& r1 == Ok::<Image, ProtocolError>(s->0)
            &&& s1 is None
            &&& r2 == Err::<Image, ProtocolError>(ProtocolError::NoPendingCapture)
            &&& s2 is None
        }),
{
}

/// Store a fresh composite and its encoded preview in the pending slots,
/// publishing the layout alongside them. This is the `Idle` to `Captured`
/// transition; it runs before any interactive surface exists, so the capture
/// is pixel-identical to the pre-interaction screen.
pub fn publish_capture(
    cc: CompositeCapture,
    data_url: String,
    capture: &mut PendingCapture,
    url: &mut PendingDataUrl,
    layout: &mut PendingScreenLayout,
)
    requires
        cc.well_formed(),
    ensures
        final(capture).0 == Some(cc.image),
        final(capture).well_formed(),
        final(url).0 == Some(data_url),
        final(layout).well_formed(),
        final(layout).slot matches Some(l) ==> {
            &&& l.monitors@ == cc.monitors@
            &&& l.origin_x == cc.origin_x
            &&& l.origin_y == cc.origin_y
            &&& l.virtual_width == cc.virtual_width
            &&& l.virtual_height == cc.virtual_height
        },
        final(layout).slot is Some,
        final(layout).surface_pending,
{
    let published = ScreenLayout {
        monitors: cc.monitors,
        origin_x: cc.origin_x,
        origin_y: cc.origin_y,
        virtual_width: cc.virtual_width,
        virtual_height: cc.virtual_height,
    };
    capture.0 = Some(cc.image);
    url.0 = Some(data_url);
    layout.slot = Some(published);
    layout.surface_pending = true;
}

/// Hand the encoded preview to the interactive surface, exactly once: the
/// slot is cleared by the read and a second request fails with
/// `NoPendingData`.
pub fn get_pending_data_url(state: &mut PendingDataUrl) -> (r: Result<String, ProtocolError>)
    ensures
        old(state).0 matches Some(s) ==> r == Ok::<String, ProtocolError>(s),
        old(state).0 is None ==> r == Err::<String, ProtocolError>(ProtocolError::NoPendingData),
        final(state).0 is None,
{
    match state.0.take() {
        Some(s) => Ok(s),
        None => Err(ProtocolError::NoPendingData),
    }
}

/// Hand the published layout to the interactive surface, exactly once: a
/// second request fails with `NoPendingData`. The layout value itself stays
/// in the slot for the finalize step, which reads the store directly.
pub fn get_screen_layout(state: &mut PendingScreenLayout) -> (r: Result<
    ScreenLayout,
    ProtocolError,
>)
    ensures
        r is Ok <==> layout_request_outcome(*old(state)).0 is Ok,
        r is Err ==> r == Err::<ScreenLayout, ProtocolError>(ProtocolError::NoPendingData),
        *final(state) == layout_request_outcome(*old(state)).1,
        old(state).surface_pending ==> (old(state).slot matches Some(l) ==> (r matches Ok(out) && {
            &&& out.monitors@ == l.monitors@
            &&& out.origin_x == l.origin_x
            &&& out.origin_y == l.origin_y
            &&& out.virtual_width == l.virtual_width
            &&& out.virtual_height == l.virtual_height
        })),
{
    if !state.surface_pending {
        return Err(ProtocolError::NoPendingData);
    }
    match &state.slot {
        Some(l) => {
            let copy = l.snapshot();
            state.surface_pending = false;
            Ok(copy)
        },
        None => Err(ProtocolError::NoPendingData),
    }
}

/// Finalize the session with a canvas-space rectangle selection: crop the
/// pending canvas to it and clear the slot, exactly once.
///
/// A selection error leaves the captured state untouched, so the caller may
/// offer another selection; only a successful crop consumes the capture. A
/// zero-size selection fails as an empty region whatever the canvas size; a
/// nonempty one that misses the canvas fails as out of bounds.
pub fn finish_region_capture(state: &mut PendingCapture, x: u32, y: u32, w: u32, h: u32) -> (r:
    Result<Image, SessionError>)
    requires
        old(state).well_formed(),
    ensures
        final(state).well_formed(),
        old(state).0 is None ==> r == Err::<Image, SessionError>(
            SessionError::Protocol(ProtocolError::NoPendingCapture),
        ) && *final(state) == *old(state),
        old(state).0 matches Some(img) ==> {
            &&& w == 0 || h == 0 ==> r == Err::<Image, SessionError>(
                SessionError::Region(RegionError::EmptyRegion),
            ) && *final(state) == *old(state)
            &&& w > 0 && h > 0 && region_out_of_bounds(img, x, y, w, h) ==> r == Err::<
                Image,
                SessionError,
            >(SessionError::Region(RegionError::OutOfBounds)) && *final(state) == *old(state)
            &&& !region_out_of_bounds(img, x, y, w, h) && w > 0 && h > 0 ==> {
                &&& final(state).0 is None
                &&& r matches Ok(out)
                &&& out.well_formed()
                &&& out.width == w
                &&& out.height == h
                &&& forall|ix: int, iy: int, c: int|
                    0 <= ix < w && 0 <= iy < h && 0 <= c < 4 ==> #[trigger] out.byte_at(ix, iy, c)
                        == img.byte_at(x + ix, y + iy, c)
            }
        },
{
    match &state.0 {
        None => Err(SessionError::Protocol(ProtocolError::NoPendingCapture)),
        Some(img) => {
            match crop_region(img, x, y, w, h) {
                Ok(out) => {
                    state.0 = None;
                    Ok(out)
                },
                Err(e) => Err(SessionError::Region(e)),
            }
        },
    }
}

/// Finalize the session with a monitor selection: map the index through the
/// published layout, crop the pending canvas and clear the slot, exactly
/// once. As with region selections, an invalid index or a rect that misses
/// the canvas leaves the captured state untouched.
pub fn finish_monitor_capture(
    capture_state: &mut PendingCapture,
    layout_state: &PendingScreenLayout,
    monitor_index: usize,
) -> (r: Result<Image, SessionError>)
    requires
        old(capture_state).well_formed(),
        layout_state.well_formed(),
    ensures
        final(capture_state).well_formed(),
        old(capture_state).0 is None ==> r == Err::<Image, SessionError>(
            SessionError::Protocol(ProtocolError::NoPendingCapture),
        ) && *final(capture_state) == *old(capture_state),
        old(capture_state).0 is Some && layout_state.slot is None ==> r == Err::<
            Image,
            SessionError,
        >(SessionError::Protocol(ProtocolError::NoPendingData)) && *final(capture_state) == *old(
            capture_state,
        ),
        old(capture_state).0 matches Some(img) ==> layout_state.slot matches Some(l) ==> {
            &&& monitor_index >= l.monitors@.len() ==> r == Err::<Image, SessionError>(
                SessionError::Region(RegionError::InvalidMonitorIndex),
            ) && *final(capture_state) == *old(capture_state)
            &&& monitor_index < l.monitors@.len() ==> {
                let m = l.monitors@[monitor_index as int];
                let cx = m.x as int - l.origin_x as int;
                let cy = m.y as int - l.origin_y as int;
                &&& m.width == 0 || m.height == 0 ==> r == Err::<Image, SessionError>(
                    SessionError::Region(RegionError::EmptyRegion),
                ) && *final(capture_state) == *old(capture_state)
                &&& m.width > 0 && m.height > 0 && (cx + m.width > img.width || cy + m.height
                    > img.height) ==> r == Err::<Image, SessionError>(
                    SessionError::Region(RegionError::OutOfBounds),
                ) && *final(capture_state) == *old(capture_state)
                &&& cx + m.width <= img.width && cy + m.height <= img.height && m.width > 0
                    && m.height > 0 ==> {
                    &&& final(capture_state).0 is None
                    &&& r matches Ok(out)
                    &&& out.well_formed()
                    &&& out.width == m.width
                    &&& out.height == m.height
                    &&& forall|ix: int, iy: int, c: int|
                        0 <= ix < m.width && 0 <= iy < m.height && 0 <= c < 4 ==> #[trigger]
                        out.byte_at(ix, iy, c) == img.byte_at(cx + ix, cy + iy, c)
                }
            }
        },
{
    match &capture_state.0 {
        None => Err(SessionError::Protocol(ProtocolError::NoPendingCapture)),
        Some(img) => {
            match &layout_state.slot {
                None => Err(SessionError::Protocol(ProtocolError::NoPendingData)),
                Some(l) => {
                    match crop_monitor(img, l, monitor_index) {
                        Ok(out) => {
                            capture_state.0 = None;
                            Ok(out)
                        },
                        Err(e) => Err(SessionError::Region(e)),
                    }
                },
            }
        },
    }
}

/// Finalize the session with the whole canvas: take the pending capture as
/// it is, exactly once.
pub fn capture_full_and_finish(state: &mut PendingCapture) -> (r: Result<Image, ProtocolError>)
    ensures
        r == take_outcome(old(state).0).0,
        final(state).0 == take_outcome(old(state).0).1,
{
    state.take()
}

/// Cancel the session: clear every pending slot without producing output.
/// Always succeeds; this is the terminal `Cancelled` state.
pub fn cancel_region_capture(
    capture: &mut PendingCapture,
    url: &mut PendingDataUrl,
    layout: &mut PendingScreenLayout,
)
    ensures
        final(capture).0 is None,
        final(url).0 is None,
        final(layout).slot is None,
        !final(layout).surface_pending,
{
    capture.0 = None;
    url.0 = None;
    layout.slot = None;
    layout.surface_pending = false;
}

} // verus!
