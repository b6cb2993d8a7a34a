//! Grabbing the cursor, and what is done to the cursor of a new window.
//!
//! The windowing backend may refuse a grab. The requests below are what is
//! asked of it, in order; making them and reading the answers is the caller's
//! part.

use vstd::prelude::*;

verus! {

/// How a window holds on to the cursor.
#[derive(Clone, Copy, Debug, PartialEq, Eq, Structural)]
pub enum CursorGrabMode {
    /// The window does not hold the cursor.
    Free,
    /// The cursor cannot leave the area of the window.
    Confined,
    /// The cursor stays at one position inside the window.
    Locked,
}

/// What a window wants of the cursor.
#[derive(Clone, Copy, Debug, PartialEq, Eq, Structural)]
pub struct CursorOptions {
    /// The cursor is shown.
    pub visible: bool,
    /// How the window holds on to the cursor.
    pub grab_mode: CursorGrabMode,
    /// The window catches cursor events; otherwise they fall through to what
    /// lies below it.
    pub hit_test: bool,
}

/// One request about the cursor, made to the windowing backend.
#[derive(Clone, Copy, Debug, PartialEq, Eq, Structural)]
pub enum CursorRequest {
    /// Grab the cursor in this mode, with its fallback.
    Grab(CursorGrabMode),
    /// Show or hide the cursor.
    SetVisible(bool),
    /// Let the window catch cursor events, or not.
    SetHitTest(bool),
}

/// The grabs that are asked of the backend for `grab_mode`, in order, until
/// one is granted: releasing is asked once; confining falls back on locking
/// and locking on confining.
pub open spec fn grab_order(grab_mode: CursorGrabMode) -> Seq<CursorGrabMode> {
    match grab_mode {
        CursorGrabMode::Free => seq![CursorGrabMode::Free],
        CursorGrabMode::Confined => seq![CursorGrabMode::Confined, CursorGrabMode::Locked],
        CursorGrabMode::Locked => seq![CursorGrabMode::Locked, CursorGrabMode::Confined],
    }
}

/// The requests made for the cursor of a new window, in order. A grab is asked
/// for only where the cursor is not left free; hit testing is set only where it is
/// switched off.
pub open spec fn cursor_requests(options: CursorOptions) -> Seq<CursorRequest> {
    let grab = if options.grab_mode != CursorGrabMode::Free {
        seq![CursorRequest::Grab(options.grab_mode)]
    } else {
        seq![]
    };
    let hit_test = if !options.hit_test {
        seq![CursorRequest::SetHitTest(false)]
    } else {
        seq![]
    };
    grab + seq![CursorRequest::SetVisible(options.visible)] + hit_test
}

/// The first grab asked of the backend is the one wanted, and at most one
/// other grab is asked after it: never a release in place of a grab, nor a
/// grab in place of a release.
pub proof fn lemma_grab_order_starts_with_request(grab_mode: CursorGrabMode)
    ensures
        1 <= grab_order(grab_mode).len() <= 2,
        grab_order(grab_mode)[0] == grab_mode,
        forall|i: int|
            0 <= i < grab_order(grab_mode).len() ==> (#[trigger] grab_order(grab_mode)[i]
                == CursorGrabMode::Free <==> grab_mode == CursorGrabMode::Free),
{
}

/// The grab to ask of the backend next for `grab_mode`, after `refused`
/// requests were refused, where `granted` tells that the last request was
/// granted. There is none once a request was granted, and none when every
/// grab of `grab_order` was refused.
pub open spec fn next_grab(grab_mode: CursorGrabMode, refused: usize, granted: bool) -> Option<
    CursorGrabMode,
> {
    if !granted && refused < grab_order(grab_mode).len() {
        Some(grab_order(grab_mode)[refused as int])
    } else {
        None
    }
}

/// The next grab to ask of the backend for `grab_mode`, from what the backend
/// answered so far: `refused` requests were refused, and `granted` tells that
/// the last one was granted. With no request left the grab has ended:
/// granted, or failed with the last refusal.
pub fn attempt_grab(grab_mode: CursorGrabMode, refused: usize, granted: bool) -> (next: Option<
    CursorGrabMode,
>)
    ensures
        next == next_grab(grab_mode, refused, granted),
{
    if granted {
        return None;
    }
    match (grab_mode, refused) {
        (CursorGrabMode::Free, 0) => Some(CursorGrabMode::Free),
        (CursorGrabMode::Confined, 0) => Some(CursorGrabMode::Confined),
        (CursorGrabMode::Confined, 1) => Some(CursorGrabMode::Locked),
        (CursorGrabMode::Locked, 0) => Some(CursorGrabMode::Locked),
        (CursorGrabMode::Locked, 1) => Some(CursorGrabMode::Confined),
        _ => None,
    }
}

/// A grab ends: nothing is asked after a request was granted, the wanted grab
/// is asked first, and after two refusals nothing is asked any more.
pub proof fn lemma_grab_ends(grab_mode: CursorGrabMode, refused: usize)
    ensures
        next_grab(grab_mode, refused, true).is_none(),
        next_grab(grab_mode, 0, false) == Some(grab_mode),
        refused >= 2 ==> next_grab(grab_mode, refused, false).is_none(),
{
}

/// What a failed grab is called in a report: "grab" where the cursor was to be
/// confined or locked, "ungrab" where it was to be released.
pub fn grab_description(grab_mode: CursorGrabMode) -> (description: &'static str)
    ensures
        description@ == (match grab_mode {
            CursorGrabMode::Confined | CursorGrabMode::Locked => "grab"@,
            CursorGrabMode::Free => "ungrab"@,
        }),
{
    match grab_mode {
        CursorGrabMode::Confined | CursorGrabMode::Locked => "grab",
        CursorGrabMode::Free => "ungrab",
    }
}

/// The requests to make for the cursor of a window that was just created.
pub fn cursor_setup(options: &CursorOptions) -> (requests: Vec<CursorRequest>)
    ensures
        requests@ == cursor_requests(*options),
{
    let mut requests: Vec<CursorRequest> = Vec::new();
    match options.grab_mode {
        CursorGrabMode::Free => {},
        CursorGrabMode::Confined | CursorGrabMode::Locked => {
            requests.push(CursorRequest::Grab(options.grab_mode));
        },
    }
    requests.push(CursorRequest::SetVisible(options.visible));
    if !options.hit_test {
        requests.push(CursorRequest::SetHitTest(options.hit_test));
    }
    requests
}

} // verus!
