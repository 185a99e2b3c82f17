//! Window events, and the viewport changes they call for.
use vstd::prelude::*;

verus! {

/// A platform event, as far as the host distinguishes them.
#[derive(Clone, Copy, Debug, PartialEq, Eq, Structural)]
pub enum WindowEvent {
    /// The framebuffer now has this size in pixels (which may differ from the
    /// window's logical size on high-density displays).
    FramebufferSize(i32, i32),
    /// Any other event; the host ignores it.
    Other,
}

/// The rendering viewport, as an origin and a size in pixels.
#[derive(Clone, Copy, Debug, PartialEq, Eq, Structural)]
pub struct Viewport {
    pub x: i32,
    pub y: i32,
    pub width: i32,
    pub height: i32,
}

/// The viewport an event sets, if any.
pub open spec fn viewport_of(e: WindowEvent) -> Option<Viewport> {
    match e {
        WindowEvent::FramebufferSize(w, h) => Some(Viewport { x: 0, y: 0, width: w, height: h }),
        WindowEvent::Other => None,
    }
}

/// The viewports that a run of events sets, in order.
pub open spec fn viewports_of(events: Seq<WindowEvent>) -> Seq<Viewport>
    decreases events.len(),
{
    if events.len() == 0 {
        Seq::empty()
    } else {
        let rest = viewports_of(events.drop_last());
        match viewport_of(events.last()) {
            Some(v) => rest.push(v),
            None => rest,
        }
    }
}

/// The viewport change one event calls for: a resize sets the viewport to the
/// reported pixel size exactly, anything else changes nothing.
pub fn viewport_for(event: &WindowEvent) -> (r: Option<Viewport>)
    ensures
        r == viewport_of(*event),
{
    match event {
        WindowEvent::FramebufferSize(w, h) => Some(Viewport { x: 0, y: 0, width: *w, height: *h }),
        WindowEvent::Other => None,
    }
}

/// Drains a batch of events, returning the viewport changes to apply, in order.
pub fn process_events(events: &Vec<WindowEvent>) -> (r: Vec<Viewport>)
    ensures
        r@ == viewports_of(events@),
{
    let mut r: Vec<Viewport> = Vec::new();
    let mut i: usize = 0;
    while i < events.len()
        invariant
            0 <= i <= events@.len(),
            r@ == viewports_of(events@.take(i as int)),
        decreases events@.len() - i,
    {
        let e = &events[i];
        proof {
            assert(events@.take(i as int + 1).drop_last() =~= events@.take(i as int));
        }
        match viewport_for(e) {
            Some(v) => r.push(v),
            None => {},
        }
        i += 1;
    }
    assert(events@.take(events@.len() as int) =~= events@);
    r
}

} // verus!
