use vstd::prelude::*;
use crate::geometry::Rect;

verus! {

/// A native window event, already attributed to its source: the host window
/// that parents the container, or the container frame itself.
#[derive(Clone, Copy, PartialEq, Eq, Structural, Debug)]
pub enum ContainerEvent {
    /// The host window was minimized.
    WindowMinimize,
    /// The host window was restored (system command intercepted through the
    /// raw message subscription).
    WindowRestore,
    /// The host window moved.
    WindowMove,
    /// The container frame was resized (including maximize).
    FrameResize,
    /// The container frame moved.
    FrameMove,
    /// Any other event: never acted on.
    Other,
}

/// The action the lifecycle coordinator asks the embedded engine control to
/// perform in response to one event.
#[derive(Clone, Copy, PartialEq, Eq, Structural, Debug)]
pub enum EngineAction {
    /// No call into the engine control.
    Nothing,
    /// Suspend (`false`) or resume (`true`) the control's rendering.
    SetVisible(bool),
    /// Forward a position-changed notification to the control.
    NotifyPositionChanged,
    /// Apply this bounds rectangle to the control.
    SetBounds(Rect),
}

/// One step of teardown, to be performed against the host toolkit or the
/// engine control, in the order returned.
#[derive(Clone, Copy, PartialEq, Eq, Structural, Debug)]
pub enum TeardownStep {
    /// Remove the raw message subscription registered under this identifier.
    UnbindRawHandler(u64),
    /// Remove the normal event subscription.
    UnbindEventHandler,
    /// Close this engine controller.
    CloseController(u64),
    /// Destroy the frame with this native handle.
    DestroyFrame(u64),
}

/// The control's commanded visibility after one event: hidden on minimize,
/// shown on restore, unchanged otherwise.
pub open spec fn visibility_step(visible: bool, event: ContainerEvent) -> bool {
    match event {
        ContainerEvent::WindowMinimize => false,
        ContainerEvent::WindowRestore => true,
        _ => visible,
    }
}

/// The control's commanded visibility after a whole sequence of events
/// delivered in state Ready.
pub open spec fn visibility_after(visible: bool, events: Seq<ContainerEvent>) -> bool
    decreases events.len(),
{
    if events.len() == 0 {
        visible
    } else {
        visibility_after(visibility_step(visible, events[0]), events.drop_first())
    }
}

/// For every sequence of events delivered in state Ready that ends with a
/// restore, the embedded control's commanded visibility ends in "visible",
/// whatever was delivered before and whatever the visibility was at the
/// start: the control is hidden only while literally minimized.
pub proof fn lemma_restore_ends_visible(visible: bool, events: Seq<ContainerEvent>)
    requires
        events.len() > 0,
        events.last() == ContainerEvent::WindowRestore,
    ensures
        visibility_after(visible, events),
    decreases events.len(),
{
    let rest = events.drop_first();
    assert(visibility_after(visible, events)
        == visibility_after(visibility_step(visible, events[0]), rest));
    if events.len() == 1 {
        assert(events[0] == events.last());
        assert(rest.len() == 0);
    } else {
        assert(rest.last() == events.last());
        lemma_restore_ends_visible(visibility_step(visible, events[0]), rest);
    }
}

/// The control is hidden only while literally minimized: starting visible, a
/// sequence of events that contains no minimize leaves the commanded
/// visibility "visible".
pub proof fn lemma_hidden_requires_minimize(events: Seq<ContainerEvent>)
    requires
        forall|i: int| 0 <= i < events.len() ==> events[i] != ContainerEvent::WindowMinimize,
    ensures
        visibility_after(true, events),
    decreases events.len(),
{
    if events.len() > 0 {
        let rest = events.drop_first();
        assert(events[0] != ContainerEvent::WindowMinimize);
        assert(visibility_step(true, events[0]));
        assert forall|i: int| 0 <= i < rest.len() implies rest[i]
            != ContainerEvent::WindowMinimize by {
            assert(rest[i] == events[i + 1]);
        }
        lemma_hidden_requires_minimize(rest);
        assert(visibility_after(true, events) == visibility_after(visibility_step(true, events[0]), rest));
    }
}

/// Restoring is idempotent: after one restore the commanded visibility is
/// already "visible", and a repeated restore leaves it unchanged.
pub proof fn lemma_restore_idempotent(visible: bool, events: Seq<ContainerEvent>)
    ensures
        visibility_after(visible, events.push(ContainerEvent::WindowRestore))
            == visibility_after(visible, events.push(ContainerEvent::WindowRestore).push(ContainerEvent::WindowRestore)),
{
    let once = events.push(ContainerEvent::WindowRestore);
    let twice = once.push(ContainerEvent::WindowRestore);
    assert(once.last() == ContainerEvent::WindowRestore);
    assert(twice.last() == ContainerEvent::WindowRestore);
    lemma_restore_ends_visible(visible, once);
    lemma_restore_ends_visible(visible, twice);
}

} // verus!
