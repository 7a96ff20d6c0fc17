//! Lifecycle coordinator for an asynchronously-initialized browser engine
//! control embedded in a host toolkit's window tree.
//!
//! The container owns a layout-participating frame, a readiness signal that
//! completes exactly once with the (environment, controller, webview) triple,
//! and the event subscriptions that keep the embedded control's visibility
//! and geometry synchronized with the window that contains it. The host
//! toolkit, the engine SDK and the event loop are external collaborators:
//! they hand the coordinator plain values (native handles, events, queried
//! rectangles) and perform the actions it returns.

use vstd::prelude::*;

pub mod builder;
pub mod events;
pub mod geometry;
pub mod signal;

pub use builder::{EnvironmentParams, EnvironmentRequest, FrameFlags, WebviewContainerBuilder,
    WebviewContainerFlags};
pub use events::{ContainerEvent, EngineAction, TeardownStep};
pub use geometry::Rect;
pub use signal::{ReadySignal, ReadyValue};

verus! {

/// Errors surfaced by the synchronous build path.
#[derive(Clone, Copy, PartialEq, Eq, Structural, Debug)]
pub enum EngineError {
    /// Configuration error: the required host-window handle was not supplied.
    Initialization,
    /// Construction error: the supplied handle does not resolve to a native
    /// handle, or frame construction failed.
    ControlCreate,
}

/// A generic control handle of the host toolkit: either unresolved, or a
/// native window handle.
#[derive(Clone, Copy, PartialEq, Eq, Structural, Debug)]
pub enum ControlHandle {
    NoHandle,
    Hwnd(u64),
}

impl ControlHandle {
    pub open spec fn hwnd_of(self) -> Option<u64> {
        match self {
            ControlHandle::NoHandle => None,
            ControlHandle::Hwnd(h) => Some(h),
        }
    }

    /// The native window handle, if this handle resolves to one.
    pub fn hwnd(&self) -> (r: Option<u64>)
        ensures
            r == self.hwnd_of(),
    {
        match self {
            ControlHandle::NoHandle => None,
            ControlHandle::Hwnd(h) => Some(*h),
        }
    }
}

/// The layout-participating placeholder control that parents the embedded
/// engine control: its native handle and the logical geometry the host
/// toolkit tracks for it.
#[derive(Clone, Copy, PartialEq, Eq, Debug)]
pub struct Frame {
    pub handle: u64,
    pub position: (i32, i32),
    pub size: (i32, i32),
    pub flags: FrameFlags,
    pub enabled: bool,
    pub parent: Option<ControlHandle>,
}

/// The lifecycle coordinator's state, per container instance.
#[derive(Clone, Copy, PartialEq, Eq, Structural, Debug)]
pub enum LifecycleState {
    /// Frame not yet built.
    Uninitialized,
    /// Frame constructed synchronously; engine construction request issued,
    /// completion still outstanding.
    FrameReady,
    /// Controller and webview obtained, geometry aligned once, readiness
    /// signal completed, event subscriptions effective.
    Ready,
    /// Closing flag set; subscriptions being removed.
    Closing,
    /// Subscriptions removed, controller closed, frame destroyed. Terminal.
    Closed,
}

/// A high-level event as the host toolkit's event model delivers it,
/// together with the handle of the control it came from.
#[derive(Clone, Copy, PartialEq, Eq, Structural, Debug)]
pub enum HostEvent {
    OnWindowMinimize,
    OnMove,
    OnResize,
    Unhandled,
}

/// The externally visible container: owns the frame, the optional engine
/// control, the readiness signal and the two event subscriptions, and routes
/// window and frame events to engine-control actions.
#[derive(Debug)]
pub struct WebviewContainer {
    pub state: LifecycleState,
    /// Shared closing flag: checked first by every event callback, set once
    /// at the start of teardown, never cleared.
    pub is_closing: bool,
    /// The host window's native handle, recorded at build time for event
    /// attribution.
    pub window_hwnd: Option<u64>,
    pub frame: Option<Frame>,
    /// The engine controller's handle: present only after asynchronous
    /// initialization completed and before teardown.
    pub webview_ctrl: Option<u64>,
    /// The readiness signal: created pending by `build`, completed exactly
    /// once by `complete_controller`.
    pub ready: Option<ReadySignal>,
    /// Whether the normal event subscription on the host window is installed.
    pub has_event_handler: bool,
    /// The raw message subscription's process-unique identifier, while
    /// installed.
    pub raw_event_handler_id: Option<u64>,
    /// The engine control's last commanded visibility.
    pub visible: bool,
    /// The asynchronous construction request recorded by `build` for the
    /// host glue to issue.
    pub env_request: Option<EnvironmentRequest>,
}

impl WebviewContainer {
    /// Well-formedness of a container, by lifecycle state.
    pub open spec fn wf(self) -> bool {
        match self.state {
            LifecycleState::Uninitialized => {
                &&& self.frame is None
                &&& self.window_hwnd is None
                &&& self.webview_ctrl is None
                &&& self.ready is None
                &&& self.env_request is None
                &&& !self.is_closing
                &&& !self.has_event_handler
                &&& self.raw_event_handler_id is None
            },
            LifecycleState::FrameReady => {
                &&& self.frame is Some
                &&& self.window_hwnd is Some
                &&& self.webview_ctrl is None
                &&& self.ready is Some
                &&& self.ready->0.is_pending()
                &&& self.env_request is Some
                &&& !self.is_closing
                &&& self.has_event_handler
                &&& self.raw_event_handler_id is Some
            },
            LifecycleState::Ready => {
                &&& self.frame is Some
                &&& self.window_hwnd is Some
                &&& self.webview_ctrl is Some
                &&& self.ready is Some
                &&& self.ready->0.value_of() is Some
                &&& self.ready->0.value_of()->0.controller == self.webview_ctrl->0
                &&& !self.is_closing
                &&& self.has_event_handler
                &&& self.raw_event_handler_id is Some
            },
            LifecycleState::Closing => self.is_closing,
            LifecycleState::Closed => {
                &&& self.is_closing
                &&& self.webview_ctrl is None
                &&& self.frame is None
                &&& !self.has_event_handler
                &&& self.raw_event_handler_id is None
            },
        }
    }

    /// The frame's generic control handle: the conversion that lets the
    /// container participate in generic layout containers.
    pub open spec fn frame_handle(self) -> ControlHandle {
        match self.frame {
            Some(f) => ControlHandle::Hwnd(f.handle),
            None => ControlHandle::NoHandle,
        }
    }
}

impl Default for WebviewContainer {
    /// An empty container: all optional fields unset, to be populated
    /// field-by-field by `build`.
    fn default() -> (c: Self)
        ensures
            c.wf(),
            c.state is Uninitialized,
            !c.visible,
    {
        WebviewContainer {
            state: LifecycleState::Uninitialized,
            is_closing: false,
            window_hwnd: None,
            frame: None,
            webview_ctrl: None,
            ready: None,
            has_event_handler: false,
            raw_event_handler_id: None,
            visible: false,
            env_request: None,
        }
    }
}

impl PartialEq for WebviewContainer {
    /// Equality between containers is identity of their underlying frame
    /// handles, not deep value equality.
    fn eq(&self, other: &Self) -> (r: bool) {
        match (&self.frame, &other.frame) {
            (Some(f), Some(o)) => f.handle == o.handle,
            (None, None) => true,
            _ => false,
        }
    }
}

impl vstd::std_specs::cmp::PartialEqSpecImpl for WebviewContainer {
    open spec fn obeys_eq_spec() -> bool {
        true
    }

    open spec fn eq_spec(&self, other: &Self) -> bool {
        self.frame_handle() == other.frame_handle()
    }
}

impl Eq for WebviewContainer {}

impl From<WebviewContainer> for ControlHandle {
    /// Conversion to the generic control handle: yields the frame's handle.
    fn from(value: WebviewContainer) -> (r: Self) {
        match value.frame {
            Some(f) => ControlHandle::Hwnd(f.handle),
            None => ControlHandle::NoHandle,
        }
    }
}

impl vstd::std_specs::convert::FromSpecImpl<WebviewContainer> for ControlHandle {
    open spec fn obeys_from_spec() -> bool {
        true
    }

    open spec fn from_spec(value: WebviewContainer) -> Self {
        value.frame_handle()
    }
}

impl From<&WebviewContainer> for ControlHandle {
    /// The same conversion for a borrowed container.
    fn from(value: &WebviewContainer) -> (r: Self) {
        match &value.frame {
            Some(f) => ControlHandle::Hwnd(f.handle),
            None => ControlHandle::NoHandle,
        }
    }
}

impl vstd::std_specs::convert::FromSpecImpl<&WebviewContainer> for ControlHandle {
    open spec fn obeys_from_spec() -> bool {
        true
    }

    open spec fn from_spec(value: &WebviewContainer) -> Self {
        value.frame_handle()
    }
}

impl WebviewContainer {
    /// A fresh builder.
    pub fn builder() -> (b: WebviewContainerBuilder)
        ensures
            b == builder::initial_builder(),
    {
        WebviewContainerBuilder::default()
    }

    /// A cloneable handle on the readiness signal, or the construction error
    /// when the container was never built (or building failed before a
    /// signal could be created). Every holder of the returned signal
    /// observes the same completed value.
    pub fn ready_fut(&self) -> (r: Result<ReadySignal, EngineError>)
        ensures
            match self.ready {
                Some(sig) => match r {
                    Ok(s) => s.value_of() == sig.value_of(),
                    Err(_) => false,
                },
                None => match r {
                    Ok(_) => false,
                    Err(e) => e == EngineError::ControlCreate,
                },
            },
    {
        match &self.ready {
            Some(sig) => Ok(*sig),
            None => Err(EngineError::ControlCreate),
        }
    }

    /// The resolved (environment, controller, webview) triple: exactly the
    /// value the completion callback stored, with no transformation in
    /// between. Blocking on a pending signal is the cooperative scheduler's
    /// business, which the host event loop drives; the caller comes here
    /// once that drive has completed the signal.
    pub fn ready_block(&self) -> (r: Result<ReadyValue, EngineError>)
        requires
            self.ready is Some ==> !self.ready->0.is_pending(),
        ensures
            match self.ready {
                Some(sig) => match r {
                    Ok(v) => Some(v) == sig.value_of(),
                    Err(_) => false,
                },
                None => match r {
                    Ok(_) => false,
                    Err(e) => e == EngineError::ControlCreate,
                },
            },
    {
        match &self.ready {
            Some(sig) => match sig.get() {
                Some(v) => Ok(v),
                None => {
                    proof {
                        assert(false);
                    }
                    Err(EngineError::ControlCreate)
                },
            },
            None => Err(EngineError::ControlCreate),
        }
    }

    /// Which container event a delivered toolkit event is, by its source:
    /// minimize and move from the host window, resize and move from the
    /// container frame, everything else ignored.
    pub open spec fn classified_event(self, source: ControlHandle, event: HostEvent) -> ContainerEvent {
        match source.hwnd_of() {
            Some(h) => if self.window_hwnd == Some(h) {
                match event {
                    HostEvent::OnWindowMinimize => ContainerEvent::WindowMinimize,
                    HostEvent::OnMove => ContainerEvent::WindowMove,
                    _ => ContainerEvent::Other,
                }
            } else if self.frame matches Some(f) && f.handle == h {
                match event {
                    HostEvent::OnResize => ContainerEvent::FrameResize,
                    HostEvent::OnMove => ContainerEvent::FrameMove,
                    _ => ContainerEvent::Other,
                }
            } else {
                ContainerEvent::Other
            },
            None => ContainerEvent::Other,
        }
    }

    /// Attributes a high-level toolkit event to the host window or to the
    /// container frame, as the normal event subscription does.
    pub fn classify_event(&self, source: ControlHandle, event: HostEvent) -> (e: ContainerEvent)
        ensures
            e == self.classified_event(source, event),
    {
        let h = match source.hwnd() {
            Some(h) => h,
            None => {
                return ContainerEvent::Other;
            },
        };
        let from_window = match &self.window_hwnd {
            Some(w) => *w == h,
            None => false,
        };
        if from_window {
            match event {
                HostEvent::OnWindowMinimize => ContainerEvent::WindowMinimize,
                HostEvent::OnMove => ContainerEvent::WindowMove,
                _ => ContainerEvent::Other,
            }
        } else {
            let from_frame = match &self.frame {
                Some(f) => f.handle == h,
                None => false,
            };
            if from_frame {
                match event {
                    HostEvent::OnResize => ContainerEvent::FrameResize,
                    HostEvent::OnMove => ContainerEvent::FrameMove,
                    _ => ContainerEvent::Other,
                }
            } else {
                ContainerEvent::Other
            }
        }
    }

    /// The engine-control action one event routes to. Effective only with an
    /// engine control present and the closing flag clear; otherwise no
    /// action.
    pub open spec fn routed_action(self, event: ContainerEvent, client_rect: Option<Rect>) -> EngineAction {
        if self.is_closing || self.webview_ctrl is None {
            EngineAction::Nothing
        } else {
            match event {
                ContainerEvent::WindowMinimize => EngineAction::SetVisible(false),
                ContainerEvent::WindowRestore => EngineAction::SetVisible(true),
                ContainerEvent::WindowMove => EngineAction::NotifyPositionChanged,
                ContainerEvent::FrameMove => EngineAction::NotifyPositionChanged,
                ContainerEvent::FrameResize => EngineAction::SetBounds(
                    geometry::aligned_rect(client_rect, self.frame->0.position, self.frame->0.size),
                ),
                ContainerEvent::Other => EngineAction::Nothing,
            }
        }
    }

    /// Routes one delivered event to the engine-control action to perform.
    /// `client_rect` is the frame's current client-area rectangle as queried
    /// from the host window system (`None` when the query failed), consulted
    /// only for a resize.
    ///
    /// Every callback checks the closing flag first and no-ops when it is
    /// set, so no geometry-alignment call (nor any other engine call) occurs
    /// after closing began; and until the engine control exists the routing
    /// is a no-op as well, so events delivered before readiness are
    /// tolerated. Failures of the returned action are the caller's to log
    /// and swallow: they must never propagate out of the host event loop.
    pub fn handle_event(&mut self, event: ContainerEvent, client_rect: Option<Rect>) -> (action: EngineAction)
        requires
            old(self).wf(),
        ensures
            final(self).wf(),
            action == old(self).routed_action(event, client_rect),
            old(self).is_closing ==> action == EngineAction::Nothing && *final(self) == *old(self),
            old(self).webview_ctrl is None ==> action == EngineAction::Nothing && *final(self)
                == *old(self),
            final(self).visible == (if old(self).is_closing || old(self).webview_ctrl is None {
                old(self).visible
            } else {
                events::visibility_step(old(self).visible, event)
            }),
            *final(self) == (WebviewContainer { visible: final(self).visible, ..*old(self) }),
    {
        if self.is_closing {
            return EngineAction::Nothing;
        }
        if self.webview_ctrl.is_none() {
            return EngineAction::Nothing;
        }
        match event {
            ContainerEvent::WindowMinimize => {
                self.visible = false;
                EngineAction::SetVisible(false)
            },
            ContainerEvent::WindowRestore => {
                self.visible = true;
                EngineAction::SetVisible(true)
            },
            ContainerEvent::WindowMove => EngineAction::NotifyPositionChanged,
            ContainerEvent::FrameMove => EngineAction::NotifyPositionChanged,
            ContainerEvent::FrameResize => {
                let f = self.frame.unwrap();
                EngineAction::SetBounds(geometry::align_webview_2_container(
                    client_rect,
                    f.position,
                    f.size,
                ))
            },
            ContainerEvent::Other => EngineAction::Nothing,
        }
    }

    /// Completion of the asynchronous environment/controller construction
    /// chain, delivered by the host message loop strictly after `build`
    /// returned. The glue retrieves the webview from the controller, aligns
    /// geometry once (`align_webview_2_container`) and reports whether the
    /// bounds were applied; on `bounds_applied` the controller is stored and
    /// the readiness signal completes with the exact triple.
    ///
    /// The request is issued only by `build` (so the callback never fires on
    /// an unbuilt container) and the engine SDK delivers it at most once (so
    /// never in state Ready): together with the completion's precondition
    /// this makes a second completion of the signal unreachable. If teardown
    /// already began, the callback finds the closing flag set and performs
    /// no action: the signal is left permanently pending.
    pub fn complete_controller(
        &mut self,
        environment: u64,
        controller: u64,
        webview: u64,
        bounds_applied: bool,
    )
        requires
            old(self).wf(),
            !(old(self).state is Uninitialized),
            !(old(self).state is Ready),
        ensures
            final(self).wf(),
            old(self).is_closing ==> *final(self) == *old(self),
            !bounds_applied ==> *final(self) == *old(self),
            !old(self).is_closing && bounds_applied ==> {
                &&& final(self).state is Ready
                &&& final(self).webview_ctrl == Some(controller)
                &&& final(self).ready is Some
                &&& final(self).ready->0.value_of() == Some(ReadyValue { environment, controller, webview })
                &&& final(self).frame == old(self).frame
                &&& final(self).window_hwnd == old(self).window_hwnd
                &&& final(self).visible == old(self).visible
                &&& final(self).has_event_handler == old(self).has_event_handler
                &&& final(self).raw_event_handler_id == old(self).raw_event_handler_id
                &&& final(self).env_request == old(self).env_request
                &&& !final(self).is_closing
            },
    {
        if self.is_closing {
            return;
        }
        if !bounds_applied {
            return;
        }
        self.webview_ctrl = Some(controller);
        match &mut self.ready {
            Some(sig) => sig.complete(ReadyValue { environment, controller, webview }),
            None => {
                proof {
                    assert(false);
                }
            },
        }
        self.state = LifecycleState::Ready;
    }

    /// Deterministic teardown, idempotent-safe even if build never completed.
    /// Sets the closing flag before anything else, then returns the steps
    /// the host glue performs, in order: remove the raw message subscription
    /// first, then the normal event subscription, then close the engine
    /// control (skipped when initialization never completed), then destroy
    /// the frame. The readiness signal is left as it was.
    pub fn teardown(&mut self) -> (steps: Vec<TeardownStep>)
        requires
            old(self).wf(),
        ensures
            final(self).wf(),
            final(self).state is Closed,
            final(self).is_closing,
            final(self).webview_ctrl is None,
            final(self).frame is None,
            !final(self).has_event_handler,
            final(self).raw_event_handler_id is None,
            final(self).ready == old(self).ready,
            final(self).visible == old(self).visible,
            steps@ == teardown_steps_of(*old(self)),
    {
        self.is_closing = true;
        self.state = LifecycleState::Closing;
        let mut steps: Vec<TeardownStep> = Vec::new();
        if let Some(id) = self.raw_event_handler_id {
            steps.push(TeardownStep::UnbindRawHandler(id));
            self.raw_event_handler_id = None;
        }
        if self.has_event_handler {
            steps.push(TeardownStep::UnbindEventHandler);
            self.has_event_handler = false;
        }
        if let Some(ctrl) = self.webview_ctrl {
            steps.push(TeardownStep::CloseController(ctrl));
            self.webview_ctrl = None;
        }
        if let Some(f) = self.frame {
            steps.push(TeardownStep::DestroyFrame(f.handle));
            self.frame = None;
        }
        self.state = LifecycleState::Closed;
        proof {
            assert(steps@ =~= teardown_steps_of(*old(self)));
        }
        steps
    }
}

/// The teardown steps owed for a container in a given state, in unbind /
/// unbind / close / destroy order.
pub open spec fn teardown_steps_of(c: WebviewContainer) -> Seq<TeardownStep> {
    (if c.raw_event_handler_id is Some {
        seq![TeardownStep::UnbindRawHandler(c.raw_event_handler_id->0)]
    } else {
        Seq::<TeardownStep>::empty()
    }) + (if c.has_event_handler {
        seq![TeardownStep::UnbindEventHandler]
    } else {
        Seq::<TeardownStep>::empty()
    }) + (if c.webview_ctrl is Some {
        seq![TeardownStep::CloseController(c.webview_ctrl->0)]
    } else {
        Seq::<TeardownStep>::empty()
    }) + (if c.frame is Some {
        seq![TeardownStep::DestroyFrame(c.frame->0.handle)]
    } else {
        Seq::<TeardownStep>::empty()
    })
}

/// A container that completed its synchronous build pass always carries a
/// readiness signal: a consumer asking for the signal after a successful
/// `build` is never told "not ready", whether the signal is still pending or
/// already completed.
pub proof fn lemma_built_container_has_signal(c: WebviewContainer)
    requires
        c.wf(),
        c.state is FrameReady || c.state is Ready,
    ensures
        c.ready is Some,
{
}

/// Once a container is Ready its signal is completed, and the single
/// completion entry point (`complete_controller`) excludes state Ready by
/// precondition: a second completion of the readiness signal is unreachable,
/// not merely rejected.
pub proof fn lemma_completion_is_single(c: WebviewContainer)
    requires
        c.wf(),
        c.state is Ready,
    ensures
        c.ready is Some,
        !c.ready->0.is_pending(),
{
}

/// The ownership invariant of the container: the engine-control reference is
/// present exactly when the readiness signal has completed and the container
/// has not begun closing. (State Closing is transient inside `teardown` and
/// never observed by callers.)
pub proof fn lemma_controller_iff_ready_and_open(c: WebviewContainer)
    requires
        c.wf(),
        !(c.state is Closing),
    ensures
        c.webview_ctrl is Some <==> (c.ready is Some && !c.ready->0.is_pending() && !c.is_closing),
{
}

/// The position of a teardown step in the required unsubscription order: the
/// raw message subscription is removed first, then the normal event
/// subscription (so no normal-event dispatch can race past a point where raw
/// dispatch has already stopped), then the engine control is closed, then
/// the frame is destroyed.
pub open spec fn teardown_rank(step: TeardownStep) -> int {
    match step {
        TeardownStep::UnbindRawHandler(_) => 0,
        TeardownStep::UnbindEventHandler => 1,
        TeardownStep::CloseController(_) => 2,
        TeardownStep::DestroyFrame(_) => 3,
    }
}

/// Whatever state a container is torn down in, the steps owed come strictly
/// in the unsubscription order above: no step ever precedes one of lower
/// rank.
pub proof fn lemma_teardown_steps_ordered(c: WebviewContainer)
    ensures
        forall|i: int, j: int|
            0 <= i < j < teardown_steps_of(c).len() ==> #[trigger] teardown_rank(
                teardown_steps_of(c)[i],
            ) < #[trigger] teardown_rank(teardown_steps_of(c)[j]),
{
    let steps = teardown_steps_of(c);
    assert forall|i: int, j: int| 0 <= i < j < steps.len() implies #[trigger] teardown_rank(
        steps[i],
    ) < #[trigger] teardown_rank(steps[j]) by {
        assert(steps[i] == steps[i]);
    }
}

} // verus!
