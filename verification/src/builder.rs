use vstd::prelude::*;
use crate::{ControlHandle, EngineError, Frame, LifecycleState, WebviewContainer};
use crate::signal::ReadySignal;

verus! {

/// Window-style bit for a visible frame.
pub const FLAG_VISIBLE: u32 = 0x1000_0000;
/// Window-style bit for a disabled frame.
pub const FLAG_DISABLED: u32 = 0x0800_0000;
/// Window-style bit for a bordered frame.
pub const FLAG_BORDER: u32 = 0x0080_0000;

/// Style flags for the container frame, carried as the host window system's
/// style bits.
#[derive(Clone, Copy, PartialEq, Eq, Structural, Debug)]
pub struct WebviewContainerFlags {
    pub bits: u32,
}

impl WebviewContainerFlags {
    /// No style bit set.
    pub fn none() -> (r: Self)
        ensures
            r.bits == 0,
    {
        WebviewContainerFlags { bits: 0 }
    }

    /// The visible style.
    pub fn visible() -> (r: Self)
        ensures
            r.bits == FLAG_VISIBLE,
    {
        WebviewContainerFlags { bits: FLAG_VISIBLE }
    }

    /// The disabled style.
    pub fn disabled() -> (r: Self)
        ensures
            r.bits == FLAG_DISABLED,
    {
        WebviewContainerFlags { bits: FLAG_DISABLED }
    }

    /// The bordered style.
    pub fn border() -> (r: Self)
        ensures
            r.bits == FLAG_BORDER,
    {
        WebviewContainerFlags { bits: FLAG_BORDER }
    }

    /// The union of two flag sets.
    pub fn union(self, other: Self) -> (r: Self)
        ensures
            r.bits == self.bits | other.bits,
    {
        WebviewContainerFlags { bits: self.bits | other.bits }
    }

    /// Whether every bit of `other` is set in `self`.
    pub fn contains(self, other: Self) -> (r: bool)
        ensures
            r == ((self.bits & other.bits) == other.bits),
    {
        (self.bits & other.bits) == other.bits
    }
}

/// The largest element of a sequence of identifiers, 0 for the empty
/// sequence.
pub open spec fn seq_max_u64(s: Seq<u64>) -> int
    decreases s.len(),
{
    if s.len() == 0 {
        0
    } else if s.last() as int > seq_max_u64(s.drop_last()) {
        s.last() as int
    } else {
        seq_max_u64(s.drop_last())
    }
}

/// Every element of a sequence is bounded by its maximum.
pub proof fn lemma_seq_max_u64_bound(s: Seq<u64>)
    ensures
        forall|i: int| 0 <= i < s.len() ==> #[trigger] s[i] <= seq_max_u64(s),
    decreases s.len(),
{
    if s.len() > 0 {
        lemma_seq_max_u64_bound(s.drop_last());
        assert forall|i: int| 0 <= i < s.len() implies #[trigger] s[i] <= seq_max_u64(s) by {
            if i < s.len() - 1 {
                assert(s[i] == s.drop_last()[i]);
            }
        }
    }
}

/// Whether `id` occurs among the registered identifiers.
fn contains_id(taken: &Vec<u64>, id: u64) -> (r: bool)
    ensures
        r == taken@.contains(id),
{
    let mut i: usize = 0;
    while i < taken.len()
        invariant
            0 <= i <= taken@.len(),
            forall|j: int| 0 <= j < i ==> taken@[j] != id,
        decreases taken@.len() - i,
    {
        if taken[i] == id {
            assert(taken@[i as int] == id);
            return true;
        }
        i = i + 1;
    }
    false
}

/// Draws the next raw-subscription identifier from the process-wide
/// monotonically increasing counter: the first candidate at or above
/// `counter` that does not collide with an identifier already registered on
/// the window. The caller advances its counter past the returned value.
pub fn next_handle_id(counter: u64, taken: &Vec<u64>) -> (r: u64)
    requires
        counter < u64::MAX,
        forall|i: int| 0 <= i < taken@.len() ==> #[trigger] taken@[i] < u64::MAX,
    ensures
        !taken@.contains(r),
        counter <= r,
        forall|j: u64| counter <= j < r ==> taken@.contains(j),
{
    proof {
        lemma_seq_max_u64_bound(taken@);
    }
    let mut id: u64 = counter;
    loop
        invariant
            counter <= id,
            forall|j: u64| counter <= j < id ==> taken@.contains(j),
            forall|i: int| 0 <= i < taken@.len() ==> #[trigger] taken@[i] <= seq_max_u64(taken@),
            forall|i: int| 0 <= i < taken@.len() ==> #[trigger] taken@[i] < u64::MAX,
        decreases seq_max_u64(taken@) + 1 - id,
    {
        if !contains_id(taken, id) {
            return id;
        }
        assert(id <= seq_max_u64(taken@) && id < u64::MAX) by {
            let k = choose|k: int| 0 <= k < taken@.len() && taken@[k] == id;
            assert(taken@[k] <= seq_max_u64(taken@));
            assert(taken@[k] < u64::MAX);
        }
        id = id + 1;
    }
}

/// Style flags of the container frame itself, as the host toolkit's frame
/// builder takes them.
#[derive(Clone, Copy, PartialEq, Eq, Structural, Debug)]
pub struct FrameFlags {
    pub visible: bool,
    pub disabled: bool,
    pub border: bool,
}

/// The engine-environment parameters accumulated by the builder, handed to
/// the engine SDK's environment builder when no pre-existing environment is
/// reused.
#[derive(Clone, PartialEq, Eq, Debug)]
pub struct EnvironmentParams {
    pub browser_executable_folder: Option<String>,
    pub user_data_folder: Option<String>,
    pub additional_browser_arguments: Option<String>,
    pub language: Option<String>,
    pub target_compatible_browser_version: Option<String>,
    pub allow_single_sign_on_using_osprimary_account: bool,
}

/// The asynchronous construction request that `build` issues: either reuse a
/// pre-existing engine environment (shared browser and render process across
/// containers), or build a fresh one from the accumulated parameters. The
/// host glue performs the request and reports completion through
/// [`WebviewContainer::complete_controller`].
#[derive(PartialEq, Eq, Debug)]
pub enum EnvironmentRequest {
    Reuse(u64),
    Fresh(EnvironmentParams),
}

/// Fluent configuration assembler for one [`WebviewContainer`]: host-window
/// and frame layout parameters, and engine-environment parameters.
#[derive(PartialEq, Eq, Debug)]
pub struct WebviewContainerBuilder {
    pub window: Option<ControlHandle>,
    pub webview_env: Option<u64>,
    pub params: EnvironmentParams,
    pub frame_flags: FrameFlags,
    pub size: (i32, i32),
    pub position: (i32, i32),
    pub enabled: bool,
    pub parent: Option<ControlHandle>,
}

/// The builder in its initial state: nothing configured.
pub open spec fn initial_builder() -> WebviewContainerBuilder {
    WebviewContainerBuilder {
        window: None,
        webview_env: None,
        params: EnvironmentParams {
            browser_executable_folder: None,
            user_data_folder: None,
            additional_browser_arguments: None,
            language: None,
            target_compatible_browser_version: None,
            allow_single_sign_on_using_osprimary_account: false,
        },
        frame_flags: FrameFlags { visible: false, disabled: false, border: false },
        size: (0, 0),
        position: (0, 0),
        enabled: true,
        parent: None,
    }
}

impl Default for WebviewContainerBuilder {
    fn default() -> (b: Self)
        ensures
            b == initial_builder(),
    {
        WebviewContainerBuilder {
            window: None,
            webview_env: None,
            params: EnvironmentParams {
                browser_executable_folder: None,
                user_data_folder: None,
                additional_browser_arguments: None,
                language: None,
                target_compatible_browser_version: None,
                allow_single_sign_on_using_osprimary_account: false,
            },
            frame_flags: FrameFlags { visible: false, disabled: false, border: false },
            size: (0, 0),
            position: (0, 0),
            enabled: true,
            parent: None,
        }
    }
}

/// The construction request that a successful `build` issues for this
/// configuration.
pub open spec fn environment_request_of(b: WebviewContainerBuilder) -> EnvironmentRequest {
    match b.webview_env {
        Some(env) => EnvironmentRequest::Reuse(env),
        None => EnvironmentRequest::Fresh(b.params),
    }
}

/// What a container looks like right after a successful synchronous build
/// pass: frame constructed from the accumulated parameters, readiness signal
/// created and still pending, both event subscriptions installed, engine
/// control not yet present, construction request recorded.
pub open spec fn built_from(
    c: WebviewContainer,
    b: WebviewContainerBuilder,
    window_hwnd: u64,
    frame_hwnd: u64,
) -> bool {
    &&& c.state is FrameReady
    &&& !c.is_closing
    &&& c.window_hwnd == Some(window_hwnd)
    &&& c.frame == Some(Frame {
        handle: frame_hwnd,
        position: b.position,
        size: b.size,
        flags: b.frame_flags,
        enabled: b.enabled,
        parent: b.parent,
    })
    &&& c.webview_ctrl is None
    &&& c.ready is Some
    &&& c.ready->0.is_pending()
    &&& c.env_request == Some(environment_request_of(b))
    &&& c.has_event_handler
    &&& c.raw_event_handler_id is Some
    &&& c.visible
}

impl WebviewContainerBuilder {
    /// Frame style configuration: translates the container's window-style
    /// bits into the frame builder's flag set, bit by bit.
    pub fn flags(self, flags: WebviewContainerFlags) -> (r: Self)
        ensures
            r == (Self {
                frame_flags: FrameFlags {
                    visible: flags.bits & FLAG_VISIBLE == FLAG_VISIBLE,
                    disabled: flags.bits & FLAG_DISABLED == FLAG_DISABLED,
                    border: flags.bits & FLAG_BORDER == FLAG_BORDER,
                },
                ..self
            }),
    {
        let mut frame_flags = FrameFlags { visible: false, disabled: false, border: false };
        if flags.contains(WebviewContainerFlags { bits: FLAG_BORDER }) {
            frame_flags.border = true;
        }
        if flags.contains(WebviewContainerFlags { bits: FLAG_DISABLED }) {
            frame_flags.disabled = true;
        }
        if flags.contains(WebviewContainerFlags { bits: FLAG_VISIBLE }) {
            frame_flags.visible = true;
        }
        Self { frame_flags, ..self }
    }

    /// Frame configuration: logical size.
    pub fn size(self, size: (i32, i32)) -> (r: Self)
        ensures
            r == (Self { size, ..self }),
    {
        Self { size, ..self }
    }

    /// Frame configuration: logical position.
    pub fn position(self, pos: (i32, i32)) -> (r: Self)
        ensures
            r == (Self { position: pos, ..self }),
    {
        Self { position: pos, ..self }
    }

    /// Frame configuration: enabled state.
    pub fn enabled(self, e: bool) -> (r: Self)
        ensures
            r == (Self { enabled: e, ..self }),
    {
        Self { enabled: e, ..self }
    }

    /// Frame configuration: the parent control of the frame.
    pub fn parent(self, p: ControlHandle) -> (r: Self)
        ensures
            r == (Self { parent: Some(p), ..self }),
    {
        Self { parent: Some(p), ..self }
    }

    /// Engine-environment configuration: browser executable folder.
    pub fn browser_executable_folder(self, browser_executable_folder: String) -> (r: Self)
        ensures
            r == (Self {
                params: EnvironmentParams {
                    browser_executable_folder: Some(browser_executable_folder),
                    ..self.params
                },
                ..self
            }),
    {
        let params = EnvironmentParams {
            browser_executable_folder: Some(browser_executable_folder),
            ..self.params
        };
        Self { params, ..self }
    }

    /// Engine-environment configuration: user data (cache) folder.
    pub fn user_data_folder(self, user_data_folder: String) -> (r: Self)
        ensures
            r == (Self {
                params: EnvironmentParams { user_data_folder: Some(user_data_folder), ..self.params },
                ..self
            }),
    {
        let params = EnvironmentParams { user_data_folder: Some(user_data_folder), ..self.params };
        Self { params, ..self }
    }

    /// Engine-environment configuration: extra browser launch arguments.
    pub fn additional_browser_arguments(self, additional_browser_arguments: String) -> (r: Self)
        ensures
            r == (Self {
                params: EnvironmentParams {
                    additional_browser_arguments: Some(additional_browser_arguments),
                    ..self.params
                },
                ..self
            }),
    {
        let params = EnvironmentParams {
            additional_browser_arguments: Some(additional_browser_arguments),
            ..self.params
        };
        Self { params, ..self }
    }

    /// Engine-environment configuration: UI locale.
    pub fn language(self, language: String) -> (r: Self)
        ensures
            r == (Self {
                params: EnvironmentParams { language: Some(language), ..self.params },
                ..self
            }),
    {
        let params = EnvironmentParams { language: Some(language), ..self.params };
        Self { params, ..self }
    }

    /// Engine-environment configuration: target version constraint.
    pub fn target_compatible_browser_version(self, target_compatible_browser_version: String) -> (r: Self)
        ensures
            r == (Self {
                params: EnvironmentParams {
                    target_compatible_browser_version: Some(target_compatible_browser_version),
                    ..self.params
                },
                ..self
            }),
    {
        let params = EnvironmentParams {
            target_compatible_browser_version: Some(target_compatible_browser_version),
            ..self.params
        };
        Self { params, ..self }
    }

    /// Engine-environment configuration: single-sign-on policy.
    pub fn allow_single_sign_on_using_osprimary_account(
        self,
        allow_single_sign_on_using_osprimary_account: bool,
    ) -> (r: Self)
        ensures
            r == (Self {
                params: EnvironmentParams {
                    allow_single_sign_on_using_osprimary_account,
                    ..self.params
                },
                ..self
            }),
    {
        let params = EnvironmentParams {
            allow_single_sign_on_using_osprimary_account,
            ..self.params
        };
        Self { params, ..self }
    }

    /// The host window that parents the container.
    pub fn window(self, window: ControlHandle) -> (r: Self)
        ensures
            r == (Self { window: Some(window), ..self }),
    {
        Self { window: Some(window), ..self }
    }

    /// A pre-existing engine environment to reuse across containers (shared
    /// browser process, render process and cache directory).
    pub fn webview_env(self, webview_env: u64) -> (r: Self)
        ensures
            r == (Self { webview_env: Some(webview_env), ..self }),
    {
        Self { webview_env: Some(webview_env), ..self }
    }

    /// The synchronous build pass. The host glue supplies what only the
    /// toolkit knows: `frame_handle` is the handle of the frame it
    /// constructed from the accumulated frame parameters (unresolved when
    /// frame construction failed), `handle_counter` the process-wide raw
    /// subscription counter, and `registered_ids` the raw subscription
    /// identifiers already registered on the host window.
    ///
    /// On success the container is in state FrameReady: frame populated,
    /// readiness signal created and pending, both event subscriptions
    /// installed under a collision-free raw identifier, and the asynchronous
    /// environment/controller construction request recorded for the glue to
    /// issue. On failure the container is left untouched: no frame, no
    /// subscriptions.
    pub fn build(
        self,
        webview_container: &mut WebviewContainer,
        frame_handle: ControlHandle,
        handle_counter: u64,
        registered_ids: &Vec<u64>,
    ) -> (r: Result<(), EngineError>)
        requires
            old(webview_container).wf(),
            old(webview_container).state is Uninitialized,
            handle_counter < u64::MAX,
            forall|i: int| 0 <= i < registered_ids@.len() ==> #[trigger] registered_ids@[i] < u64::MAX,
        ensures
            final(webview_container).wf(),
            match self.window {
                None => {
                    &&& r == Result::<(), EngineError>::Err(EngineError::Initialization)
                    &&& *final(webview_container) == *old(webview_container)
                },
                Some(window) => match window.hwnd_of() {
                    None => {
                        &&& r == Result::<(), EngineError>::Err(EngineError::ControlCreate)
                        &&& *final(webview_container) == *old(webview_container)
                    },
                    Some(window_hwnd) => match frame_handle.hwnd_of() {
                        None => {
                            &&& r == Result::<(), EngineError>::Err(EngineError::ControlCreate)
                            &&& *final(webview_container) == *old(webview_container)
                        },
                        Some(frame_hwnd) => {
                            &&& r is Ok
                            &&& built_from(*final(webview_container), self, window_hwnd, frame_hwnd)
                            &&& (match final(webview_container).raw_event_handler_id {
                                Some(id) => {
                                    &&& !registered_ids@.contains(id)
                                    &&& handle_counter <= id
                                    &&& forall|j: u64|
                                        handle_counter <= j < id ==> registered_ids@.contains(j)
                                },
                                None => false,
                            })
                        },
                    },
                },
            },
    {
        let window_handle = match self.window {
            Some(w) => w,
            None => {
                return Err(EngineError::Initialization);
            },
        };
        let window_hwnd = match window_handle.hwnd() {
            Some(h) => h,
            None => {
                return Err(EngineError::ControlCreate);
            },
        };
        let frame_hwnd = match frame_handle.hwnd() {
            Some(h) => h,
            None => {
                return Err(EngineError::ControlCreate);
            },
        };
        let raw_id = next_handle_id(handle_counter, registered_ids);
        webview_container.state = LifecycleState::FrameReady;
        webview_container.is_closing = false;
        webview_container.window_hwnd = Some(window_hwnd);
        webview_container.frame = Some(Frame {
            handle: frame_hwnd,
            position: self.position,
            size: self.size,
            flags: self.frame_flags,
            enabled: self.enabled,
            parent: self.parent,
        });
        webview_container.webview_ctrl = None;
        webview_container.ready = Some(ReadySignal::new());
        webview_container.env_request = Some(match self.webview_env {
            Some(env) => EnvironmentRequest::Reuse(env),
            None => EnvironmentRequest::Fresh(self.params),
        });
        webview_container.has_event_handler = true;
        webview_container.raw_event_handler_id = Some(raw_id);
        webview_container.visible = true;
        Ok(())
    }
}

/// The system-command message number of the host window system.
pub const MSG_SYSCOMMAND: u32 = 0x0112;
/// The system-command sub-code for restoring a window.
pub const SC_RESTORE_CODE: u64 = 0xF120;

/// Whether a raw native message is the host window's restore system command,
/// the one event the high-level event model does not expose.
pub fn is_restore_message(msg: u32, wparam: u64) -> (r: bool)
    ensures
        r == (msg == MSG_SYSCOMMAND && wparam == SC_RESTORE_CODE),
{
    msg == MSG_SYSCOMMAND && wparam == SC_RESTORE_CODE
}

} // verus!
