//! The overlay's state machines: the F8 panel toggle, the cursor shown while
//! the panel captures input, the window procedure hook, and where a window
//! message goes.
use vstd::prelude::*;

use crate::overlay_input::{
    bits_to_i32, i32_to_bits, lemma_i32_bits_roundtrip, spec_bits_to_i32, VK_F8, WM_KEYDOWN,
    WM_KEYUP, WM_NCDESTROY, WM_SYSKEYDOWN, WM_SYSKEYUP,
};

verus! {

// ---------------------------------------------------------------------------
// The panel toggle
// ---------------------------------------------------------------------------

/// Whether the panel shows and whether it takes the game's input.
#[derive(Clone, Copy, Debug, PartialEq, Eq, Structural)]
pub struct OverlayInputState {
    pub panel_visible: bool,
    pub input_capture_enabled: bool,
}

/// What the F8 hotkey did with a message.
#[derive(Clone, Copy, Debug, PartialEq, Eq, Structural)]
pub enum HotkeyResult {
    /// The message is not an F8 key message the hotkey takes.
    NotHotkey,
    /// An F8 key-down: swallowed, nothing changes.
    Swallowed,
    /// An F8 key-up: the panel and input capture were toggled to `visible`.
    Toggled { visible: bool },
}

pub open spec fn spec_hotkey(s: OverlayInputState, msg: u32, wparam: usize) -> (
    OverlayInputState,
    HotkeyResult,
) {
    if wparam != VK_F8 as usize {
        (s, HotkeyResult::NotHotkey)
    } else if msg == WM_KEYDOWN || msg == WM_SYSKEYDOWN {
        (s, HotkeyResult::Swallowed)
    } else if msg == WM_KEYUP || msg == WM_SYSKEYUP {
        let v = !s.panel_visible;
        (
            OverlayInputState { panel_visible: v, input_capture_enabled: v },
            HotkeyResult::Toggled { visible: v },
        )
    } else {
        (s, HotkeyResult::NotHotkey)
    }
}

impl OverlayInputState {
    /// The panel hidden, the game keeping its input.
    pub fn new() -> (s: OverlayInputState)
        ensures
            !s.panel_visible,
            !s.input_capture_enabled,
    {
        OverlayInputState { panel_visible: false, input_capture_enabled: false }
    }

    /// Hides the panel and gives the input back to the game.
    pub fn close_panel(&mut self)
        ensures
            !final(self).panel_visible,
            !final(self).input_capture_enabled,
    {
        self.panel_visible = false;
        self.input_capture_enabled = false;
    }

    /// Applies the F8 hotkey to a window message: the key-up toggles the
    /// panel and input capture together, the key-down is swallowed.
    pub fn process_overlay_toggle_hotkey_message(&mut self, msg: u32, wparam: usize) -> (r:
        HotkeyResult)
        ensures
            (*final(self), r) == spec_hotkey(*old(self), msg, wparam),
    {
        if wparam != VK_F8 as usize {
            return HotkeyResult::NotHotkey;
        }
        if msg == WM_KEYDOWN || msg == WM_SYSKEYDOWN {
            HotkeyResult::Swallowed
        } else if msg == WM_KEYUP || msg == WM_SYSKEYUP {
            let visible = !self.panel_visible;
            self.panel_visible = visible;
            self.input_capture_enabled = visible;
            HotkeyResult::Toggled { visible }
        } else {
            HotkeyResult::NotHotkey
        }
    }
}

/// Two F8 key-ups bring the panel back to where it was, and after any F8
/// key-up the input capture follows the panel.
pub proof fn lemma_hotkey_toggle_twice(s: OverlayInputState, msg1: u32, msg2: u32)
    requires
        s.panel_visible == s.input_capture_enabled,
        msg1 == WM_KEYUP || msg1 == WM_SYSKEYUP,
        msg2 == WM_KEYUP || msg2 == WM_SYSKEYUP,
    ensures
        spec_hotkey(s, msg1, VK_F8 as usize).0.panel_visible == !s.panel_visible,
        spec_hotkey(s, msg1, VK_F8 as usize).0.input_capture_enabled == !s.panel_visible,
        spec_hotkey(spec_hotkey(s, msg1, VK_F8 as usize).0, msg2, VK_F8 as usize).0 == s,
{
}

// ---------------------------------------------------------------------------
// The cursor while the panel captures input
// ---------------------------------------------------------------------------

/// At most this many `ShowCursor(TRUE)` calls are made to show the cursor.
pub const MAX_SHOW_CURSOR_CALLS: i32 = 8;

/// Whether the overlay holds the cursor and how many `ShowCursor(TRUE)` calls
/// it made, which releasing it takes back.
pub struct CursorCapture {
    active: bool,
    show_cursor_delta: i32,
}

/// `(active, calls made)`.
pub type CursorCaptureView = (bool, int);

pub open spec fn cursor_view_wf(v: CursorCaptureView) -> bool {
    &&& 0 <= v.1 <= MAX_SHOW_CURSOR_CALLS
    &&& !v.0 ==> v.1 == 0
}

pub open spec fn spec_begin_capture(v: CursorCaptureView) -> (CursorCaptureView, bool) {
    if v.0 {
        (v, false)
    } else {
        ((true, 0), true)
    }
}

pub open spec fn spec_record_show_cursor(v: CursorCaptureView, display_count: i32) -> (
    CursorCaptureView,
    bool,
) {
    if v.0 && v.1 < MAX_SHOW_CURSOR_CALLS {
        let n = v.1 + 1;
        ((true, n), display_count < 0 && n < MAX_SHOW_CURSOR_CALLS)
    } else {
        (v, false)
    }
}

pub open spec fn spec_end_capture(v: CursorCaptureView) -> (CursorCaptureView, int) {
    if v.0 {
        ((false, 0), v.1)
    } else {
        (v, 0)
    }
}

impl View for CursorCapture {
    type V = CursorCaptureView;

    closed spec fn view(&self) -> CursorCaptureView {
        (self.active, self.show_cursor_delta as int)
    }
}

impl CursorCapture {
    #[verifier::type_invariant]
    spec fn inv(&self) -> bool {
        cursor_view_wf(self@)
    }

    /// The cursor not held.
    pub fn new() -> (c: CursorCapture)
        ensures
            c@ == (false, 0int),
    {
        CursorCapture { active: false, show_cursor_delta: 0 }
    }

    pub fn is_active(&self) -> (b: bool)
        ensures
            b == self@.0,
    {
        self.active
    }

    /// Starts holding the cursor: `true` when it was not held, and the caller
    /// then frees the clip and shows the cursor.
    pub fn begin_capture(&mut self) -> (r: bool)
        ensures
            (final(self)@, r) == spec_begin_capture(old(self)@),
            cursor_view_wf(final(self)@),
    {
        proof {
            use_type_invariant(&*self);
        }
        if self.active {
            return false;
        }
        self.active = true;
        self.show_cursor_delta = 0;
        true
    }

    /// Records a `ShowCursor(TRUE)` call that returned `display_count`; `true`
    /// when the cursor is still hidden and another call is allowed.
    pub fn record_show_cursor(&mut self, display_count: i32) -> (r: bool)
        ensures
            (final(self)@, r) == spec_record_show_cursor(old(self)@, display_count),
            cursor_view_wf(final(self)@),
    {
        proof {
            use_type_invariant(&*self);
        }
        if self.active && self.show_cursor_delta < MAX_SHOW_CURSOR_CALLS {
            self.show_cursor_delta = self.show_cursor_delta + 1;
            display_count < 0 && self.show_cursor_delta < MAX_SHOW_CURSOR_CALLS
        } else {
            false
        }
    }

    /// Stops holding the cursor: the number of `ShowCursor(FALSE)` calls that
    /// undo the capture (none when it was not held).
    pub fn end_capture(&mut self) -> (r: u32)
        ensures
            (final(self)@, r as int) == spec_end_capture(old(self)@),
            cursor_view_wf(final(self)@),
    {
        proof {
            use_type_invariant(&*self);
        }
        if !self.active {
            return 0;
        }
        let n = self.show_cursor_delta as u32;
        self.show_cursor_delta = 0;
        self.active = false;
        n
    }
}

/// The state after recording the display counts of the `ShowCursor` calls,
/// stopping where the capture says to stop.
pub open spec fn spec_record_all(v: CursorCaptureView, counts: Seq<i32>) -> (CursorCaptureView, nat)
    decreases counts.len(),
{
    if counts.len() == 0 {
        (v, 0)
    } else {
        let (w, more) = spec_record_show_cursor(v, counts[0]);
        if more {
            let (x, n) = spec_record_all(w, counts.drop_first());
            (x, n + 1)
        } else {
            (w, 1)
        }
    }
}

/// Releasing the cursor takes back exactly the `ShowCursor(TRUE)` calls that
/// capturing it made, between one and eight of them.
pub proof fn lemma_cursor_capture_balanced(counts: Seq<i32>)
    requires
        counts.len() > 0,
    ensures
        ({
            let (started, began) = spec_begin_capture((false, 0));
            let (held, calls) = spec_record_all(started, counts);
            let (released, hides) = spec_end_capture(held);
            &&& began
            &&& 1 <= calls <= MAX_SHOW_CURSOR_CALLS
            &&& hides == calls
            &&& released == (false, 0int)
        }),
{
    lemma_record_all_counts((true, 0), counts);
}

proof fn lemma_record_all_counts(v: CursorCaptureView, counts: Seq<i32>)
    requires
        v.0,
        0 <= v.1 < MAX_SHOW_CURSOR_CALLS,
        counts.len() > 0,
    ensures
        ({
            let (w, n) = spec_record_all(v, counts);
            &&& w.0
            &&& w.1 == v.1 + n
            &&& 1 <= n
            &&& w.1 <= MAX_SHOW_CURSOR_CALLS
        }),
    decreases counts.len(),
{
    let (w, more) = spec_record_show_cursor(v, counts[0]);
    if more {
        if counts.drop_first().len() > 0 {
            lemma_record_all_counts(w, counts.drop_first());
        } else {
            assert(spec_record_all(w, counts.drop_first()) == (w, 0nat));
        }
    }
}

// ---------------------------------------------------------------------------
// The window procedure hook
// ---------------------------------------------------------------------------

/// Where the window to hook comes from.
#[derive(Clone, Copy, Debug, PartialEq, Eq, Structural)]
pub enum TargetSource {
    /// The window the present call draws to.
    Override(usize),
    /// The window found before.
    Cached(usize),
    /// Neither is known: ask the device for its focus window.
    QueryDevice,
}

/// What installing the hook on a window takes.
#[derive(Clone, Copy, Debug, PartialEq, Eq, Structural)]
pub enum HookPlan {
    /// The hook is already on that window.
    AlreadyInstalled,
    /// Install it.
    Install,
    /// Take it off the window it is on, then install it.
    ReplaceThenInstall,
}

/// What an attempt to install the hook came to.
#[derive(Clone, Copy, Debug, PartialEq, Eq, Structural)]
pub enum InstallOutcome {
    Installed,
    /// Failed, and this failure is the one to report.
    FailedReport,
    /// Failed again; already reported.
    FailedQuiet,
}

/// What taking the hook off requires.
#[derive(Clone, Copy, Debug, PartialEq, Eq, Structural)]
pub enum RemoveOutcome {
    /// No hook was installed; nothing to do.
    NotInstalled,
    /// Put `original_proc` back as the window procedure of `hwnd`.
    Restore { hwnd: usize, original_proc: i32 },
    /// The hook is forgotten; there is no procedure to put back.
    Removed,
}

/// The hook's state: whether it is installed, on which window, the window
/// procedure it replaced, the window it targets and whether a failure to
/// install was reported.
#[derive(Clone, Copy, Debug, PartialEq, Eq, Structural)]
pub struct WndProcHookState {
    pub installed: bool,
    pub hwnd_bits: usize,
    pub original_proc_bits: usize,
    pub target_hwnd_bits: usize,
    pub install_failed_logged: bool,
}

pub open spec fn spec_plan_install(s: WndProcHookState, target: usize) -> (
    WndProcHookState,
    HookPlan,
) {
    let t = WndProcHookState { target_hwnd_bits: target, ..s };
    if s.installed && s.hwnd_bits == target {
        (t, HookPlan::AlreadyInstalled)
    } else if s.installed && s.hwnd_bits != 0 {
        (t, HookPlan::ReplaceThenInstall)
    } else {
        (t, HookPlan::Install)
    }
}

pub open spec fn spec_record_install(s: WndProcHookState, hwnd: usize, previous_proc: i32) -> (
    WndProcHookState,
    InstallOutcome,
) {
    if previous_proc == 0 {
        if s.install_failed_logged {
            (s, InstallOutcome::FailedQuiet)
        } else {
            (WndProcHookState { install_failed_logged: true, ..s }, InstallOutcome::FailedReport)
        }
    } else {
        (
            WndProcHookState {
                installed: true,
                hwnd_bits: hwnd,
                original_proc_bits: (if previous_proc < 0 {
                    previous_proc + 0x1_0000_0000
                } else {
                    previous_proc as int
                }) as usize,
                target_hwnd_bits: s.target_hwnd_bits,
                install_failed_logged: false,
            },
            InstallOutcome::Installed,
        )
    }
}

pub open spec fn spec_remove(s: WndProcHookState) -> (WndProcHookState, RemoveOutcome) {
    if !s.installed {
        (s, RemoveOutcome::NotInstalled)
    } else {
        let t = WndProcHookState { installed: false, hwnd_bits: 0, original_proc_bits: 0, ..s };
        if s.hwnd_bits != 0 && s.original_proc_bits != 0 {
            (
                t,
                RemoveOutcome::Restore {
                    hwnd: s.hwnd_bits,
                    original_proc: spec_bits_to_i32(s.original_proc_bits) as i32,
                },
            )
        } else {
            (t, RemoveOutcome::Removed)
        }
    }
}

impl WndProcHookState {
    /// No hook, no target.
    pub fn new() -> (s: WndProcHookState)
        ensures
            !s.installed,
            s.hwnd_bits == 0,
            s.original_proc_bits == 0,
            s.target_hwnd_bits == 0,
            !s.install_failed_logged,
    {
        WndProcHookState {
            installed: false,
            hwnd_bits: 0,
            original_proc_bits: 0,
            target_hwnd_bits: 0,
            install_failed_logged: false,
        }
    }

    /// Where the window to hook comes from: the present call's window, else
    /// the one found before, else the device.
    pub fn resolve_overlay_target_hwnd(&self, override_bits: usize) -> (r: TargetSource)
        ensures
            r == (if override_bits != 0 {
                TargetSource::Override(override_bits)
            } else if self.target_hwnd_bits != 0 {
                TargetSource::Cached(self.target_hwnd_bits)
            } else {
                TargetSource::QueryDevice
            }),
    {
        if override_bits != 0 {
            TargetSource::Override(override_bits)
        } else if self.target_hwnd_bits != 0 {
            TargetSource::Cached(self.target_hwnd_bits)
        } else {
            TargetSource::QueryDevice
        }
    }

    /// Remembers `target` as the window to hook and says what installing the
    /// hook there takes.
    pub fn plan_install(&mut self, target: usize) -> (r: HookPlan)
        ensures
            (*final(self), r) == spec_plan_install(*old(self), target),
    {
        self.target_hwnd_bits = target;
        if self.installed && self.hwnd_bits == target {
            HookPlan::AlreadyInstalled
        } else if self.installed && self.hwnd_bits != 0 {
            HookPlan::ReplaceThenInstall
        } else {
            HookPlan::Install
        }
    }

    /// Records the result of `SetWindowLongA(hwnd, GWL_WNDPROC, ..)`: the
    /// previous procedure, or 0 when the call failed.
    pub fn record_install(&mut self, hwnd: usize, previous_proc: i32) -> (r: InstallOutcome)
        ensures
            (*final(self), r) == spec_record_install(*old(self), hwnd, previous_proc),
    {
        if previous_proc == 0 {
            if self.install_failed_logged {
                InstallOutcome::FailedQuiet
            } else {
                self.install_failed_logged = true;
                InstallOutcome::FailedReport
            }
        } else {
            self.install_failed_logged = false;
            self.original_proc_bits = i32_to_bits(previous_proc);
            self.hwnd_bits = hwnd;
            self.installed = true;
            InstallOutcome::Installed
        }
    }

    /// Forgets the hook and says which procedure to put back.
    pub fn remove_overlay_wndproc_hook(&mut self) -> (r: RemoveOutcome)
        ensures
            (*final(self), r) == spec_remove(*old(self)),
    {
        if !self.installed {
            return RemoveOutcome::NotInstalled;
        }
        let hwnd = self.hwnd_bits;
        let original = self.original_proc_bits;
        self.installed = false;
        self.hwnd_bits = 0;
        self.original_proc_bits = 0;
        if hwnd != 0 && original != 0 {
            RemoveOutcome::Restore { hwnd, original_proc: bits_to_i32(original) }
        } else {
            RemoveOutcome::Removed
        }
    }

    /// Forgets the target window (it is being destroyed).
    pub fn clear_target(&mut self)
        ensures
            *final(self) == (WndProcHookState { target_hwnd_bits: 0, ..*old(self) }),
    {
        self.target_hwnd_bits = 0;
    }

    /// The window procedure to pass messages on to: `None` means the default
    /// one.
    pub fn original_wndproc(&self) -> (r: Option<i32>)
        ensures
            r == (if self.original_proc_bits == 0 {
                None::<i32>
            } else {
                Some(spec_bits_to_i32(self.original_proc_bits) as i32)
            }),
    {
        if self.original_proc_bits == 0 {
            None
        } else {
            Some(bits_to_i32(self.original_proc_bits))
        }
    }
}

/// Taking the hook off a window puts back the procedure it replaced there.
pub proof fn lemma_install_then_remove_restores(
    s: WndProcHookState,
    hwnd: usize,
    previous_proc: i32,
)
    requires
        hwnd != 0,
        previous_proc != 0,
    ensures
        ({
            let (installed, outcome) = spec_record_install(s, hwnd, previous_proc);
            let (removed, undo) = spec_remove(installed);
            &&& outcome == InstallOutcome::Installed
            &&& undo == RemoveOutcome::Restore { hwnd, original_proc: previous_proc }
            &&& !removed.installed
            &&& removed.target_hwnd_bits == s.target_hwnd_bits
        }),
{
    let bits = spec_record_install(s, hwnd, previous_proc).0.original_proc_bits;
    lemma_i32_bits_roundtrip(previous_proc, bits);
}

// ---------------------------------------------------------------------------
// Routing a window message
// ---------------------------------------------------------------------------

/// Where the hooked window procedure sends a message.
#[derive(Clone, Copy, Debug, PartialEq, Eq, Structural)]
pub enum WndProcRoute {
    /// The hotkey took it: return 0.
    Swallow,
    /// The window is being destroyed: pass it on, then take the hook off and
    /// forget the target.
    ForwardThenUnhook,
    /// The panel captures input: offer it to the overlay and return 0 when
    /// the overlay consumes it, else pass it on.
    OfferToOverlay,
    /// Pass it on to the window's own procedure.
    Forward,
}

/// Where a message goes, given what the hotkey did with it and whether the
/// panel captures input.
pub fn route_overlay_message(hotkey: HotkeyResult, msg: u32, input_capture_enabled: bool) -> (r:
    WndProcRoute)
    ensures
        r == (if hotkey != HotkeyResult::NotHotkey {
            WndProcRoute::Swallow
        } else if msg == WM_NCDESTROY {
            WndProcRoute::ForwardThenUnhook
        } else if input_capture_enabled {
            WndProcRoute::OfferToOverlay
        } else {
            WndProcRoute::Forward
        }),
{
    match hotkey {
        HotkeyResult::NotHotkey => {
            if msg == WM_NCDESTROY {
                WndProcRoute::ForwardThenUnhook
            } else if input_capture_enabled {
                WndProcRoute::OfferToOverlay
            } else {
                WndProcRoute::Forward
            }
        },
        _ => WndProcRoute::Swallow,
    }
}

// ---------------------------------------------------------------------------
// The whole overlay state
// ---------------------------------------------------------------------------

/// What has to be done with the cursor after an overlay step.
#[derive(Clone, Copy, Debug, PartialEq, Eq, Structural)]
pub enum CursorAction {
    /// Nothing.
    Keep,
    /// The capture began: free the cursor's clip, then call `ShowCursor(TRUE)`
    /// and hand each result to [`CursorCapture::record_show_cursor`] until it
    /// says to stop, then show the arrow cursor.
    Show,
    /// The capture ended: call `ShowCursor(FALSE)` this many times.
    Hide(u32),
}

/// The panel, the cursor it holds and the window procedure hook, stepped
/// together so that the cursor follows the panel.
pub struct OverlayState {
    pub input: OverlayInputState,
    pub cursor: CursorCapture,
    pub hook: WndProcHookState,
}

/// `(panel, cursor, hook)`.
pub type OverlayStateView = (OverlayInputState, CursorCaptureView, WndProcHookState);

impl View for OverlayState {
    type V = OverlayStateView;

    open spec fn view(&self) -> OverlayStateView {
        (self.input, self.cursor@, self.hook)
    }
}

/// The cursor made to follow the panel's input capture: held when `capture`,
/// released otherwise.
pub open spec fn spec_cursor_follow(c: CursorCaptureView, capture: bool) -> (
    CursorCaptureView,
    CursorAction,
) {
    if capture {
        let (d, began) = spec_begin_capture(c);
        (d, if began {
            CursorAction::Show
        } else {
            CursorAction::Keep
        })
    } else {
        let (d, calls) = spec_end_capture(c);
        (d, if c.0 {
            CursorAction::Hide(calls as u32)
        } else {
            CursorAction::Keep
        })
    }
}

/// The F8 hotkey over the whole overlay: a toggle also takes or gives back
/// the cursor.
pub open spec fn spec_overlay_hotkey(s: OverlayStateView, msg: u32, wparam: usize) -> (
    OverlayStateView,
    HotkeyResult,
    CursorAction,
) {
    let (input, r) = spec_hotkey(s.0, msg, wparam);
    match r {
        HotkeyResult::Toggled { visible } => {
            let (c, a) = spec_cursor_follow(s.1, visible);
            ((input, c, s.2), r, a)
        },
        _ => ((input, s.1, s.2), r, CursorAction::Keep),
    }
}

/// Taking the hook off over the whole overlay: when a hook was on, the panel
/// closes, the game gets its input back and the cursor is released.
pub open spec fn spec_overlay_remove(s: OverlayStateView) -> (
    OverlayStateView,
    RemoveOutcome,
    CursorAction,
) {
    let (hook, o) = spec_remove(s.2);
    match o {
        RemoveOutcome::NotInstalled => (s, o, CursorAction::Keep),
        _ => {
            let (c, a) = spec_cursor_follow(s.1, false);
            (
                (OverlayInputState { panel_visible: false, input_capture_enabled: false }, c, hook),
                o,
                a,
            )
        },
    }
}

impl OverlayState {
    /// The panel hidden, the cursor not held, no hook.
    pub fn new() -> (s: OverlayState)
        ensures
            s@ == (
                OverlayInputState { panel_visible: false, input_capture_enabled: false },
                (false, 0int),
                WndProcHookState {
                    installed: false,
                    hwnd_bits: 0,
                    original_proc_bits: 0,
                    target_hwnd_bits: 0,
                    install_failed_logged: false,
                },
            ),
    {
        OverlayState {
            input: OverlayInputState::new(),
            cursor: CursorCapture::new(),
            hook: WndProcHookState::new(),
        }
    }

    fn follow_cursor(&mut self, capture: bool) -> (a: CursorAction)
        ensures
            (final(self).cursor@, a) == spec_cursor_follow(old(self).cursor@, capture),
            final(self).input == old(self).input,
            final(self).hook == old(self).hook,
    {
        if capture {
            if self.cursor.begin_capture() {
                CursorAction::Show
            } else {
                CursorAction::Keep
            }
        } else {
            if self.cursor.is_active() {
                CursorAction::Hide(self.cursor.end_capture())
            } else {
                CursorAction::Keep
            }
        }
    }

    /// Applies the F8 hotkey to a window message: the key-up toggles the
    /// panel and input capture together and the cursor follows them, the
    /// key-down is swallowed.
    pub fn process_overlay_toggle_hotkey_message(&mut self, msg: u32, wparam: usize) -> (r: (
        HotkeyResult,
        CursorAction,
    ))
        ensures
            (final(self)@, r.0, r.1) == spec_overlay_hotkey(old(self)@, msg, wparam),
    {
        let r = self.input.process_overlay_toggle_hotkey_message(msg, wparam);
        match r {
            HotkeyResult::Toggled { visible } => {
                let a = self.follow_cursor(visible);
                (r, a)
            },
            _ => (r, CursorAction::Keep),
        }
    }

    /// Takes the hook off: says which procedure to put back, and when a hook
    /// was on, closes the panel, gives the input back and releases the cursor.
    pub fn remove_overlay_wndproc_hook(&mut self) -> (r: (RemoveOutcome, CursorAction))
        ensures
            (final(self)@, r.0, r.1) == spec_overlay_remove(old(self)@),
    {
        let o = self.hook.remove_overlay_wndproc_hook();
        match o {
            RemoveOutcome::NotInstalled => (o, CursorAction::Keep),
            _ => {
                self.input.close_panel();
                let a = self.follow_cursor(false);
                (o, a)
            },
        }
    }
}

/// After an F8 key-up the cursor is held exactly while the panel shows, and
/// a second F8 key-up brings the panel, the input capture and the cursor back
/// to where they were.
pub proof fn lemma_overlay_cursor_follows_panel(s: OverlayStateView, msg1: u32, msg2: u32)
    requires
        s.0.panel_visible == s.0.input_capture_enabled,
        s.1.0 == s.0.panel_visible,
        cursor_view_wf(s.1),
        msg1 == WM_KEYUP || msg1 == WM_SYSKEYUP,
        msg2 == WM_KEYUP || msg2 == WM_SYSKEYUP,
    ensures
        ({
            let (t, r1, a1) = spec_overlay_hotkey(s, msg1, VK_F8 as usize);
            let (u, r2, a2) = spec_overlay_hotkey(t, msg2, VK_F8 as usize);
            &&& r1 == HotkeyResult::Toggled { visible: !s.0.panel_visible }
            &&& t.0.panel_visible == !s.0.panel_visible
            &&& t.0.input_capture_enabled == !s.0.panel_visible
            &&& t.1.0 == t.0.panel_visible
            &&& a1 == (if t.0.panel_visible {
                CursorAction::Show
            } else {
                CursorAction::Hide(s.1.1 as u32)
            })
            &&& t.2 == s.2
            &&& u.0 == s.0
            &&& u.1.0 == s.1.0
            &&& u.2 == s.2
        }),
{
}

/// Taking an installed hook off closes the panel, gives the game its input
/// back, releases the cursor and forgets the hook; taking it off again does
/// nothing.
pub proof fn lemma_overlay_remove_closes_panel(s: OverlayStateView)
    requires
        s.2.installed,
    ensures
        ({
            let (t, o, a) = spec_overlay_remove(s);
            let (u, o2, a2) = spec_overlay_remove(t);
            &&& o != RemoveOutcome::NotInstalled
            &&& !t.0.panel_visible
            &&& !t.0.input_capture_enabled
            &&& !t.1.0
            &&& a == (if s.1.0 {
                CursorAction::Hide(s.1.1 as u32)
            } else {
                CursorAction::Keep
            })
            &&& !t.2.installed
            &&& t.2.hwnd_bits == 0
            &&& t.2.original_proc_bits == 0
            &&& o2 == RemoveOutcome::NotInstalled
            &&& u == t
            &&& a2 == CursorAction::Keep
        }),
{
}

} // verus!
