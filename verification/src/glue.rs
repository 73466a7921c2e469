//! Android lifecycle glue state.
//!
//! The OS drives a fixed set of native callbacks (start, resume, window
//! and input-queue creation and destruction, content-rect changes); each
//! is a narrow trampoline that enqueues a wake event and, for the
//! stateful ones, updates the shared glue state modelled here: the
//! spawned application thread's looper, the native window and input
//! queue handles under a read-write lock discipline, and the current
//! content rect.  The contracts state the two ordering protocols the
//! glue depends on: the initializer may proceed only once the looper is
//! installed, and a destroyed handle is released to the OS only once
//! every read guard is gone.

use vstd::prelude::*;

use crate::event::{Event, Rect};

verus! {

/// Outcome of a destruction callback: whether the OS may reclaim the
/// underlying resource now, or the glue must keep blocking until the
/// outstanding read guards are released.
#[derive(Clone, Copy, Debug, PartialEq, Eq, Structural)]
pub enum DestroyOutcome {
    /// No read guard is outstanding; the handle was cleared and the OS
    /// may free the resource.
    Released,
    /// Read guards are still held; nothing was changed, and the OS must
    /// not free the resource yet.
    Blocked,
}

/// The process-wide glue state: each field has a single logical writer
/// (the registration and unregistration callbacks); all other access is
/// read-only under a guard counted here.
pub struct GlueState {
    /// The application thread's looper, once that thread has prepared
    /// it; looked up by the input-queue callback.
    pub looper: Option<u64>,
    /// The native window handle: `None` before creation and after
    /// destruction.
    pub native_window: Option<u64>,
    /// Outstanding read guards on the native window handle.
    pub window_readers: usize,
    /// The native input queue handle: `None` before creation and after
    /// destruction.
    pub input_queue: Option<u64>,
    /// Outstanding read guards on the input queue handle.
    pub queue_readers: usize,
    /// The visible content area, as of the last content-rect callback.
    pub content_rect: Rect,
}

/// The predicate the initializer blocks on: the spawned thread has
/// installed its looper into the shared state.
pub open spec fn spec_looper_ready(s: GlueState) -> bool {
    s.looper is Some
}

/// The state after the spawned thread installs its looper.
pub open spec fn spec_install_looper(s: GlueState, looper: u64) -> GlueState {
    GlueState { looper: Some(looper), ..s }
}

/// The condition under which a destroyed native window may actually be
/// released to the OS.
pub open spec fn spec_may_release_window(s: GlueState) -> bool {
    s.window_readers == 0
}

/// The condition under which a destroyed input queue may actually be
/// released to the OS.
pub open spec fn spec_may_release_queue(s: GlueState) -> bool {
    s.queue_readers == 0
}

/// Initialization-ordering law: while the looper is absent the
/// initializer's wait predicate refuses to proceed; once the spawned
/// thread installs the looper the predicate holds, and any later
/// input-queue callback finds the looper present.
pub proof fn lemma_init_ordering(s: GlueState, looper: u64)
    requires
        s.looper is None,
    ensures
        !spec_looper_ready(s),
        spec_looper_ready(spec_install_looper(s, looper)),
        spec_install_looper(s, looper).looper == Some(looper),
{
}

impl GlueState {
    /// The state at process start: no looper, no handles, no readers,
    /// an all-zero content rect.
    pub fn new() -> (r: GlueState)
        ensures
            r.looper is None,
            r.native_window is None,
            r.window_readers == 0,
            r.input_queue is None,
            r.queue_readers == 0,
            r.content_rect == (Rect { left: 0, top: 0, right: 0, bottom: 0 }),
    {
        GlueState {
            looper: None,
            native_window: None,
            window_readers: 0,
            input_queue: None,
            queue_readers: 0,
            content_rect: Rect { left: 0, top: 0, right: 0, bottom: 0 },
        }
    }

    /// The spawned application thread publishes its looper; the
    /// initializer, blocked on [`GlueState::looper_ready`], may proceed
    /// from this point on.
    pub fn install_looper(&mut self, looper: u64)
        ensures
            *final(self) == spec_install_looper(*old(self), looper),
            spec_looper_ready(*final(self)),
    {
        self.looper = Some(looper);
    }

    /// One observation of the initializer's wait predicate: true exactly
    /// when the looper has been installed.
    pub fn looper_ready(&self) -> (r: bool)
        ensures
            r == spec_looper_ready(*self),
    {
        self.looper.is_some()
    }

    /// The window-created callback: stores the new handle and yields the
    /// event to enqueue.  The OS hands out a window only while none is
    /// registered.
    pub fn on_window_created(&mut self, window: u64) -> (ev: Event)
        requires
            old(self).native_window is None,
        ensures
            *final(self) == (GlueState { native_window: Some(window), ..*old(self) }),
            ev == Event::WindowCreated,
    {
        self.native_window = Some(window);
        Event::WindowCreated
    }

    /// Acquires a read guard on the native window handle and reads it.
    /// The guard is a contract not to retain the raw handle beyond the
    /// matching release.
    pub fn native_window(&mut self) -> (h: Option<u64>)
        requires
            old(self).window_readers < usize::MAX,
        ensures
            *final(self) == (GlueState {
                window_readers: (old(self).window_readers + 1) as usize,
                ..*old(self)
            }),
            h == old(self).native_window,
    {
        self.window_readers = self.window_readers + 1;
        self.native_window
    }

    /// Releases one read guard on the native window handle.
    pub fn release_native_window(&mut self)
        requires
            old(self).window_readers > 0,
        ensures
            *final(self) == (GlueState {
                window_readers: (old(self).window_readers - 1) as usize,
                ..*old(self)
            }),
    {
        self.window_readers = self.window_readers - 1;
    }

    /// The window-destroyed callback, after the `WindowDestroyed` event
    /// has been enqueued: the handle is cleared and the resource
    /// released to the OS exactly when no read guard is outstanding;
    /// otherwise nothing changes and the glue keeps blocking.
    pub fn on_window_destroyed(&mut self) -> (r: DestroyOutcome)
        requires
            old(self).native_window is Some,
        ensures
            r == DestroyOutcome::Released <==> spec_may_release_window(*old(self)),
            r == DestroyOutcome::Released ==> *final(self) == (GlueState {
                native_window: None,
                ..*old(self)
            }),
            r == DestroyOutcome::Blocked ==> *final(self) == *old(self)
                && final(self).native_window is Some,
    {
        if self.window_readers == 0 {
            self.native_window = None;
            DestroyOutcome::Released
        } else {
            DestroyOutcome::Blocked
        }
    }

    /// The input-queue-created callback: the looper is always present by
    /// the initialization-ordering law, the queue is attached to it, and
    /// the handle stored.
    pub fn on_input_queue_created(&mut self, queue: u64) -> (ev: Event)
        requires
            spec_looper_ready(*old(self)),
            old(self).input_queue is None,
        ensures
            *final(self) == (GlueState { input_queue: Some(queue), ..*old(self) }),
            ev == Event::InputQueueCreated,
    {
        self.input_queue = Some(queue);
        Event::InputQueueCreated
    }

    /// Acquires a read guard on the input queue handle and reads it.
    pub fn input_queue(&mut self) -> (h: Option<u64>)
        requires
            old(self).queue_readers < usize::MAX,
        ensures
            *final(self) == (GlueState {
                queue_readers: (old(self).queue_readers + 1) as usize,
                ..*old(self)
            }),
            h == old(self).input_queue,
    {
        self.queue_readers = self.queue_readers + 1;
        self.input_queue
    }

    /// Releases one read guard on the input queue handle.
    pub fn release_input_queue(&mut self)
        requires
            old(self).queue_readers > 0,
        ensures
            *final(self) == (GlueState {
                queue_readers: (old(self).queue_readers - 1) as usize,
                ..*old(self)
            }),
    {
        self.queue_readers = self.queue_readers - 1;
    }

    /// The input-queue-destroyed callback, after the event has been
    /// enqueued: detaches and clears the handle exactly when no read
    /// guard is outstanding.
    pub fn on_input_queue_destroyed(&mut self) -> (r: DestroyOutcome)
        requires
            old(self).input_queue is Some,
        ensures
            r == DestroyOutcome::Released <==> spec_may_release_queue(*old(self)),
            r == DestroyOutcome::Released ==> *final(self) == (GlueState {
                input_queue: None,
                ..*old(self)
            }),
            r == DestroyOutcome::Blocked ==> *final(self) == *old(self)
                && final(self).input_queue is Some,
    {
        if self.queue_readers == 0 {
            self.input_queue = None;
            DestroyOutcome::Released
        } else {
            DestroyOutcome::Blocked
        }
    }

    /// The content-rect callback: stores the new bounds and yields the
    /// event, which carries them on the wire.
    pub fn on_content_rect_changed(&mut self, rect: Rect) -> (ev: Event)
        ensures
            *final(self) == (GlueState { content_rect: rect, ..*old(self) }),
            ev == Event::ContentRectChanged(rect),
    {
        self.content_rect = rect;
        Event::ContentRectChanged(rect)
    }

    /// Reads the current content rect, as application code needing
    /// layout bounds does.
    pub fn content_rect(&self) -> (r: Rect)
        ensures
            r == self.content_rect,
    {
        self.content_rect
    }
}

/// The focus callback's event: zero means focus was lost, anything else
/// that it was gained.
pub fn focus_event(has_focus: i32) -> (ev: Event)
    ensures
        ev == if has_focus == 0 {
            Event::WindowLostFocus
        } else {
            Event::WindowHasFocus
        },
{
    if has_focus == 0 {
        Event::WindowLostFocus
    } else {
        Event::WindowHasFocus
    }
}

/// Severity of a forwarded log line.
#[derive(Clone, Copy, Debug, PartialEq, Eq, Structural)]
pub enum LogLevel {
    Error,
    Warn,
    Info,
    Debug,
    Trace,
}

/// The platform log sink's priority for each severity, following the
/// Android log ABI: error 6, warn 5, info 4, debug 3, verbose 2.
pub fn android_log_priority(level: LogLevel) -> (prio: i32)
    ensures
        prio == match level {
            LogLevel::Error => 6int,
            LogLevel::Warn => 5int,
            LogLevel::Info => 4int,
            LogLevel::Debug => 3int,
            LogLevel::Trace => 2int,
        },
{
    match level {
        LogLevel::Error => 6,
        LogLevel::Warn => 5,
        LogLevel::Info => 4,
        LogLevel::Debug => 3,
        LogLevel::Trace => 2,
    }
}

} // verus!
