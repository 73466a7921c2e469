//! Cross-platform event-loop and native lifecycle bridge.
//!
//! The library models the portable core of a desktop-shell integration
//! layer: the fixed-size event wire format carried over the signalling
//! pipe, the bounded main-thread relay that serialises cross-thread UI
//! requests, the Android lifecycle glue state (looper, window and input
//! queue handles under a read-write lock discipline), the macOS
//! application-delegate dispatch, and the tray-menu and global-accelerator
//! routing tables.  The native calls themselves (JNI, Objective-C, Win32)
//! stay outside; everything that decides or computes is verified here.

pub mod accel;
pub mod delegate;
pub mod dock;
pub mod event;
pub mod glue;
pub mod push;
pub mod relay;
pub mod tray;
