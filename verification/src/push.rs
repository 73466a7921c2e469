//! Remote push-notification surface.
//!
//! When enabled on Apple platforms, registration is triggered at app
//! startup; once a token is obtained it is emitted as an app event, and
//! a failed registration is emitted likewise with its message.  These
//! types stay generic to platform naming to allow for other push
//! services.

use vstd::prelude::*;

verus! {

/// The push token type: raw platform-defined bytes, opaque to this
/// layer.
pub type PushToken = Vec<u8>;

/// Push notifications capability marker: obtaining the token, possibly
/// at app start, and exposing it to the developer.
pub trait PushNotifications {

}

} // verus!
