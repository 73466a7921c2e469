//! macOS application-delegate dispatch.
//!
//! A delegate class is registered at process startup and the OS invokes
//! a fixed set of selectors on it; each handler forwards into the
//! process-wide application state.  The per-instance auxiliary state and
//! the decision each handler takes — which portable event to fan out and
//! which value to hand back to the selector — are modelled and verified
//! here; the Objective-C plumbing (class registration, instance variable
//! storage, message sends) stays outside and feeds plain values in.

use vstd::prelude::*;
use vstd::string::StringExecFns;

verus! {

/// Whether the application appears in the Dock and may take focus.
#[derive(Clone, Copy, Debug, PartialEq, Eq, Structural)]
pub enum ActivationPolicy {
    Regular,
    Accessory,
    Prohibited,
}

/// Per-delegate auxiliary state, attached to the native delegate
/// instance at allocation and destroyed with it.  The activation policy
/// is deferred here until the application has finished launching.
#[derive(Clone, Copy, Debug, PartialEq, Eq, Structural)]
pub struct AuxDelegateState {
    pub activation_policy: ActivationPolicy,
    pub activate_ignoring_other_apps: bool,
}

impl Default for AuxDelegateState {
    /// The state a freshly allocated delegate carries: regular
    /// activation, activating ignoring other apps.
    fn default() -> (r: Self)
        ensures
            r == (AuxDelegateState {
                activation_policy: ActivationPolicy::Regular,
                activate_ignoring_other_apps: true,
            }),
    {
        AuxDelegateState {
            activation_policy: ActivationPolicy::Regular,
            activate_ignoring_other_apps: true,
        }
    }
}

/// Declares url::Url, the parsed-URL record handed to the application,
/// as an opaque outside type.
#[verifier::external_type_specification]
#[verifier::external_body]
pub struct ExUrl(url::Url);

/// Whether the url crate parses this text as an absolute URL; a function
/// of the text alone.
pub uninterp spec fn url_parse_ok(s: Seq<char>) -> bool;

/// Relies on url::Url::parse: succeeds exactly on text it can parse as
/// an absolute URL, a deterministic function of the input.
#[verifier::external_body]
fn try_parse_url(s: &str) -> (r: Option<url::Url>)
    ensures
        r is Some <==> url_parse_ok(s@),
{
    url::Url::parse(s).ok()
}

/// How many of these texts parse as URLs.
pub open spec fn spec_url_ok_count(ss: Seq<String>) -> nat
    decreases ss.len(),
{
    if ss.len() == 0 {
        0
    } else {
        spec_url_ok_count(ss.drop_last()) + if url_parse_ok(ss.last()@) {
            1nat
        } else {
            0nat
        }
    }
}

/// Parses each candidate text, keeping exactly the parseable ones in
/// their original order — unparseable entries are dropped silently, as
/// the open-URLs handler does.
pub fn collect_open_urls(urls: &Vec<String>) -> (r: Vec<url::Url>)
    ensures
        r@.len() == spec_url_ok_count(urls@),
{
    let mut out: Vec<url::Url> = Vec::new();
    let n = urls.len();
    for i in 0..n
        invariant
            n == urls@.len(),
            out@.len() == spec_url_ok_count(urls@.take(i as int)),
    {
        proof {
            assert(urls@.take(i as int + 1).drop_last() =~= urls@.take(i as int));
            assert(urls@.take(i as int + 1).last() == urls@[i as int]);
        }
        match try_parse_url(urls[i].as_str()) {
            Some(u) => {
                out.push(u);
            },
            None => {},
        }
    }
    proof {
        assert(urls@.take(n as int) =~= urls@);
    }
    out
}

/// Which of these texts parse as URLs, position by position.
pub fn url_accept_flags(urls: &Vec<String>) -> (r: Vec<bool>)
    ensures
        r@.len() == urls@.len(),
        forall|j: int| 0 <= j < r@.len() ==> r@[j] == url_parse_ok(urls@[j]@),
{
    let mut out: Vec<bool> = Vec::new();
    let n = urls.len();
    for i in 0..n
        invariant
            n == urls@.len(),
            out@.len() == i,
            forall|j: int| 0 <= j < i ==> out@[j] == url_parse_ok(urls@[j]@),
    {
        out.push(try_parse_url(urls[i].as_str()).is_some());
    }
    out
}

/// The positions whose texts parse as URLs, in increasing order.  The
/// walk is the same left-to-right pass as [`collect_open_urls`], so the
/// k-th URL that function keeps comes from the k-th position listed
/// here.  Being as many as the parseable texts, strictly increasing,
/// and parseable at every listed position, the list is exactly the
/// sorted set of parseable positions.
pub fn url_accept_indices(urls: &Vec<String>) -> (r: Vec<usize>)
    ensures
        r@.len() == spec_url_ok_count(urls@),
        forall|k: int|
            0 <= k < r@.len() ==> r@[k] < urls@.len() && url_parse_ok(urls@[r@[k] as int]@),
        forall|k: int| 0 <= k < r@.len() - 1 ==> #[trigger] r@[k] < r@[k + 1],
{
    let mut out: Vec<usize> = Vec::new();
    let n = urls.len();
    for i in 0..n
        invariant
            n == urls@.len(),
            out@.len() == spec_url_ok_count(urls@.take(i as int)),
            forall|k: int|
                0 <= k < out@.len() ==> out@[k] < i && url_parse_ok(urls@[out@[k] as int]@),
            forall|k: int| 0 <= k < out@.len() - 1 ==> #[trigger] out@[k] < out@[k + 1],
    {
        proof {
            assert(urls@.take(i as int + 1).drop_last() =~= urls@.take(i as int));
            assert(urls@.take(i as int + 1).last() == urls@[i as int]);
        }
        if try_parse_url(urls[i].as_str()).is_some() {
            out.push(i);
        }
    }
    proof {
        assert(urls@.take(n as int) =~= urls@);
    }
    out
}

/// What the OS handed the push-registration success callback: the token
/// container may be null, of an unexpected native class, or the raw
/// token bytes.
#[derive(Clone, Debug, PartialEq)]
pub enum TokenData {
    Null,
    WrongClass,
    Bytes(Vec<u8>),
}

/// What the OS handed the push-registration failure callback.
#[derive(Clone, Debug, PartialEq)]
pub enum PushError {
    /// The error object itself was null.
    NullError,
    /// The object was not of the expected error class.
    WrongClass,
    /// The error had no description string.
    NullDescription,
    /// The error's human-readable description.
    Description(String),
}

/// The token bytes to surface for a registration-success callback:
/// malformed cross-boundary data is dropped silently, never propagated
/// as a crash.
pub fn push_token_bytes(data: TokenData) -> (r: Option<Vec<u8>>)
    ensures
        data matches TokenData::Bytes(b) ==> r == Some(b),
        data is Null || data is WrongClass ==> r is None,
{
    match data {
        TokenData::Bytes(b) => Some(b),
        TokenData::Null => None,
        TokenData::WrongClass => None,
    }
}

/// The message to surface for a registration-failure callback: a null
/// error object, or an error whose description is unexpectedly null,
/// falls back to the fixed placeholder; an object of the wrong class is
/// dropped silently; otherwise the description is passed through.
pub fn push_failure_message(err: PushError) -> (r: Option<String>)
    ensures
        err is NullError ==> (r matches Some(s) && s@ == "Unknown error (null error object)"@),
        err is NullDescription ==> (r matches Some(s) && s@ == "Unknown error (null error object)"@),
        err is WrongClass ==> r is None,
        err matches PushError::Description(d) ==> r == Some(d),
{
    match err {
        PushError::NullError => Some(String::from_str("Unknown error (null error object)")),
        PushError::NullDescription => Some(String::from_str("Unknown error (null error object)")),
        PushError::WrongClass => None,
        PushError::Description(d) => Some(d),
    }
}

/// A delegate selector invocation, reduced to the plain values the
/// handler decides on.
#[derive(Debug)]
pub enum DelegateCallback {
    DidFinishLaunching,
    WillTerminate,
    OpenUrls(Vec<String>),
    ShouldHandleReopen(bool),
    SupportsSecureRestorableState,
    DidRegisterForPush(TokenData),
    DidFailToRegisterForPush(PushError),
}

/// An occurrence fanned out to the portable event loop by a delegate
/// handler.
#[derive(Debug)]
pub enum AppEvent {
    Launched,
    Exit,
    OpenUrls(Vec<url::Url>),
    Reopen(bool),
    PushToken(Vec<u8>),
    PushRegistrationFailed(String),
}

/// What a delegate handler does: the event it fans out, if any, and the
/// boolean it returns to selectors that expect one.
#[derive(Debug)]
pub struct DelegateReply {
    pub event: Option<AppEvent>,
    pub returned: bool,
}

/// Dispatches one delegate callback: launching and termination fan out
/// their lifecycle events; open-URLs keeps exactly the parseable URLs;
/// the reopen query echoes its visible-windows flag back to the OS; the
/// secure-restorable-state query answers yes without fanning anything
/// out; and the push callbacks surface token bytes or a failure message
/// as [`push_token_bytes`] and [`push_failure_message`] decide.
pub fn delegate_response(cb: DelegateCallback) -> (r: DelegateReply)
    ensures
        cb is DidFinishLaunching ==> (r.event matches Some(e) && e is Launched && r.returned),
        cb is WillTerminate ==> (r.event matches Some(e) && e is Exit && r.returned),
        cb matches DelegateCallback::OpenUrls(urls) ==> (r.event matches Some(e)
            && e matches AppEvent::OpenUrls(v) && v@.len() == spec_url_ok_count(urls@)
            && r.returned),
        cb matches DelegateCallback::ShouldHandleReopen(visible) ==> (r.event matches Some(e)
            && e == AppEvent::Reopen(visible) && r.returned == visible),
        cb is SupportsSecureRestorableState ==> r.event is None && r.returned,
        cb matches DelegateCallback::DidRegisterForPush(data) ==> match data {
            TokenData::Bytes(b) => (r.event matches Some(e) && e == AppEvent::PushToken(b)
                && r.returned),
            _ => r.event is None && r.returned,
        },
        cb matches DelegateCallback::DidFailToRegisterForPush(err) ==> match err {
            PushError::NullError => (r.event matches Some(e)
                && e matches AppEvent::PushRegistrationFailed(s) && s@ == "Unknown error (null error object)"@
                && r.returned),
            PushError::NullDescription => (r.event matches Some(e)
                && e matches AppEvent::PushRegistrationFailed(s) && s@ == "Unknown error (null error object)"@
                && r.returned),
            PushError::Description(d) => (r.event matches Some(e) && e
                == AppEvent::PushRegistrationFailed(d) && r.returned),
            PushError::WrongClass => r.event is None && r.returned,
        },
{
    match cb {
        DelegateCallback::DidFinishLaunching => DelegateReply {
            event: Some(AppEvent::Launched),
            returned: true,
        },
        DelegateCallback::WillTerminate => DelegateReply {
            event: Some(AppEvent::Exit),
            returned: true,
        },
        DelegateCallback::OpenUrls(urls) => {
            let parsed = collect_open_urls(&urls);
            DelegateReply { event: Some(AppEvent::OpenUrls(parsed)), returned: true }
        },
        DelegateCallback::ShouldHandleReopen(visible) => DelegateReply {
            event: Some(AppEvent::Reopen(visible)),
            returned: visible,
        },
        DelegateCallback::SupportsSecureRestorableState => DelegateReply {
            event: None,
            returned: true,
        },
        DelegateCallback::DidRegisterForPush(data) => {
            match push_token_bytes(data) {
                Some(b) => DelegateReply { event: Some(AppEvent::PushToken(b)), returned: true },
                None => DelegateReply { event: None, returned: true },
            }
        },
        DelegateCallback::DidFailToRegisterForPush(err) => {
            match push_failure_message(err) {
                Some(s) => DelegateReply {
                    event: Some(AppEvent::PushRegistrationFailed(s)),
                    returned: true,
                },
                None => DelegateReply { event: None, returned: true },
            }
        },
    }
}

} // verus!
