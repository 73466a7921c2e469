use tao::relay::{
    MainPipe, NativeAction, RecvOutcome, RelayChannel, RelayModel, SendOutcome, WebViewMessage,
    RELAY_CAPACITY,
};

fn script_msg(n: usize) -> WebViewMessage {
    WebViewMessage::CreateWebView(format!("https://example.com/{}", n), vec![], false)
}

#[test]
fn model_delivers_in_send_order_exactly_once() {
    let mut relay = RelayModel::new();
    for n in 0..5 {
        assert!(relay.send(script_msg(n)));
    }
    for n in 0..5 {
        assert_eq!(relay.drain_one(), Some(script_msg(n)));
    }
    assert_eq!(relay.drain_one(), None);
}

#[test]
fn model_backpressure_at_capacity() {
    let mut relay = RelayModel::new();
    for n in 0..RELAY_CAPACITY {
        assert!(relay.send(script_msg(n)), "slot {} should be free", n);
    }
    // The ninth send is not admitted: the bounded channel would block
    // this producer until the consumer drains a slot.
    assert!(!relay.send(script_msg(99)));
    assert_eq!(relay.drain_one(), Some(script_msg(0)));
    assert!(relay.send(script_msg(99)));
}

#[test]
fn channel_carries_messages_across() {
    let relay = RelayChannel::new();
    match relay.send(WebViewMessage::Eval) {
        SendOutcome::Accepted => {}
        SendOutcome::Closed(_) => panic!("receiver still alive"),
    }
    match relay.try_drain_one() {
        RecvOutcome::Message(WebViewMessage::Eval) => {}
        other => panic!("expected the sent message back, got {:?}", other),
    }
    match relay.try_drain_one() {
        RecvOutcome::Empty => {}
        other => panic!("expected an empty channel, got {:?}", other),
    }
}

#[test]
fn channel_preserves_producer_order() {
    let relay = RelayChannel::new();
    for n in 0..4 {
        match relay.send(script_msg(n)) {
            SendOutcome::Accepted => {}
            SendOutcome::Closed(_) => panic!("receiver still alive"),
        }
    }
    for n in 0..4 {
        match relay.try_drain_one() {
            RecvOutcome::Message(m) => assert_eq!(m, script_msg(n)),
            other => panic!("expected a message, got {:?}", other),
        }
    }
}

#[test]
fn create_queues_scripts_and_requests_build() {
    let mut pipe = MainPipe::new();
    let msg = WebViewMessage::CreateWebView(
        String::from("https://example.com/app"),
        vec![String::from("init();"), String::from("ready();")],
        true,
    );
    let acts = pipe.handle_message(msg);
    assert_eq!(
        acts,
        vec![NativeAction::CreateWebView {
            url: String::from("https://example.com/app"),
            devtools: true,
        }]
    );
    assert_eq!(pipe.scripts, vec![String::from("init();"), String::from("ready();")]);
    assert_eq!(pipe.webview, None);
}

#[test]
fn eval_without_webview_is_ignored() {
    let mut pipe = MainPipe::new();
    let _ = pipe.handle_message(WebViewMessage::CreateWebView(
        String::from("https://example.com"),
        vec![String::from("a();")],
        false,
    ));
    let acts = pipe.handle_message(WebViewMessage::Eval);
    assert_eq!(acts, vec![]);
    assert_eq!(pipe.scripts, vec![String::from("a();")]);
}

#[test]
fn eval_drains_scripts_in_order() {
    let mut pipe = MainPipe::new();
    let _ = pipe.handle_message(WebViewMessage::CreateWebView(
        String::from("https://example.com"),
        vec![String::from("a();"), String::from("b();")],
        false,
    ));
    pipe.set_webview(42);
    let acts = pipe.handle_message(WebViewMessage::Eval);
    assert_eq!(
        acts,
        vec![
            NativeAction::EvaluateScript(String::from("a();")),
            NativeAction::EvaluateScript(String::from("b();")),
        ]
    );
    assert_eq!(pipe.scripts, Vec::<String>::new());
    assert_eq!(pipe.webview, Some(42));
    // A second eval has nothing left to run.
    assert_eq!(pipe.handle_message(WebViewMessage::Eval), vec![]);
}

