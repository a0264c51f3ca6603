use quad_ws::frame::{Frame, ReadAction, RecvError};
use quad_ws::pc::{
    attempt_established, open_with, revive_with, ws_close_rust, ws_open_plan, ws_open_rust, ws_read_rust, ws_revive_plan, ws_revive_rust,
    ws_state_rust, ws_write_raw, ws_write_rust, WsClient,
};
use quad_ws::url::{fits, has_wss_prefix, is_usable, scheme, weight_of, URL_WEIGHT_LIMIT};
use quad_ws::{wasm, Scheme};

#[test]
fn scheme_is_read_from_the_prefix_alone() {
    assert!(has_wss_prefix("wss://host"));
    assert!(has_wss_prefix("wss"));
    assert!(has_wss_prefix("wsss"));
    assert!(!has_wss_prefix("ws://host"));
    assert!(!has_wss_prefix("ws"));
    assert!(!has_wss_prefix(""));
    assert!(!has_wss_prefix("WSS://host"));
    assert!(!has_wss_prefix(" wss://host"));
    assert!(!has_wss_prefix("w\u{df}s://host"));
    assert!(has_wss_prefix("wss\u{e9}\u{4e16}"));
    assert_eq!(scheme("wss://host"), Scheme::Wss);
    assert_eq!(scheme("ws://host"), Scheme::Ws);
    assert_eq!(scheme("http://host"), Scheme::Ws);
}

#[test]
fn open_selects_the_client_by_scheme() {
    let plain = ws_open_rust("ws://example/echo".to_string(), true).unwrap();
    assert_eq!(plain.client(), WsClient::Insecure);
    assert_eq!(plain.url(), "ws://example/echo");

    let secure = ws_open_rust("wss://example/echo".to_string(), true).unwrap();
    assert_eq!(secure.client(), WsClient::Secure);

    let failed = ws_open_rust("wss://example/echo".to_string(), false).unwrap();
    assert_eq!(failed.client(), WsClient::Disconnected);

    let other = ws_open_rust("http://example/echo".to_string(), true).unwrap();
    assert_eq!(other.client(), WsClient::Insecure);
}

#[test]
fn open_plan_follows_the_parser() {
    assert_eq!(ws_open_plan("ws://example/echo"), Some(Scheme::Ws));
    assert_eq!(ws_open_plan("wss://example/echo"), Some(Scheme::Wss));
    assert_eq!(ws_open_plan("wss"), None);
    assert_eq!(ws_open_plan("example/echo"), None);
    assert!(ws_open_rust("wss".to_string(), true).is_none());
}

#[test]
fn open_with_follows_the_reported_parse() {
    assert!(open_with("ws://example".to_string(), false, true).is_none());
    assert!(open_with("ws://example".to_string(), false, false).is_none());
    let kept = open_with("not a url".to_string(), true, true).unwrap();
    assert_eq!(kept.client(), WsClient::Insecure);
    assert_eq!(kept.url(), "not a url");
    let secure = open_with("wss".to_string(), true, true).unwrap();
    assert_eq!(secure.client(), WsClient::Secure);
}

#[test]
fn revive_with_reports_false_only_without_a_parse() {
    let mut socket = open_with("ws://example".to_string(), true, false).unwrap();
    assert!(!revive_with(&mut socket, false, true));
    assert_eq!(socket.client(), WsClient::Disconnected);
    assert!(revive_with(&mut socket, true, false));
    assert_eq!(socket.client(), WsClient::Disconnected);
    assert!(revive_with(&mut socket, true, true));
    assert_eq!(socket.client(), WsClient::Insecure);
    assert!(revive_with(&mut socket, false, false));
    assert_eq!(socket.client(), WsClient::Insecure);
}

#[test]
fn revive_of_handle_with_unparsable_url_reports_false() {
    let mut socket = open_with("no scheme here".to_string(), true, false).unwrap();
    assert_eq!(ws_revive_plan(&socket), None);
    assert!(!ws_revive_rust(&mut socket, true));
    assert_eq!(socket.client(), WsClient::Disconnected);

    let mut live = open_with("no scheme here".to_string(), true, true).unwrap();
    assert!(ws_revive_rust(&mut live, false));
    assert_eq!(live.client(), WsClient::Insecure);
}

#[test]
fn revive_reports_true_after_a_failed_handshake() {
    let mut socket = ws_open_rust("wss://example".to_string(), false).unwrap();
    assert_eq!(ws_revive_plan(&socket), Some(Scheme::Wss));
    assert!(ws_revive_rust(&mut socket, false));
    assert_eq!(socket.client(), WsClient::Disconnected);
    assert!(ws_revive_rust(&mut socket, true));
    assert_eq!(socket.client(), WsClient::Secure);
}

#[test]
fn raw_write_passes_any_frame_when_connected() {
    let mut socket = ws_open_rust("ws://example".to_string(), true).unwrap();
    assert_eq!(ws_write_raw(&mut socket, Frame::Pong(vec![1])), Some(Frame::Pong(vec![1])));
    assert_eq!(
        ws_write_raw(&mut socket, Frame::Text("hi".to_string())),
        Some(Frame::Text("hi".to_string()))
    );
    assert_eq!(ws_write_rust(&mut socket, vec![8, 9]), Some(Frame::Binary(vec![8, 9])));
    assert_eq!(socket.client(), WsClient::Insecure);

    assert!(ws_close_rust(&mut socket));
    assert_eq!(ws_write_raw(&mut socket, Frame::Pong(vec![1])), None);
    assert_eq!(ws_write_rust(&mut socket, vec![8, 9]), None);
    assert_eq!(socket.client(), WsClient::Closed);
}

#[test]
fn state_codes_of_the_native_backend() {
    let mut socket = ws_open_rust("wss://example".to_string(), false).unwrap();
    assert_eq!(ws_state_rust(&mut socket), 0);
    ws_revive_rust(&mut socket, true);
    assert_eq!(ws_state_rust(&mut socket), 1);
    ws_close_rust(&mut socket);
    assert_eq!(ws_state_rust(&mut socket), 2);

    let mut plain = ws_open_rust("ws://example".to_string(), true).unwrap();
    assert_eq!(ws_state_rust(&mut plain), 1);
}

#[test]
fn native_read_follows_the_table() {
    let mut socket = ws_open_rust("wss://example".to_string(), true).unwrap();
    assert_eq!(ws_read_rust(&mut socket, Ok(Frame::Binary(vec![]))), ReadAction::Deliver(vec![]));
    assert_eq!(ws_read_rust(&mut socket, Ok(Frame::Ping(vec![]))), ReadAction::Reply(Frame::Pong(vec![])));
    assert_eq!(ws_read_rust(&mut socket, Err(RecvError::WouldBlock)), ReadAction::Idle);
    assert_eq!(socket.client(), WsClient::Secure);
    assert_eq!(ws_read_rust(&mut socket, Ok(Frame::Close(None))), ReadAction::Hangup);
    assert_eq!(socket.client(), WsClient::Disconnected);
    assert_eq!(socket.url(), "wss://example");
}

#[test]
fn host_id_below_zero_gives_no_handle() {
    assert_eq!(wasm::ws_open_rust(-1), None);
    assert_eq!(wasm::ws_open_rust(i32::MIN), None);
    assert_eq!(wasm::ws_open_rust(0), Some(0));
    assert_eq!(wasm::ws_open_rust(41), Some(41));
    assert_eq!(wasm::ws_open_rust(i32::MAX), Some(i32::MAX));
}

#[test]
fn host_read_buffer_has_the_reported_length() {
    assert_eq!(wasm::ws_read_rust(-1), None);
    assert_eq!(wasm::ws_read_rust(i32::MIN), None);
    assert_eq!(wasm::ws_read_rust(0), Some(Vec::new()));
    assert_eq!(wasm::ws_read_rust(3), Some(vec![0, 0, 0]));
    assert_eq!(wasm::ws_read_rust(1024), Some(vec![0; 1024]));
}

#[test]
fn weight_counts_one_for_plain_and_eighteen_for_other_characters() {
    assert_eq!(URL_WEIGHT_LIMIT, 3800);
    assert_eq!(weight_of('a'), 1);
    assert_eq!(weight_of(':'), 1);
    assert_eq!(weight_of('\u{7f}'), 1);
    assert_eq!(weight_of('%'), 18);
    assert_eq!(weight_of('\u{80}'), 18);
    assert_eq!(weight_of('\u{4e16}'), 18);
    assert!(fits(""));
    assert!(fits("ws://"));
    assert!(fits(&format!("ws://{}", "a".repeat(3800))));
    assert!(!fits(&format!("ws://{}", "a".repeat(3801))));
    assert!(fits(&format!("ws://{}", "%".repeat(211))));
    assert!(!fits(&format!("ws://{}", "%".repeat(212))));
    assert!(fits(&format!("ws://{}", "\u{e9}".repeat(211))));
    assert!(!fits(&format!("ws://{}", "\u{e9}".repeat(212))));
    assert!(fits(&format!("ws://{}", "\u{10fffd}".repeat(211))));
    assert!(!fits(&format!("ws://{}", "\u{10fffd}".repeat(212))));
    assert!(fits(&format!("ws://aa{}", "%".repeat(211))));
    assert!(!fits(&format!("ws://aaa{}", "%".repeat(211))));
}

#[test]
fn only_the_authority_is_weighed() {
    let long = "a".repeat(100_000);
    let escapes = "%41".repeat(5_000);
    let other = "\u{4e16}".repeat(5_000);
    assert!(fits(&long));
    assert!(fits(&other));
    assert!(fits(&format!("{}:", long)));
    assert!(fits(&format!("ws://h/{}", long)));
    assert!(fits(&format!("ws://h/{}", other)));
    assert!(fits(&format!("ws://h?{}", escapes)));
    assert!(fits(&format!("ws://h#{}", other)));
    assert!(fits(&format!("ws://h\\{}", long)));
    assert!(fits(&format!("ws://{}/{}", "a".repeat(3800), long)));
    assert!(!fits(&format!("ws://{}/", "a".repeat(3801))));
}

#[test]
fn authority_starts_after_the_first_colon_and_what_is_passed_over() {
    let heavy = "a".repeat(3801);
    let light = "a".repeat(3800);
    assert!(!fits(&format!("ws:{}", heavy)));
    assert!(fits(&format!("ws:{}", light)));
    assert!(!fits(&format!("ws:/{}", heavy)));
    assert!(!fits(&format!("ws:////{}", heavy)));
    assert!(!fits(&format!("ws:\\\\{}", heavy)));
    assert!(!fits(&format!("ws:/\t/\n\r/{}", heavy)));
    assert!(fits(&format!("ws:/\t/\n\r/{}", light)));
    assert!(!fits(&format!(":{}", heavy)));
    assert!(!fits(&format!("a:b:{}", "c".repeat(3799))));
    assert!(fits(&format!("a:b:{}", "c".repeat(3798))));
    assert!(!fits(&format!("ws://{}@h", "u".repeat(3799))));
    assert!(fits(&format!("ws://{}@h", "u".repeat(3798))));
    assert!(!fits(&format!("ws://h:{}", "1".repeat(3799))));
}

#[test]
fn long_path_or_query_opens_like_a_short_one() {
    let long_path = format!("wss://example/{}", "a".repeat(4000));
    assert!(is_usable(&long_path));
    assert_eq!(ws_open_plan(&long_path), Some(Scheme::Wss));
    let handle = ws_open_rust(long_path.clone(), true).unwrap();
    assert_eq!(handle.client(), WsClient::Secure);
    assert_eq!(handle.url(), long_path);
    let failed = ws_open_rust(long_path, false).unwrap();
    assert_eq!(failed.client(), WsClient::Disconnected);

    let escaped = format!("ws://h/?{}", "%41".repeat(1000));
    assert_eq!(ws_open_plan(&escaped), Some(Scheme::Ws));
    assert_eq!(ws_open_rust(escaped, true).unwrap().client(), WsClient::Insecure);

    let other = format!("ws://h/{}#{}", "\u{4e16}".repeat(500), "\u{e9}".repeat(500));
    assert_eq!(ws_open_plan(&other), Some(Scheme::Ws));
    assert!(ws_open_rust(other, true).is_some());
}

#[test]
fn authority_at_the_weight_limit_opens_and_one_above_does_not() {
    let at_limit = format!("ws://{}/chat", "a".repeat(3800));
    assert!(is_usable(&at_limit));
    assert_eq!(ws_open_plan(&at_limit), Some(Scheme::Ws));
    let handle = ws_open_rust(at_limit.clone(), true).unwrap();
    assert_eq!(handle.client(), WsClient::Insecure);
    assert_eq!(handle.url(), at_limit);

    let above = format!("ws://{}/chat", "a".repeat(3801));
    assert!(!is_usable(&above));
    assert_eq!(ws_open_plan(&above), None);
    assert!(ws_open_rust(above.clone(), true).is_none());
    assert!(ws_open_rust(above, false).is_none());

    let escaped = format!("wss://{}", "%41".repeat(190));
    assert_eq!(ws_open_plan(&escaped), Some(Scheme::Wss));
    let too_many = format!("wss://{}", "%41".repeat(191));
    assert_eq!(ws_open_plan(&too_many), None);
    assert!(ws_open_rust(too_many, true).is_none());
}

#[test]
fn host_in_another_script_parses() {
    assert!(is_usable("ws://b\u{fc}cher.example/chat"));
    assert!(is_usable(&format!("ws://{}\u{4e16}/", "a".repeat(100))));
    assert!(is_usable(&format!("ws://{}", "\u{4e16}".repeat(211))));
    let handle = ws_open_rust("wss://\u{4e16}\u{754c}.example".to_string(), true).unwrap();
    assert_eq!(handle.client(), WsClient::Secure);
}

#[test]
fn heaviest_admitted_hosts_are_parsed_without_fault() {
    let mapped = format!("ws://\u{10fffd}{}", "\u{fdfa}".repeat(210));
    assert!(fits(&mapped));
    assert!(!is_usable(&mapped));
    let plain = format!("ws://{}\u{10ffff}", "a".repeat(3782));
    assert!(fits(&plain));
    assert!(!is_usable(&plain));
    let escaped = format!("ws://{}", "%EF%B7%BA".repeat(63));
    assert!(fits(&escaped));
    assert!(!is_usable(&escaped));
}

#[test]
fn very_long_host_gives_no_handle() {
    let url = format!("ws://{}\u{4e16}", "a".repeat(216_239));
    assert!(!fits(&url));
    assert!(!is_usable(&url));
    assert_eq!(ws_open_plan(&url), None);
    assert!(ws_open_rust(url.clone(), true).is_none());

    let mapped = format!("ws://\u{10fffd}{}", "\u{fdfa}".repeat(215));
    assert!(!is_usable(&mapped));
    assert!(ws_open_rust(mapped, true).is_none());
}

#[test]
fn revive_of_handle_with_heavy_authority_reports_false() {
    let url = format!("ws://{}\u{4e16}", "a".repeat(216_239));
    let mut socket = open_with(url.clone(), true, false).unwrap();
    assert_eq!(ws_revive_plan(&socket), None);
    assert!(!ws_revive_rust(&mut socket, true));
    assert_eq!(socket.client(), WsClient::Disconnected);
    assert_eq!(socket.url(), url);
}

#[test]
fn revive_of_handle_with_long_path_connects() {
    let url = format!("ws://example/{}", "a".repeat(10_000));
    let mut socket = ws_open_rust(url, false).unwrap();
    assert_eq!(ws_revive_plan(&socket), Some(Scheme::Ws));
    assert!(ws_revive_rust(&mut socket, true));
    assert_eq!(socket.client(), WsClient::Insecure);
}

#[test]
fn attempt_is_established_only_with_a_non_blocking_client() {
    assert!(attempt_established(true, true));
    assert!(!attempt_established(true, false));
    assert!(!attempt_established(false, true));
    assert!(!attempt_established(false, false));
}
