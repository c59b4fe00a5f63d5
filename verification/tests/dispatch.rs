use smn_web_hub::http::HttpRequest;
use smn_web_hub::plugin::Plugin;
use smn_web_hub::plugin_echo::EchoPlugin;
use smn_web_hub::plugin_manager::PluginManager;
use smn_web_hub::server::handle_request;

fn post(path: &str, body: &[u8]) -> HttpRequest {
    HttpRequest {
        method: "POST".to_string(),
        path: path.to_string(),
        headers: Vec::new(),
        body: body.to_vec(),
    }
}

fn echo_manager(count: usize) -> PluginManager<EchoPlugin> {
    let mut manager = PluginManager::new();
    for _ in 0..count {
        manager.apply_plugin(EchoPlugin::new());
    }
    manager.init_plugins();
    manager
}

#[test]
fn first_match_wins_with_two_matching_plugins() {
    // Two plugins whose predicates both accept the request: the first one
    // registered produces the response.
    let manager = echo_manager(2);
    let resp = manager.handle_request(post("/echo", b"hi")).unwrap();
    assert_eq!(resp.status, 200);
    assert_eq!(resp.body, b"Echo: hi".to_vec());
}

#[test]
fn no_match_falls_back() {
    let manager = echo_manager(1);
    let resp = handle_request(&manager, post("/missing", b"hi"));
    assert_eq!(resp.status, 200);
    assert_eq!(resp.body, b"No Plugin Found".to_vec());
}

#[test]
fn echo_round_trip() {
    let manager = echo_manager(1);
    let resp = handle_request(&manager, post("/echo", b"hello"));
    assert_eq!(resp.status, 200);
    assert_eq!(resp.body, b"Echo: hello".to_vec());
}

#[test]
fn path_exclusivity() {
    let manager = echo_manager(1);
    let resp = handle_request(&manager, post("/echoX", b"hello"));
    assert_eq!(resp.body, b"No Plugin Found".to_vec());
    let resp = handle_request(&manager, post("/echo/", b"hello"));
    assert_eq!(resp.body, b"No Plugin Found".to_vec());
    let resp = handle_request(&manager, post("/", b"hello"));
    assert_eq!(resp.body, b"No Plugin Found".to_vec());
}

#[test]
fn initialization_counter_reaches_plugin_count() {
    let mut manager = PluginManager::new();
    for _ in 0..3 {
        manager.apply_plugin(EchoPlugin::new());
    }
    assert_eq!(manager.plugin_count(), 3);
    assert_eq!(manager.initialized_count(), 0);
    manager.init_plugins();
    assert_eq!(manager.initialized_count(), 3);
    assert_eq!(manager.initialized_count(), manager.plugin_count());
}

#[test]
fn distinct_bodies_get_their_own_echo() {
    let manager = echo_manager(1);
    let bodies: Vec<&[u8]> = vec![b"first", b"second", b"third"];
    for body in bodies {
        let resp = handle_request(&manager, post("/echo", body));
        let mut expected = b"Echo: ".to_vec();
        expected.extend_from_slice(body);
        assert_eq!(resp.body, expected);
    }
}

#[test]
fn repeated_request_yields_identical_responses() {
    let manager = echo_manager(1);
    let first = handle_request(&manager, post("/echo", b"again"));
    let second = handle_request(&manager, post("/echo", b"again"));
    assert_eq!(first.status, second.status);
    assert_eq!(first.body, second.body);
}

#[test]
fn empty_body_echoes_prefix_only() {
    let manager = echo_manager(1);
    let resp = handle_request(&manager, post("/echo", b""));
    assert_eq!(resp.body, b"Echo: ".to_vec());
}

#[test]
fn empty_registry_falls_back() {
    let mut manager: PluginManager<EchoPlugin> = PluginManager::new();
    manager.init_plugins();
    let resp = handle_request(&manager, post("/echo", b"hello"));
    assert_eq!(resp.body, b"No Plugin Found".to_vec());
    assert_eq!(resp.status, 200);
}

#[test]
fn invalid_utf8_body_is_echoed_lossily() {
    let manager = echo_manager(1);
    let resp = handle_request(&manager, post("/echo", &[0xff, 0x68]));
    let expected = format!("Echo: \u{fffd}h").into_bytes();
    assert_eq!(resp.body, expected);
}

#[test]
fn manager_returns_none_when_nothing_matches() {
    let manager = echo_manager(1);
    assert!(manager.handle_request(post("/nothing", b"x")).is_none());
}

#[test]
fn plugin_lifecycle() {
    let mut plugin = EchoPlugin::new();
    assert!(!plugin.plugin_is_ready());
    plugin.plugin_init();
    assert!(plugin.plugin_is_ready());
    assert_eq!(plugin.plugin_name(), "EchoPlugin");
}

#[test]
fn echo_predicate_matches_only_its_path() {
    let plugin = EchoPlugin::new();
    assert!(plugin.plugin_can_handle(&post("/echo", b"")));
    assert!(!plugin.plugin_can_handle(&post("/echoX", b"")));
    assert!(!plugin.plugin_can_handle(&post("/ECHO", b"")));
    assert!(!plugin.plugin_can_handle(&post("", b"")));
}

#[test]
fn echo_handle_direct() {
    let plugin = EchoPlugin::new();
    let resp = plugin.plugin_handle(post("/echo", b"direct")).unwrap();
    assert_eq!(resp.status, 200);
    assert_eq!(resp.body, b"Echo: direct".to_vec());
}
