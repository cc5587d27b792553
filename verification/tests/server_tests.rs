use clash_verge::server::{
    check_singleton, decimal_text, pac_port, render_pac, replace_all, shutdown_embed_server,
    SingletonPlan,
};

fn args(v: &[&str]) -> Vec<String> {
    v.iter().map(|s| s.to_string()).collect()
}

#[test]
fn decimal() {
    assert_eq!(decimal_text(0), "0");
    assert_eq!(decimal_text(7), "7");
    assert_eq!(decimal_text(33331), "33331");
    assert_eq!(decimal_text(u64::MAX), u64::MAX.to_string());
}

#[test]
fn replace_matches_std() {
    for (s, from, to) in [
        ("a%x%b%x%", "%x%", "12"),
        ("aaaa", "aa", "b"),
        ("", "x", "y"),
        ("xyz", "xyzw", "q"),
        ("ééé", "é", "e"),
    ] {
        assert_eq!(replace_all(s, from, to), s.replace(from, to));
    }
}

#[test]
fn pac_port_choice() {
    assert_eq!(pac_port(Some(7890), 7897), 7890);
    assert_eq!(pac_port(None, 7897), 7897);
}

#[test]
fn pac_rendering() {
    let pac = "function FindProxyForURL(url, host) { return \"PROXY 127.0.0.1:%mixed-port%; SOCKS5 127.0.0.1:%mixed-port%; DIRECT;\"; }";
    assert_eq!(
        render_pac(pac, 7897),
        "function FindProxyForURL(url, host) { return \"PROXY 127.0.0.1:7897; SOCKS5 127.0.0.1:7897; DIRECT;\"; }"
    );
}

#[test]
fn singleton_free_port() {
    assert_eq!(check_singleton(33331, true, &args(&["app", "clash://x"]), false), SingletonPlan::Proceed);
}

#[test]
fn singleton_shows_running_instance() {
    assert_eq!(
        check_singleton(33331, false, &args(&["app"]), false),
        SingletonPlan::ShowRunning { request: "http://127.0.0.1:33331/commands/visible".to_string() }
    );
}

#[test]
fn singleton_forwards_link() {
    assert_eq!(
        check_singleton(33331, false, &args(&["app", "clash://?enable_system_proxy=true"]), false),
        SingletonPlan::ForwardLink {
            request: "http://127.0.0.1:33331/commands/scheme?param=clash://?enable_system_proxy=true"
                .to_string()
        }
    );
}

#[test]
fn singleton_quits_quietly() {
    assert_eq!(check_singleton(33331, false, &args(&["app", "--flag"]), false), SingletonPlan::Quit);
    assert_eq!(check_singleton(33331, false, &args(&["app", "clash://x"]), true), SingletonPlan::Quit);
}

#[test]
fn shutdown_wakes_waiting_server() {
    let rt = tokio::runtime::Builder::new_current_thread().enable_all().build().unwrap();
    rt.block_on(async {
        let signal = std::sync::Arc::new(tokio::sync::Notify::new());
        let waiter = signal.clone();
        let task = tokio::spawn(async move {
            waiter.notified().await;
            true
        });
        tokio::task::yield_now().await;
        shutdown_embed_server(&signal);
        assert!(task.await.unwrap());
    });
}
