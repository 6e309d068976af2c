use devutils::live_reload::{get_script_snippet, inject_script, ChangeType, FileChange, LiveReloadConfig, LiveReloadServer};

#[test]
fn test_inject_script() {
    let html = "<html><head></head><body></body></html>";
    let result = inject_script(html, 35729);
    assert!(result.contains("/livereload.js"));
}

#[test]
fn test_script_snippet() {
    let snippet = get_script_snippet(35729);
    assert!(snippet.contains("35729"));
    assert!(snippet.contains("livereload.js"));
}

#[test]
fn test_live_reload_server_creation() {
    let config = LiveReloadConfig::default();
    let server = LiveReloadServer::new(config);
    assert_eq!(server.config.port, 35729);
}

#[test]
fn inject_script_exact_placements() {
    assert_eq!(
        inject_script("<head></head>", 80),
        "<head>\n<script src=\"http://localhost:80/livereload.js\"></script></head>"
    );
    assert_eq!(
        inject_script("<body>x</body>", 1),
        "<body>\n<script src=\"http://localhost:1/livereload.js\"></script>x</body>"
    );
    assert_eq!(
        inject_script("plain", 9),
        "<script src=\"http://localhost:9/livereload.js\"></script>\nplain"
    );
}

#[test]
fn inject_script_twice_is_once() {
    let once = inject_script("<html><head></head></html>", 35729);
    assert_eq!(inject_script(&once, 35729), once);
}

#[test]
fn inject_script_every_head_gets_it() {
    let r = inject_script("<head><head>", 2);
    assert_eq!(r.matches("livereload.js").count(), 2);
}

#[test]
fn server_stop_and_defaults() {
    let mut server = LiveReloadServer::new(LiveReloadConfig::default());
    server.stop();
    assert!(!server.running);
    assert_eq!(server.config.extensions.len(), 10);
    assert_eq!(server.config.poll_interval_ms, 500);
}

#[test]
fn server_replies_by_request() {
    let server = devutils::live_reload::LiveReloadServer::new(devutils::live_reload::LiveReloadConfig::default());
    let port = server.config.port;
    let js = server.generate_livereload_script();
    assert!(js.starts_with(&format!("\n(function() {{\n    var port = {};", port)));
    assert!(js.contains(&format!("new EventSource('http://localhost:{}/events')", port)));
    assert!(js.ends_with("})();\n"));
    let ws = server.reply_to("GET / HTTP/1.1\r\nUpgrade: websocket\r\n\r\n");
    assert!(ws.starts_with("HTTP/1.1 101 Switching Protocols\r\n"));
    let script = server.reply_to("GET /livereload.js HTTP/1.1\r\n\r\n");
    assert_eq!(
        script,
        format!("HTTP/1.1 200 OK\r\nContent-Type: application/javascript\r\nContent-Length: {}\r\n\r\n{}", js.len(), js)
    );
    let page = server.reply_to("GET / HTTP/1.1\r\n\r\n");
    assert!(page.contains(&format!("http://localhost:{}/livereload.js&quot;", port)));
    assert!(page.starts_with("HTTP/1.1 200 OK\nContent-Type: text/html\nConnection: close\n\n<html>"));
}

#[test]
fn the_callback_hears_of_each_change() {
    let seen = std::sync::Arc::new(std::sync::Mutex::new(Vec::<String>::new()));
    let sink = seen.clone();
    let server = LiveReloadServer::new(LiveReloadConfig::default())
        .with_callback(move |c: &FileChange| sink.lock().unwrap().push(c.path.clone()));
    assert!(server.change_callback.is_some());
    assert!(!server.running);
    let change = FileChange { path: "index.html".to_string(), change_type: ChangeType::Modified, timestamp: 7 };
    server.notify_change(&change);
    server.notify_change(&change);
    assert_eq!(*seen.lock().unwrap(), vec!["index.html".to_string(), "index.html".to_string()]);
}
