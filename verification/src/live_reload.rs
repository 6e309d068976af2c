//! Live reload: the watch configuration, the tracked-file bookkeeping, the
//! injection of the reload script into served HTML, and the replies of the
//! reload server.

use vstd::prelude::*;
use vstd::utf8::encode_utf8;
use crate::text::{
    cat, cat3, contains, dec, occurs_at, owned, push_str, replace, replace_all, str_contains,
    u64_to_string,
};

verus! {

/// Live reload configuration.
#[derive(Debug, Clone)]
pub struct LiveReloadConfig {
    pub port: u16,
    pub watch_dirs: Vec<String>,
    pub extensions: Vec<String>,
    pub poll_interval_ms: u64,
    pub inject_script: bool,
    pub open_browser: bool,
}

impl Default for LiveReloadConfig {
    fn default() -> (r: Self)
        ensures
            r.port == 35729,
            r.watch_dirs@.len() == 1 && r.watch_dirs@[0]@ == "."@,
            r.extensions@.len() == 10,
            r.extensions@[0]@ == ".html"@ && r.extensions@[1]@ == ".css"@
                && r.extensions@[2]@ == ".js"@ && r.extensions@[3]@ == ".ts"@
                && r.extensions@[4]@ == ".jsx"@ && r.extensions@[5]@ == ".tsx"@
                && r.extensions@[6]@ == ".json"@ && r.extensions@[7]@ == ".svg"@
                && r.extensions@[8]@ == ".png"@ && r.extensions@[9]@ == ".jpg"@,
            r.poll_interval_ms == 500,
            r.inject_script,
            !r.open_browser,
    {
        let mut watch_dirs: Vec<String> = Vec::new();
        watch_dirs.push(owned("."));
        let mut extensions: Vec<String> = Vec::new();
        extensions.push(owned(".html"));
        extensions.push(owned(".css"));
        extensions.push(owned(".js"));
        extensions.push(owned(".ts"));
        extensions.push(owned(".jsx"));
        extensions.push(owned(".tsx"));
        extensions.push(owned(".json"));
        extensions.push(owned(".svg"));
        extensions.push(owned(".png"));
        extensions.push(owned(".jpg"));
        LiveReloadConfig {
            port: 35729,
            watch_dirs,
            extensions,
            poll_interval_ms: 500,
            inject_script: true,
            open_browser: false,
        }
    }
}

/// File change event.
#[derive(Debug, Clone)]
pub struct FileChange {
    pub path: String,
    pub change_type: ChangeType,
    pub timestamp: u64,
}

/// What happened to a watched file.
#[derive(Debug, Clone, Copy, PartialEq, Eq, Structural)]
pub enum ChangeType {
    Created,
    Modified,
    Deleted,
}

/// The state of one watched file when it was last scanned.
#[derive(Debug, Clone)]
pub struct TrackedFile {
    pub path: String,
    pub last_modified: u64,
    pub content_hash: u64,
}

/// The callback of a server that has none.
pub struct NoCallback;

/// Live reload server state, with the callback `F` that hears of changes.
pub struct LiveReloadServer<F = NoCallback> {
    pub config: LiveReloadConfig,
    pub tracked_files: Vec<TrackedFile>,
    pub change_callback: Option<F>,
    pub running: bool,
}

impl LiveReloadServer {
    /// A server for `config`, tracking no file yet, not running, with no callback.
    pub fn new(config: LiveReloadConfig) -> (r: Self)
        ensures
            r.config == config,
            r.tracked_files@.len() == 0,
            !r.running,
            r.change_callback is None,
    {
        LiveReloadServer { config, tracked_files: Vec::new(), change_callback: None, running: false }
    }
}

impl<F> LiveReloadServer<F> {
    /// The same server with `callback` as the one that hears of each change.
    pub fn with_callback<G: Fn(&FileChange) + Send + Sync + 'static>(self, callback: G) -> (r: LiveReloadServer<G>)
        ensures
            r.config == self.config,
            r.tracked_files == self.tracked_files,
            r.running == self.running,
            r.change_callback == Some(callback),
    {
        LiveReloadServer {
            config: self.config,
            tracked_files: self.tracked_files,
            change_callback: Some(callback),
            running: self.running,
        }
    }

    /// Stops the server.
    pub fn stop(&mut self)
        ensures
            !final(self).running,
            final(self).config == old(self).config,
            final(self).tracked_files == old(self).tracked_files,
            final(self).change_callback == old(self).change_callback,
    {
        self.running = false;
    }
}

impl<F: Fn(&FileChange)> LiveReloadServer<F> {
    /// Tells the callback, when one is set, of `change`.
    pub fn notify_change(&self, change: &FileChange)
        requires
            self.change_callback matches Some(f) ==> call_requires(f, (change,)),
        ensures
            self.change_callback matches Some(f) ==> call_ensures(f, (change,), ()),
    {
        match &self.change_callback {
            Some(f) => f(change),
            None => {},
        }
    }
}

/// The script element that loads the reload client from `port`.
pub open spec fn script_tag(port: u16) -> Seq<char> {
    "<script src=\"http://localhost:"@ + dec(port as nat) + "/livereload.js\"></script>"@
}

/// The HTML with the reload script added: unchanged when it already loads the
/// client; otherwise the script follows every `<head>`, or else every
/// `<body>`, or else it is put on a line in front.
pub open spec fn injected(html: Seq<char>, port: u16) -> Seq<char> {
    if contains(html, "/livereload.js"@) {
        html
    } else if contains(html, "<head>"@) {
        replace_all(html, "<head>"@, "<head>\n"@ + script_tag(port))
    } else if contains(html, "<body>"@) {
        replace_all(html, "<body>"@, "<body>\n"@ + script_tag(port))
    } else {
        script_tag(port) + "\n"@ + html
    }
}

/// Generate JavaScript snippet to include in HTML head.
pub fn get_script_snippet(port: u16) -> (r: String)
    ensures
        r@ == script_tag(port),
{
    let p = u64_to_string(port as u64);
    cat3("<script src=\"http://localhost:", p.as_str(), "/livereload.js\"></script>")
}

/// Inject livereload script into HTML.
pub fn inject_script(html: &str, port: u16) -> (r: String)
    ensures
        r@ == injected(html@, port),
{
    let script = get_script_snippet(port);
    if str_contains(html, "/livereload.js") {
        owned(html)
    } else if str_contains(html, "<head>") {
        let with = cat("<head>\n", script.as_str());
        replace(html, "<head>", with.as_str())
    } else if str_contains(html, "<body>") {
        let with = cat("<body>\n", script.as_str());
        replace(html, "<body>", with.as_str())
    } else {
        let mut r = cat(script.as_str(), "\n");
        push_str(&mut r, html);
        r
    }
}

proof fn lemma_contains_shift(x: Seq<char>, s: Seq<char>, p: Seq<char>)
    requires
        contains(s, p),
    ensures
        contains(x + s, p),
        contains(s + x, p),
{
    let i = choose|i: int| occurs_at(s, p, i);
    assert((x + s).subrange(x.len() + i, x.len() + i + p.len()) =~= s.subrange(i, i + p.len()));
    assert(occurs_at(x + s, p, x.len() + i));
    assert((s + x).subrange(i, i + p.len()) =~= s.subrange(i, i + p.len()));
    assert(occurs_at(s + x, p, i));
}

proof fn lemma_contains_trans(a: Seq<char>, b: Seq<char>, c: Seq<char>)
    requires
        contains(a, b),
        contains(b, c),
    ensures
        contains(a, c),
{
    let i = choose|i: int| occurs_at(a, b, i);
    let j = choose|j: int| occurs_at(b, c, j);
    assert(a.subrange(i + j, i + j + c.len()) =~= b.subrange(j, j + c.len()));
    assert(occurs_at(a, c, i + j));
}

proof fn lemma_replace_keeps_to(s: Seq<char>, from: Seq<char>, to: Seq<char>)
    requires
        from.len() > 0,
        contains(s, from),
    ensures
        contains(replace_all(s, from, to), to),
    decreases s.len(),
{
    let i = choose|i: int| occurs_at(s, from, i);
    if s.subrange(0, from.len() as int) == from {
        let rest = replace_all(s.subrange(from.len() as int, s.len() as int), from, to);
        assert(to.subrange(0, to.len() as int) =~= to);
        assert(contains(to, to)) by {
            assert((to + rest).subrange(0, to.len() as int) =~= to);
            assert(occurs_at(to, to, 0));
        }
        lemma_contains_shift(rest, to, to);
    } else {
        assert(i != 0);
        assert(s.drop_first().subrange(i - 1, i - 1 + from.len()) =~= s.subrange(i, i + from.len()));
        assert(occurs_at(s.drop_first(), from, i - 1));
        lemma_replace_keeps_to(s.drop_first(), from, to);
        lemma_contains_shift(seq![s[0]], replace_all(s.drop_first(), from, to), to);
    }
}

proof fn lemma_script_loads_client(port: u16)
    ensures
        contains(script_tag(port), "/livereload.js"@),
{
    let head = "<script src=\"http://localhost:"@ + dec(port as nat);
    let tail = "/livereload.js\"></script>"@;
    reveal_strlit("/livereload.js\"></script>");
    reveal_strlit("/livereload.js");
    assert(tail.subrange(0, 14) =~= "/livereload.js"@);
    assert(occurs_at(tail, "/livereload.js"@, 0));
    lemma_contains_shift(head, tail, "/livereload.js"@);
    assert(script_tag(port) =~= head + tail);
}

/// Injecting twice changes nothing more: the injected HTML always loads the
/// reload client, so a second injection leaves it as it is.
pub proof fn lemma_inject_idempotent(html: Seq<char>, port: u16)
    ensures
        contains(injected(html, port), "/livereload.js"@),
        injected(injected(html, port), port) == injected(html, port),
{
    lemma_script_loads_client(port);
    let lr = "/livereload.js"@;
    if contains(html, lr) {
    } else if contains(html, "<head>"@) {
        reveal_strlit("<head>");
        let to = "<head>\n"@ + script_tag(port);
        lemma_replace_keeps_to(html, "<head>"@, to);
        lemma_contains_shift("<head>\n"@, script_tag(port), lr);
        lemma_contains_trans(replace_all(html, "<head>"@, to), to, lr);
    } else if contains(html, "<body>"@) {
        reveal_strlit("<body>");
        let to = "<body>\n"@ + script_tag(port);
        lemma_replace_keeps_to(html, "<body>"@, to);
        lemma_contains_shift("<body>\n"@, script_tag(port), lr);
        lemma_contains_trans(replace_all(html, "<body>"@, to), to, lr);
    } else {
        lemma_contains_shift(seq![], script_tag(port), lr);
        assert(script_tag(port) + "\n"@ + html =~= script_tag(port) + ("\n"@ + html));
        lemma_contains_shift("\n"@ + html, script_tag(port), lr);
    }
}

} // verus!

verus! {

/// The reload client script for a server on `port`: it connects over a web
/// socket, reloads the page (or only its style sheets) when told to, and
/// reconnects with a doubling delay.
pub open spec fn livereload_script(port: u16) -> Seq<char> {
    "\n(function() {\n    var port = "@ + dec(port as nat) + ";\n    var lastHash = '';\n    var reconnectTimeout = 1000;\n    \n    function init() {\n        connect();\n    }\n    \n    function connect() {\n        var ws = new WebSocket('ws://localhost:' + port);\n        \n        ws.onopen = function() {\n            console.log('[LiveReload] Connected');\n            reconnectTimeout = 1000;\n        };\n        \n        ws.onmessage = function(event) {\n            var data = JSON.parse(event.data);\n            \n            if (data.type === 'reload') {\n                console.log('[LiveReload] Page changed, reloading...');\n                window.location.reload();\n            } else if (data.type === 'css') {\n                // CSS reload without page refresh\n                var links = document.querySelectorAll('link[rel=\"stylesheet\"]');\n                for (var i = 0; i < links.length; i++) {\n                    var link = links[i];\n                    link.href = link.href.replace(/\\?.*$/, '') + '?' + Date.now();\n                }\n                console.log('[LiveReload] CSS reloaded');\n            }\n        };\n        \n        ws.onclose = function() {\n            console.log('[LiveReload] Disconnected, reconnecting...');\n            setTimeout(connect, reconnectTimeout);\n            reconnectTimeout = Math.min(reconnectTimeout * 2, 30000);\n        };\n        \n        ws.onerror = function(err) {\n            console.log('[LiveReload] Error:', err);\n        };\n    }\n    \n    // Auto-connect when script loads\n    if (document.readyState === 'loading') {\n        document.addEventListener('DOMContentLoaded', init);\n    } else {\n        init();\n    }\n    \n    // Also watch for file changes via EventSource (for SSE)\n    /*\n    var es = new EventSource('http://localhost:"@ + dec(port as nat) + "/events');\n    es.onmessage = function(event) {\n        var data = JSON.parse(event.data);\n        if (data.type === 'reload') {\n            window.location.reload();\n        }\n    };\n    */\n})();\n"@
}

/// The handshake answer to a web socket upgrade.
pub open spec fn websocket_reply_text() -> Seq<char> {
    "HTTP/1.1 101 Switching Protocols\r\nConnection: Upgrade\r\nUpgrade: websocket\r\nSec-WebSocket-Accept: test\r\n\r\n"@
}

/// The reply that serves the client script.
pub open spec fn script_reply_text(port: u16) -> Seq<char> {
    "HTTP/1.1 200 OK\r\nContent-Type: application/javascript\r\nContent-Length: "@
        + dec(encode_utf8(livereload_script(port)).len()) + "\r\n\r\n"@ + livereload_script(port)
}

/// The page served for any other request: how to include the client.
pub open spec fn default_reply_text(port: u16) -> Seq<char> {
    "HTTP/1.1 200 OK\nContent-Type: text/html\nConnection: close\n\n<html><body><h1>DevUtils LiveReload</h1>\n<p>Include the livereload.js script in your HTML to enable auto-refresh:</p>\n<pre>&lt;script src=&quot;http://localhost:"@ + dec(port as nat) + "/livereload.js&quot;&gt;&lt;/script&gt;\n</body></html>"@
}

/// The reply to an HTTP request: the handshake for a web socket upgrade, the
/// script for `GET /livereload.js`, or else the default page.
pub open spec fn reply_text(request: Seq<char>, port: u16) -> Seq<char> {
    if contains(request, "Upgrade: websocket"@) {
        websocket_reply_text()
    } else if contains(request, "GET /livereload.js"@) {
        script_reply_text(port)
    } else {
        default_reply_text(port)
    }
}

impl<F> LiveReloadServer<F> {
    /// The reload client script for this server's port.
    pub fn generate_livereload_script(&self) -> (r: String)
        ensures
            r@ == livereload_script(self.config.port),
    {
        let p = u64_to_string(self.config.port as u64);
        let mut r = cat3("\n(function() {\n    var port = ", p.as_str(), ";\n    var lastHash = '';\n    var reconnectTimeout = 1000;\n    \n    function init() {\n        connect();\n    }\n    \n    function connect() {\n        var ws = new WebSocket('ws://localhost:' + port);\n        \n        ws.onopen = function() {\n            console.log('[LiveReload] Connected');\n            reconnectTimeout = 1000;\n        };\n        \n        ws.onmessage = function(event) {\n            var data = JSON.parse(event.data);\n            \n            if (data.type === 'reload') {\n                console.log('[LiveReload] Page changed, reloading...');\n                window.location.reload();\n            } else if (data.type === 'css') {\n                // CSS reload without page refresh\n                var links = document.querySelectorAll('link[rel=\"stylesheet\"]');\n                for (var i = 0; i < links.length; i++) {\n                    var link = links[i];\n                    link.href = link.href.replace(/\\?.*$/, '') + '?' + Date.now();\n                }\n                console.log('[LiveReload] CSS reloaded');\n            }\n        };\n        \n        ws.onclose = function() {\n            console.log('[LiveReload] Disconnected, reconnecting...');\n            setTimeout(connect, reconnectTimeout);\n            reconnectTimeout = Math.min(reconnectTimeout * 2, 30000);\n        };\n        \n        ws.onerror = function(err) {\n            console.log('[LiveReload] Error:', err);\n        };\n    }\n    \n    // Auto-connect when script loads\n    if (document.readyState === 'loading') {\n        document.addEventListener('DOMContentLoaded', init);\n    } else {\n        init();\n    }\n    \n    // Also watch for file changes via EventSource (for SSE)\n    /*\n    var es = new EventSource('http://localhost:");
        push_str(&mut r, p.as_str());
        push_str(&mut r, "/events');\n    es.onmessage = function(event) {\n        var data = JSON.parse(event.data);\n        if (data.type === 'reload') {\n            window.location.reload();\n        }\n    };\n    */\n})();\n");
        r
    }

    /// The reply that serves the client script, its length counted in bytes.
    pub fn script_reply(&self) -> (r: String)
        ensures
            r@ == script_reply_text(self.config.port),
    {
        let js = self.generate_livereload_script();
        let n = js.as_str().as_bytes().len();
        let digits = u64_to_string(n as u64);
        let mut r = cat3("HTTP/1.1 200 OK\r\nContent-Type: application/javascript\r\nContent-Length: ", digits.as_str(), "\r\n\r\n");
        push_str(&mut r, js.as_str());
        r
    }

    /// The page served for any other request.
    pub fn default_reply(&self) -> (r: String)
        ensures
            r@ == default_reply_text(self.config.port),
    {
        let p = u64_to_string(self.config.port as u64);
        cat3("HTTP/1.1 200 OK\nContent-Type: text/html\nConnection: close\n\n<html><body><h1>DevUtils LiveReload</h1>\n<p>Include the livereload.js script in your HTML to enable auto-refresh:</p>\n<pre>&lt;script src=&quot;http://localhost:", p.as_str(), "/livereload.js&quot;&gt;&lt;/script&gt;\n</body></html>")
    }

    /// The reply to an HTTP request.
    pub fn reply_to(&self, request: &str) -> (r: String)
        ensures
            r@ == reply_text(request@, self.config.port),
    {
        if str_contains(request, "Upgrade: websocket") {
            owned("HTTP/1.1 101 Switching Protocols\r\nConnection: Upgrade\r\nUpgrade: websocket\r\nSec-WebSocket-Accept: test\r\n\r\n")
        } else if str_contains(request, "GET /livereload.js") {
            self.script_reply()
        } else {
            self.default_reply()
        }
    }
}

} // verus!
