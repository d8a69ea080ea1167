//! The files of a new project.

use vstd::prelude::*;
use vstd::string::StringExecFns;

verus! {

/// The project manifest up to the project's name.
pub const MANIFEST_HEAD: &'static str = r#"[package]
name = ""#;

/// The project manifest after the project's name.
pub const MANIFEST_TAIL: &'static str = r#""
version = "0.1.0"
edition = "2021"

[lib]
crate-type = ["cdylib"]

[[bin]]
name = "dev_server"
path = "src/bin/dev_server.rs"

[dependencies]
wasm-bindgen = "0.2"
web-sys = { version = "0.3", features = ["Document", "Element", "HtmlElement", "Node", "NodeList", "Window", "HtmlStyleElement", "HtmlHeadElement"] }
warp = "0.3"
tokio = { version = "1", features = ["full"] }
notify = "6.1"
futures-util = "0.3"
"#;

/// The view template of a new project.
pub const VIEW_TEMPLATE: &'static str = r#"<div class="card">
  <h1>{{title}}</h1>
  <p>Welcome, <strong>{{username}}</strong>!</p>
  <p>This is rendered via BahlilUI.</p>
</div>"#;

/// The style sheet of a new project.
pub const STYLE_SHEET: &'static str = r#"body {
  font-family: sans-serif;
  background: #222;
  color: #fff;
  display: flex;
  justify-content: center;
  margin-top: 50px;
}

.card {
  background: #333;
  padding: 2rem;
  border-radius: 10px;
  border: 1px solid #dea584;
  text-align: center;
}

h1 { color: #dea584; }"#;

/// The library source of a new project.
pub const LIBRARY_SOURCE: &'static str = r#"use wasm_bindgen::prelude::*;
use web_sys::window;

const HTML_TEMPLATE: &str = include_str!("../contents/view.bui");
const CSS_STYLES: &str = include_str!("../contents/style.css");

struct AppData {
    title: String,
    username: String,
}

fn render(template: &str, data: &AppData) -> String {
    let mut output = template.to_string();
    output = output.replace("{{title}}", &data.title);
    output = output.replace("{{username}}", &data.username);
    output
}

#[wasm_bindgen(start)]
pub fn run() -> Result<(), JsValue> {
    let document = window().expect("no window").document().expect("no document");
    let body = document.body().expect("no body");
    let head = document.head().expect("no head");

    // inject CSS
    let style = document.create_element("style")?;
    style.set_inner_html(CSS_STYLES);
    head.append_child(&style)?;

    // app data (state)
    let data = AppData {
        title: "BahlilUI".to_string(),
        username: "Developer".to_string(),
    };

    // render HTML
    let container = document.create_element("div")?;
    container.set_inner_html(&render(HTML_TEMPLATE, &data));
    body.append_child(&container)?;

    Ok(())
}"#;

/// The development server's source in a new project.
pub const DEV_SERVER_SOURCE: &'static str = r#"use std::collections::HashMap;
use std::convert::Infallible;
use std::fs;
use std::path::Path;
use std::sync::Arc;
use tokio::sync::RwLock;
use warp::ws::Message;
use warp::{Filter, Rejection, Reply};
use futures_util::StreamExt;
use uuid::Uuid;

type Clients = Arc<RwLock<HashMap<String, tokio::sync::mpsc::UnboundedSender<Message>>>>;

#[tokio::main]
async fn main() {
    let clients: Clients = Arc::new(RwLock::new(HashMap::new()));

    let static_files = warp::path("pkg").and(warp::fs::dir("./pkg"))
        .or(warp::path("contents").and(warp::fs::dir("./contents")))
        .or(warp::fs::file("./index.html"));

    let ws_route = warp::path("ws")
        .and(warp::ws())
        .and(with_clients(clients.clone()))
        .and_then(ws_handler);

    let routes = static_files.or(ws_route);

    println!("🚀 Starting dev server at http://127.0.0.1:8080");
    println!("♻️ Watching for changes...");

    // Start file watcher
    let watcher_clients = clients.clone();
    tokio::spawn(async move {
        watch_files(watcher_clients).await;
    });

    warp::serve(routes).run(([127, 0, 0, 1], 8080)).await;
}

fn with_clients(clients: Clients) -> impl Filter<Extract = (Clients,), Error = Infallible> + Clone {
    warp::any().map(move || clients.clone())
}

async fn ws_handler(ws: warp::ws::Ws, clients: Clients) -> Result<impl Reply, Rejection> {
    Ok(ws.on_upgrade(move |socket| handle_socket(socket, clients)))
}

async fn handle_socket(socket: warp::ws::WebSocket, clients: Clients) {
    let (tx, mut rx) = socket.split();
    let (client_tx, client_rx) = tokio::sync::mpsc::unbounded_channel();

    let client_id = Uuid::new_v4().to_string();
    clients.write().await.insert(client_id.clone(), client_tx);

    tokio::spawn(async move {
        tokio::io::copy(client_rx, tx).await.unwrap();
    });

    while let Some(_) = rx.next().await {
        // Handle incoming messages if needed
    }

    clients.write().await.remove(&client_id);
}

async fn watch_files(clients: Clients) {
    use notify::{Config, RecommendedWatcher, RecursiveMode, Watcher};

    let (tx, rx) = std::sync::mpsc::channel();

    let mut watcher = RecommendedWatcher::new(tx, Config::default()).unwrap();
    watcher.watch(Path::new("src"), RecursiveMode::Recursive).unwrap();
    watcher.watch(Path::new("contents"), RecursiveMode::Recursive).unwrap();

    for res in rx {
        match res {
            Ok(_) => {
                println!("♻️ Change detected. Rebuilding...");
                rebuild().await;
                broadcast_reload(&clients).await;
            }
            Err(e) => println!("Watch error: {:?}", e),
        }
    }
}

async fn rebuild() {
    let output = std::process::Command::new("wasm-pack")
        .args(&["build", "--target", "web"])
        .output()
        .expect("Failed to run wasm-pack");

    if output.status.success() {
        println!("✅ Build successful");
    } else {
        println!("❌ Build failed");
        println!("{}", String::from_utf8_lossy(&output.stderr));
    }
}

async fn broadcast_reload(clients: &Clients) {
    let clients = clients.read().await;
    for (_, sender) in clients.iter() {
        let _ = sender.send(Message::text("reload"));
    }
}"#;

/// The entry page up to the project's name in its title.
pub const PAGE_HEAD: &'static str = r#"<!DOCTYPE html>
<html lang="en">
  <head>
    <meta charset="UTF-8" />
    <meta name="viewport" content="width=device-width, initial-scale=1.0" />
    <title>"#;

/// The entry page between the title and the name of the bundle.
pub const PAGE_MIDDLE: &'static str = r#" - BahlilUI App</title>
  </head>
  <body>
    <script type="module">
      import init from "./pkg/"#;

/// The entry page after the name of the bundle.
pub const PAGE_TAIL: &'static str = r#".js";
      init();

      const socket = new WebSocket("ws://" + window.location.host + "/ws");
      socket.onmessage = (event) => {
        if (event.data === "reload") {
          console.log("♻️ Change detected. Reloading...");
          window.location.reload();
        }
      };
    </script>
  </body>
</html>"#;

/// The directories of a new project, relative to its root, which is the
/// first of them.
pub open spec fn directory_paths() -> Seq<Seq<char>> {
    seq![""@, "contents"@, "src/bin"@]
}

/// The text of the manifest of the project `name`.
pub open spec fn manifest_text(name: Seq<char>) -> Seq<char> {
    MANIFEST_HEAD@ + name + MANIFEST_TAIL@
}

/// The text of the entry page of the project `name`: the name stands in
/// the title and names the bundle that the page loads.
pub open spec fn page_text(name: Seq<char>) -> Seq<char> {
    PAGE_HEAD@ + name + PAGE_MIDDLE@ + name + PAGE_TAIL@
}

/// The files of the project `name`, each with its path relative to the
/// project's root, in the order in which they are written.
pub open spec fn file_texts(name: Seq<char>) -> Seq<(Seq<char>, Seq<char>)> {
    seq![
        ("Cargo.toml"@, manifest_text(name)),
        ("contents/view.bui"@, VIEW_TEMPLATE@),
        ("contents/style.css"@, STYLE_SHEET@),
        ("src/lib.rs"@, LIBRARY_SOURCE@),
        ("src/bin/dev_server.rs"@, DEV_SERVER_SOURCE@),
        ("index.html"@, page_text(name)),
    ]
}

/// One file of a new project.
#[derive(Debug, Clone, PartialEq, Eq)]
pub struct ProjectFile {
    /// The path, relative to the project's root.
    pub path: &'static str,
    /// What the file holds.
    pub contents: String,
}

/// The directories to create for a new project, parents first.
pub fn project_directories() -> (directories: Vec<&'static str>)
    ensures
        directories@.len() == directory_paths().len(),
        directories@.map_values(|d: &'static str| d@) == directory_paths(),
{
    let directories: Vec<&'static str> = vec!["", "contents", "src/bin"];
    assert(directories@.map_values(|d: &'static str| d@) =~= directory_paths());
    directories
}

/// The manifest of the project `name`.
pub fn manifest(name: &str) -> (text: String)
    ensures
        text@ == manifest_text(name@),
{
    let mut text = String::from_str(MANIFEST_HEAD);
    text.append(name);
    text.append(MANIFEST_TAIL);
    text
}

/// The entry page of the project `name`.
pub fn entry_page(name: &str) -> (text: String)
    ensures
        text@ == page_text(name@),
{
    let mut text = String::from_str(PAGE_HEAD);
    text.append(name);
    text.append(PAGE_MIDDLE);
    text.append(name);
    text.append(PAGE_TAIL);
    text
}

/// The files to write for the project `name`.
pub fn project_files(name: &str) -> (files: Vec<ProjectFile>)
    ensures
        files@.len() == file_texts(name@).len(),
        files@.map_values(|f: ProjectFile| (f.path@, f.contents@)) == file_texts(name@),
{
    let files: Vec<ProjectFile> = vec![
        ProjectFile { path: "Cargo.toml", contents: manifest(name) },
        ProjectFile { path: "contents/view.bui", contents: String::from_str(VIEW_TEMPLATE) },
        ProjectFile { path: "contents/style.css", contents: String::from_str(STYLE_SHEET) },
        ProjectFile { path: "src/lib.rs", contents: String::from_str(LIBRARY_SOURCE) },
        ProjectFile { path: "src/bin/dev_server.rs", contents: String::from_str(DEV_SERVER_SOURCE) },
        ProjectFile { path: "index.html", contents: entry_page(name) },
    ];
    assert(files@.map_values(|f: ProjectFile| (f.path@, f.contents@)) =~= file_texts(name@));
    files
}

} // verus!
