//! The documentation page: its texts, how they fill the page's template,
//! and where a navigation link leads.

use crate::boundary::{replace_all, replaced};
use vstd::prelude::*;
use vstd::string::{StrSliceExecFns, StringExecFns};

verus! {

/// The headline of the page.
pub const HERO_TITLE: &'static str = "The \"No-Nonsense\" Rust → WebAssembly UI Framework";

/// The paragraph under the headline.
pub const HERO_DESCRIPTION: &'static str = "Write UI logic in Rust, keep styling in CSS, and author templates in .bui (HTML with placeholders). Compile everything into a single .wasm bundle.";

/// The opening of the section on features.
pub const FEATURES_INTRO: &'static str = "BahlilUI is a tiny, compile-time friendly UI approach that keeps things simple and fast.";

/// The opening of the section on the layout of a project.
pub const PROJECT_STRUCTURE_INTRO: &'static str = "A typical BahlilUI project looks like this:";

/// The layout of a project, drawn as a tree.
pub const PROJECT_STRUCTURE: &'static str = r#".
├── contents/
│   ├── view.bui
│   └── style.css
├── src/
│   ├── lib.rs
│   └── bin/
│       └── dev_server.rs
├── index.html
└── Cargo.toml"#;

/// An example of a view template.
pub const VIEW_BUI_EXAMPLE: &'static str = r#"<div class="card">
  <h1>{{title}}</h1>
  <p>Welcome, <strong>{{username}}</strong>!</p>
  <p>This is rendered via BahlilUI.</p>
</div>"#;

/// An example of a style sheet.
pub const STYLE_CSS_EXAMPLE: &'static str = r#"body {
  font-family: sans-serif;
  background: #222;
  color: #fff;
  display: flex;
  justify-content: center;
  margin-top: 50px;
}

.card {
  background: #333;
  padding: 2rem;
  border-radius: 10px;
  border: 1px solid #dea584;
  text-align: center;
}

h1 { color: #dea584; }"#;

/// An example of a library source.
pub const LIB_RS_EXAMPLE: &'static str = r#"use wasm_bindgen::prelude::*;
use web_sys::window;

const HTML_TEMPLATE: &str = include_str!("../contents/view.bui");
const CSS_STYLES: &str = include_str!("../contents/style.css");

struct AppData {
    title: String,
    username: String,
}

fn render(template: &str, data: &AppData) -> String {
    let mut output = template.to_string();
    output = output.replace("{{title}}", &data.title);
    output = output.replace("{{username}}", &data.username);
    output
}

#[wasm_bindgen(start)]
pub fn run() -> Result<(), JsValue> {
    let document = window().expect("no window").document().expect("no document");
    let body = document.body().expect("no body");
    let head = document.head().expect("no head");

    // inject CSS
    let style = document.create_element("style")?;
    style.set_inner_html(CSS_STYLES);
    head.append_child(&style)?;

    // app data (state)
    let data = AppData {
        title: "BahlilUI".to_string(),
        username: "Developer".to_string(),
    };

    // render HTML
    let container = document.create_element("div")?;
    container.set_inner_html(&render(HTML_TEMPLATE, &data));
    body.append_child(&container)?;

    Ok(())
}"#;

/// An example of a template with placeholders.
pub const TEMPLATE_EXAMPLE: &'static str = r#"<h1>{{title}}</h1>
<p>Hello, {{username}}!</p>"#;

/// What happens to the placeholders.
pub const TEMPLATE_DESCRIPTION: &'static str = "At runtime, placeholders are replaced by strings from your Rust state.";

/// The opening of the section on plans.
pub const ROADMAP_INTRO: &'static str = "Ideas for evolving BahlilUI into a real framework:";

/// The line at the foot of the page.
pub const FOOTER_TEXT: &'static str = "Built with ❤️ in Rust + WebAssembly.";

/// The texts of the documentation page, one for each placeholder of its
/// template.
#[derive(Debug, Clone, PartialEq, Eq)]
pub struct DocsApp {
    pub hero_title: String,
    pub hero_description: String,
    pub features_intro: String,
    pub project_structure_intro: String,
    pub project_structure: String,
    pub view_bui_example: String,
    pub style_css_example: String,
    pub lib_rs_example: String,
    pub template_example: String,
    pub template_description: String,
    pub roadmap_intro: String,
    pub footer_text: String,
}

impl DocsApp {
    /// The texts of the page.
    pub fn new() -> (app: DocsApp)
        ensures
            app.hero_title@ == HERO_TITLE@,
            app.hero_description@ == HERO_DESCRIPTION@,
            app.features_intro@ == FEATURES_INTRO@,
            app.project_structure_intro@ == PROJECT_STRUCTURE_INTRO@,
            app.project_structure@ == PROJECT_STRUCTURE@,
            app.view_bui_example@ == VIEW_BUI_EXAMPLE@,
            app.style_css_example@ == STYLE_CSS_EXAMPLE@,
            app.lib_rs_example@ == LIB_RS_EXAMPLE@,
            app.template_example@ == TEMPLATE_EXAMPLE@,
            app.template_description@ == TEMPLATE_DESCRIPTION@,
            app.roadmap_intro@ == ROADMAP_INTRO@,
            app.footer_text@ == FOOTER_TEXT@,
    {
        DocsApp {
            hero_title: String::from_str(HERO_TITLE),
            hero_description: String::from_str(HERO_DESCRIPTION),
            features_intro: String::from_str(FEATURES_INTRO),
            project_structure_intro: String::from_str(PROJECT_STRUCTURE_INTRO),
            project_structure: String::from_str(PROJECT_STRUCTURE),
            view_bui_example: String::from_str(VIEW_BUI_EXAMPLE),
            style_css_example: String::from_str(STYLE_CSS_EXAMPLE),
            lib_rs_example: String::from_str(LIB_RS_EXAMPLE),
            template_example: String::from_str(TEMPLATE_EXAMPLE),
            template_description: String::from_str(TEMPLATE_DESCRIPTION),
            roadmap_intro: String::from_str(ROADMAP_INTRO),
            footer_text: String::from_str(FOOTER_TEXT),
        }
    }
}

/// The template `text` with every placeholder filled from `data`, one
/// placeholder after the other in the order of the fields, so that a
/// placeholder inside a text that was filled in earlier is filled too.
pub open spec fn filled(text: Seq<char>, data: DocsApp) -> Seq<char> {
    let text = replaced(text, "{{hero_title}}"@, data.hero_title@);
    let text = replaced(text, "{{hero_description}}"@, data.hero_description@);
    let text = replaced(text, "{{features_intro}}"@, data.features_intro@);
    let text = replaced(text, "{{project_structure_intro}}"@, data.project_structure_intro@);
    let text = replaced(text, "{{project_structure}}"@, data.project_structure@);
    let text = replaced(text, "{{view_bui_example}}"@, data.view_bui_example@);
    let text = replaced(text, "{{style_css_example}}"@, data.style_css_example@);
    let text = replaced(text, "{{lib_rs_example}}"@, data.lib_rs_example@);
    let text = replaced(text, "{{template_example}}"@, data.template_example@);
    let text = replaced(text, "{{template_description}}"@, data.template_description@);
    let text = replaced(text, "{{roadmap_intro}}"@, data.roadmap_intro@);
    let text = replaced(text, "{{footer_text}}"@, data.footer_text@);
    text
}

/// Fills the placeholders of `template` with the texts of `data`.
pub fn render(template: &str, data: &DocsApp) -> (page: String)
    ensures
        page@ == filled(template@, *data),
{
    let page = replace_all(template, "{{hero_title}}", data.hero_title.as_str());
    let page = replace_all(page.as_str(), "{{hero_description}}", data.hero_description.as_str());
    let page = replace_all(page.as_str(), "{{features_intro}}", data.features_intro.as_str());
    let page = replace_all(page.as_str(), "{{project_structure_intro}}", data.project_structure_intro.as_str());
    let page = replace_all(page.as_str(), "{{project_structure}}", data.project_structure.as_str());
    let page = replace_all(page.as_str(), "{{view_bui_example}}", data.view_bui_example.as_str());
    let page = replace_all(page.as_str(), "{{style_css_example}}", data.style_css_example.as_str());
    let page = replace_all(page.as_str(), "{{lib_rs_example}}", data.lib_rs_example.as_str());
    let page = replace_all(page.as_str(), "{{template_example}}", data.template_example.as_str());
    let page = replace_all(page.as_str(), "{{template_description}}", data.template_description.as_str());
    let page = replace_all(page.as_str(), "{{roadmap_intro}}", data.roadmap_intro.as_str());
    let page = replace_all(page.as_str(), "{{footer_text}}", data.footer_text.as_str());
    page
}

/// The section that a navigation link with the target `href` leads to: what
/// follows the `#` where the target starts with one, and none otherwise.
pub open spec fn section_target(href: Seq<char>) -> Option<Seq<char>> {
    if href.len() > 0 && href[0] == '#' {
        Some(href.skip(1))
    } else {
        None
    }
}

/// The identifier of the section to scroll to for a link with the target
/// `href`, if it leads to a section of the page.
pub fn section_of(href: &str) -> (section: Option<&str>)
    ensures
        match section {
            Some(id) => section_target(href@) == Some(id@),
            None => section_target(href@).is_none(),
        },
{
    let length = href.unicode_len();
    if length > 0 && href.get_char(0) == '#' {
        let id = href.substring_char(1, length);
        assert(id@ =~= href@.skip(1));
        Some(id)
    } else {
        None
    }
}

} // verus!
