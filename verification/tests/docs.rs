use bahlilui::docs::{render, section_of, DocsApp, FOOTER_TEXT, HERO_TITLE, PROJECT_STRUCTURE};

fn blank() -> DocsApp {
    DocsApp {
        hero_title: String::new(),
        hero_description: String::new(),
        features_intro: String::new(),
        project_structure_intro: String::new(),
        project_structure: String::new(),
        view_bui_example: String::new(),
        style_css_example: String::new(),
        lib_rs_example: String::new(),
        template_example: String::new(),
        template_description: String::new(),
        roadmap_intro: String::new(),
        footer_text: String::new(),
    }
}

#[test]
fn the_page_has_its_texts() {
    let app = DocsApp::new();
    assert_eq!(app.hero_title, "The \"No-Nonsense\" Rust \u{2192} WebAssembly UI Framework");
    assert_eq!(app.hero_title, HERO_TITLE);
    assert_eq!(
        app.features_intro,
        "BahlilUI is a tiny, compile-time friendly UI approach that keeps things simple and fast."
    );
    assert_eq!(app.project_structure_intro, "A typical BahlilUI project looks like this:");
    assert_eq!(app.project_structure, PROJECT_STRUCTURE);
    assert!(app.project_structure.starts_with(".\n\u{251c}\u{2500}\u{2500} contents/\n"));
    assert!(app.project_structure.ends_with("\u{2514}\u{2500}\u{2500} Cargo.toml"));
    assert_eq!(app.template_example, "<h1>{{title}}</h1>\n<p>Hello, {{username}}!</p>");
    assert_eq!(
        app.template_description,
        "At runtime, placeholders are replaced by strings from your Rust state."
    );
    assert_eq!(app.roadmap_intro, "Ideas for evolving BahlilUI into a real framework:");
    assert_eq!(app.footer_text, "Built with \u{2764}\u{fe0f} in Rust + WebAssembly.");
    assert_eq!(app.footer_text, FOOTER_TEXT);
    assert!(app.hero_description.starts_with("Write UI logic in Rust, keep styling in CSS"));
    assert!(app.view_bui_example.starts_with("<div class=\"card\">"));
    assert!(app.style_css_example.ends_with("h1 { color: #dea584; }"));
    assert!(app.lib_rs_example.starts_with("use wasm_bindgen::prelude::*;"));
}

#[test]
fn render_fills_a_placeholder() {
    let page = render("<h1>{{hero_title}}</h1>", &DocsApp::new());
    assert_eq!(page, "<h1>The \"No-Nonsense\" Rust \u{2192} WebAssembly UI Framework</h1>");
}

#[test]
fn render_fills_every_occurrence_of_every_placeholder() {
    let mut data = blank();
    data.hero_title = "A".to_string();
    data.hero_description = "B".to_string();
    data.features_intro = "C".to_string();
    data.project_structure_intro = "D".to_string();
    data.project_structure = "E".to_string();
    data.view_bui_example = "F".to_string();
    data.style_css_example = "G".to_string();
    data.lib_rs_example = "H".to_string();
    data.template_example = "I".to_string();
    data.template_description = "J".to_string();
    data.roadmap_intro = "K".to_string();
    data.footer_text = "L".to_string();
    let template = "{{hero_title}}{{hero_description}}{{features_intro}}\
                    {{project_structure_intro}}{{project_structure}}{{view_bui_example}}\
                    {{style_css_example}}{{lib_rs_example}}{{template_example}}\
                    {{template_description}}{{roadmap_intro}}{{footer_text}}|{{hero_title}}";
    assert_eq!(render(template, &data), "ABCDEFGHIJKL|A");
}

#[test]
fn render_leaves_other_text_alone() {
    let data = DocsApp::new();
    assert_eq!(render("", &data), "");
    assert_eq!(render("no placeholders here", &data), "no placeholders here");
    assert_eq!(render("{{title}} {hero_title} {{ hero_title }}", &data), "{{title}} {hero_title} {{ hero_title }}");
}

#[test]
fn render_fills_placeholders_in_the_order_of_the_fields() {
    let mut data = blank();
    data.hero_title = "{{footer_text}}".to_string();
    data.footer_text = "[{{hero_title}}]".to_string();
    assert_eq!(render("{{hero_title}}", &data), "[{{hero_title}}]");
    assert_eq!(render("{{footer_text}}", &data), "[{{hero_title}}]");
}

#[test]
fn a_link_to_a_section_gives_its_identifier() {
    assert_eq!(section_of("#features"), Some("features"));
    assert_eq!(section_of("#"), Some(""));
    assert_eq!(section_of("##top"), Some("#top"));
    assert_eq!(section_of("#caf\u{e9}"), Some("caf\u{e9}"));
}

#[test]
fn a_link_elsewhere_gives_no_section() {
    assert_eq!(section_of(""), None);
    assert_eq!(section_of("features"), None);
    assert_eq!(section_of("/docs#features"), None);
    assert_eq!(section_of("https://example.org/#a"), None);
    assert_eq!(section_of("\u{e9}#a"), None);
}
