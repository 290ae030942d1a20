use wiki_to_md::{generate_markdown, ConvertError, MarkdownFile};

const PAGE: &str = "<html><head><title>t</title></head><body>\
<h1 id=\"firstHeading\">My \"Page\"</h1>\
<div class=\"mw-parser-output\">\
<h2><span>Intro</span></h2>\
<p>Hello world</p>\
<p>Hello <b>world</b></p>\
<section><ul><li>A</li><li>B</li></ul></section>\
<div>ignored</div>\
<h3><span>Sub</span></h3>\
</div></body></html>";

fn text(file: &MarkdownFile) -> String {
    String::from_utf8(file.bytes.clone()).unwrap()
}

fn link_target(markdown: &str) -> String {
    let start = markdown.rfind("](").unwrap() + 2;
    let end = markdown.rfind(")\n\n").unwrap();
    markdown[start..end].to_string()
}

fn without_backslashes(escaped: &str) -> String {
    let mut out = String::new();
    let mut chars = escaped.chars();
    while let Some(c) = chars.next() {
        if c == '\\' {
            out.push(chars.next().unwrap());
        } else {
            out.push(c);
        }
    }
    out
}

fn percent_decoded(encoded: &str) -> String {
    let bytes = encoded.as_bytes();
    let mut out = Vec::new();
    let mut i = 0;
    while i < bytes.len() {
        if bytes[i] == b'%' {
            let hex = std::str::from_utf8(&bytes[i + 1..i + 3]).unwrap();
            out.push(u8::from_str_radix(hex, 16).unwrap());
            i += 3;
        } else {
            out.push(bytes[i]);
            i += 1;
        }
    }
    String::from_utf8(out).unwrap()
}

fn resolved(folder: &str, relative: &str) -> Vec<String> {
    let mut parts: Vec<String> = Vec::new();
    for part in folder.split('/').chain(relative.split('/')) {
        if part == ".." {
            parts.pop();
        } else if part != "." && !part.is_empty() {
            parts.push(part.to_string());
        }
    }
    parts
}

#[test]
fn page_becomes_markdown_file() {
    let file = generate_markdown("in/Page.html", "out", PAGE).unwrap().unwrap();
    assert_eq!(file.name, "Page.md");
    assert_eq!(std::path::Path::new(&file.path), std::path::Path::new("out").join("Page.md"));
    assert_eq!(
        text(&file),
        "+++\ntitle= \"My \\\"Page\\\"\"\n+++\n\
# Intro\n\
Hello world\n\n\
\n   * A\n   * B\n\n\
## Sub\n\
generated from [**Page\\.md**](\\.\\.%2Fin%2FPage\\.html)\n\n"
    );
}

#[test]
fn underscore_page_gives_no_file() {
    assert_eq!(generate_markdown("in/_Page.html", "out", PAGE), Ok(None));
    assert_eq!(generate_markdown("_index.html", "out", ""), Ok(None));
    assert_eq!(
        generate_markdown("in/_bad.html", "/out", "<div class=\"mw-parser-output\"><h2>x</h2></div>"),
        Ok(None)
    );
}

#[test]
fn underscore_in_folder_does_not_skip() {
    assert!(generate_markdown("_in/Page.html", "out", PAGE).unwrap().is_some());
}

#[test]
fn heading_without_text_fails_the_page() {
    let html = "<div class=\"mw-parser-output\"><h2>Bare</h2></div>";
    assert_eq!(generate_markdown("in/a.html", "out", html), Err(ConvertError::MissingHeadingText));
}

#[test]
fn input_without_file_name_fails() {
    assert_eq!(generate_markdown("in/..", "out", PAGE), Err(ConvertError::NoFileName));
    assert_eq!(generate_markdown("", "out", PAGE), Err(ConvertError::NoFileName));
}

#[test]
fn relative_page_and_absolute_folder_have_no_link() {
    assert_eq!(generate_markdown("in/a.html", "/out", PAGE), Err(ConvertError::NoRelativePath));
}

#[test]
fn folder_through_parent_has_no_link() {
    assert_eq!(generate_markdown("in/a.html", "../out", PAGE), Err(ConvertError::NoRelativePath));
}

#[test]
fn heading_error_comes_before_link_error() {
    let html = "<div class=\"mw-parser-output\"><h3>Bare</h3></div>";
    assert_eq!(generate_markdown("in/a.html", "/out", html), Err(ConvertError::MissingHeadingText));
}

#[test]
fn page_without_container_has_front_matter_and_footer() {
    let file = generate_markdown("a.html", "out", "<p>nothing</p>").unwrap().unwrap();
    assert_eq!(
        text(&file),
        "+++\ntitle= \"UNKNOWN\"\n+++\ngenerated from [**a\\.md**](\\.\\.%2Fa\\.html)\n\n"
    );
}

#[test]
fn link_target_is_percent_encoded() {
    let file = generate_markdown("/data/my pages/caf\u{e9} 1.html", "/data/out", "").unwrap().unwrap();
    assert_eq!(file.name, "caf\u{e9} 1.md");
    assert_eq!(
        link_target(&text(&file)),
        "\\.\\.%2Fmy%20pages%2Fcaf%C3%A9%201\\.html"
    );
}

#[test]
fn unreserved_characters_are_not_encoded() {
    let file = generate_markdown("out/Az09-._~.html", "out", "").unwrap().unwrap();
    assert_eq!(link_target(&text(&file)), "Az09\\-\\.\\_~\\.html");
}

#[test]
fn link_leads_back_to_the_page() {
    let cases = [
        ("in/Page.html", "out"),
        ("/data/in/sub/Page.html", "/data/out"),
        ("site/in/a b.html", "site/out/md"),
        ("out/Page.html", "out"),
        ("/a/caf\u{e9}.html", "/b/c/d"),
    ];
    for (input, folder) in cases {
        let file = generate_markdown(input, folder, PAGE).unwrap().unwrap();
        let relative = percent_decoded(&without_backslashes(&link_target(&text(&file))));
        assert_eq!(resolved(folder, &relative), resolved("", input));
    }
}

#[test]
fn same_input_gives_same_bytes() {
    let first = generate_markdown("in/Page.html", "out", PAGE);
    let second = generate_markdown("in/Page.html", "out", PAGE);
    assert_eq!(first, second);
    assert!(first.unwrap().is_some());
}

#[test]
fn file_is_named_after_the_page() {
    assert_eq!(generate_markdown("in/a.b.html", "out", "").unwrap().unwrap().name, "a.b.md");
    assert_eq!(generate_markdown("in/notes", "out", "").unwrap().unwrap().name, "notes.md");
    assert_eq!(generate_markdown("in/.hidden", "out", "").unwrap().unwrap().name, ".hidden.md");
}

#[test]
fn footer_shows_the_name_of_the_markdown_file() {
    let file = generate_markdown("in/My_Page.html", "out", "").unwrap().unwrap();
    assert!(text(&file).contains("generated from [**My\\_Page\\.md**]("));
}

#[test]
fn file_lies_directly_in_the_output_folder() {
    let file = generate_markdown("in/deep/er/Page.html", "out/md", "").unwrap().unwrap();
    let path = std::path::Path::new(&file.path);
    assert_eq!(path.parent(), Some(std::path::Path::new("out/md")));
    assert_eq!(path.file_name().unwrap(), "Page.md");
    let file = generate_markdown("/in/Page.html", "/out/", "").unwrap().unwrap();
    assert_eq!(std::path::Path::new(&file.path), std::path::Path::new("/out/Page.md"));
}
