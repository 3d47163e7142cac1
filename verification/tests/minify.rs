use deur::minify::{contains_text, minified_html_path, minify_css, minify_html, minify_kind, replace, MinifyKind};

#[test]
fn replace_is_left_to_right_and_non_overlapping() {
    assert_eq!(replace("aaaa", "aa", "b"), "bb");
    assert_eq!(replace("aaa", "aa", "b"), "ba");
    assert_eq!(replace("abcabc", "bc", "XYZ"), "aXYZaXYZ");
    assert_eq!(replace("nothing here", "zz", "y"), "nothing here");
    assert_eq!(replace("", "x", "y"), "");
    assert_eq!(replace("héllo wörld", "ö", "oe"), "héllo woerld");
}

#[test]
fn css_minification() {
    let src = "body {\n    color: red;\n    margin: 0;\n}\n";
    assert_eq!(minify_css(src), "body {color:red;margin:0;}");
}

#[test]
fn css_minification_can_leave_indentation_made_by_joining_lines() {
    assert_eq!(minify_css("a  \n  b"), "a    b");
    assert_eq!(minify_css("x:  y"), "x: y");
}

#[test]
fn html_minification_keeps_colon_spaces() {
    let src = "<p>\n    a: b\n</p>\n";
    assert_eq!(minify_html(src), "<p>a: b</p>");
}

#[test]
fn minified_output_has_no_line_breaks() {
    for src in ["\n\n\n", "a\nb\r\nc", "    \n    x: \n"] {
        assert!(!minify_css(src).contains('\n'));
        assert!(!minify_html(src).contains('\n'));
        assert!(minify_css(src).len() <= src.len());
    }
}

#[test]
fn html_target_path() {
    assert_eq!(minified_html_path("./templates/index.html.hbs"), "./templates/index.min.html.hbs");
    assert_eq!(minified_html_path("html.hbs"), "min.html.hbs");
}

#[test]
fn contains_text_finds_substrings() {
    assert!(contains_text("./static/style.min.css", ".min."));
    assert!(!contains_text("./static/style.css", ".min."));
    assert!(contains_text("abc", ""));
    assert!(!contains_text("", "a"));
}

#[test]
fn minifier_choice() {
    assert_eq!(minify_kind("./static/style.css", Some("css")), Some(MinifyKind::Stylesheet));
    assert_eq!(minify_kind("./templates/a.html.hbs", Some("hbs")), Some(MinifyKind::Template));
    assert_eq!(minify_kind("./static/style.min.css", Some("css")), None);
    assert_eq!(minify_kind("./a.min.html.hbs", Some("hbs")), None);
    assert_eq!(minify_kind("./README", None), None);
    assert_eq!(minify_kind("./main.rs", Some("rs")), None);
}
