use postboard::routes::not_found;
use postboard::routes::root;
use postboard::view::home;
use postboard::view::login;
use postboard::view::render_page;

#[test]
fn render_substitutes_title_and_body() {
    let page = render_page("T", "B");
    assert_eq!(
        page,
        "<!DOCTYPE html><html><head><title>T</title></head><body><h1>T</h1><p>B</p></body></html>"
    );
}

#[test]
fn home_renders_fixed_content() {
    let page = home();
    assert_eq!(
        page,
        "<!DOCTYPE html><html><head><title>ZZZ</title></head><body><h1>ZZZ</h1><p>=====</p></body></html>"
    );
}

#[test]
fn login_is_static() {
    let page = login();
    assert!(page.starts_with("<!DOCTYPE html>"));
    assert!(page.contains("<form method=\"post\">"));
    assert_eq!(page, login());
}

#[test]
fn root_reports_liveness() {
    assert_eq!(root(), "It works");
}

#[test]
fn not_found_echoes_path() {
    assert_eq!(not_found("/nope"), "Not found: /nope");
    assert_eq!(not_found(""), "Not found: ");
}
