use web_routes::page::Page;
use web_routes::response::render_to_response;
use web_routes::response::HttpResponse;
use web_routes::router::match_route;
use web_routes::router::route_table;

#[test]
fn each_defined_path_matches_its_page() {
    assert_eq!(match_route("GET", "/"), Some(Page::Index));
    assert_eq!(match_route("GET", "/another_page"), Some(Page::AnotherPage));
    assert_eq!(match_route("GET", "/register"), Some(Page::Register));
    assert_eq!(match_route("GET", "/login"), Some(Page::Login));
    assert_eq!(match_route("GET", "/404"), Some(Page::NotFound));
}

#[test]
fn each_defined_path_renders_ok() {
    let pages = [
        Page::Index,
        Page::AnotherPage,
        Page::Register,
        Page::Login,
        Page::NotFound,
    ];
    for page in pages {
        let markup = format!("<html><body>{}</body></html>", page.template_path());
        let r: HttpResponse = render_to_response(Ok(markup.clone()));
        assert_eq!(r.status, 200);
        assert_eq!(r.body, markup);
        assert_eq!(r.content_type, "text/html; charset=utf-8");
    }
}

#[test]
fn render_failure_yields_500_diagnostic() {
    let r = render_to_response(Err(String::from("boom")));
    assert_eq!(r.status, 500);
    assert_eq!(r.body, "Template error: boom");
    assert_eq!(r.content_type, "text/plain; charset=utf-8");
}

#[test]
fn undefined_path_is_unmatched() {
    assert_eq!(match_route("GET", "/does-not-exist"), None);
    assert_eq!(match_route("GET", ""), None);
    assert_eq!(match_route("GET", "/login/"), None);
    // The custom not-found page answers only on its own path; an unknown
    // path is left to the framework's default, not routed to it.
    assert_eq!(match_route("GET", "/404"), Some(Page::NotFound));
}

#[test]
fn non_get_method_is_unmatched() {
    assert_eq!(match_route("POST", "/"), None);
    assert_eq!(match_route("POST", "/login"), None);
    assert_eq!(match_route("PUT", "/register"), None);
    assert_eq!(match_route("", "/"), None);
}

#[test]
fn repeated_requests_answer_identically() {
    for _ in 0..3 {
        assert_eq!(match_route("GET", "/login"), Some(Page::Login));
        let r = render_to_response(Ok(String::from("<p>login</p>")));
        assert_eq!(r.status, 200);
        assert_eq!(r.body, "<p>login</p>");
        let e = render_to_response(Err(String::from("gone")));
        assert_eq!(e.status, 500);
        assert_eq!(e.body, "Template error: gone");
    }
}

#[test]
fn get_login_renders_exact_markup() {
    let login_markup = String::from("<html><body><h1>Login</h1></body></html>");
    assert_eq!(match_route("GET", "/login"), Some(Page::Login));
    let r = render_to_response(Ok(login_markup.clone()));
    assert_eq!(r.status, 200);
    assert_eq!(r.body, login_markup);
}

#[test]
fn get_register_with_missing_variable_error() {
    assert_eq!(match_route("GET", "/register"), Some(Page::Register));
    let r = render_to_response(Err(String::from("missing variable")));
    assert_eq!(r.status, 500);
    assert_eq!(r.body, "Template error: missing variable");
}

#[test]
fn route_table_lists_the_five_pages_in_order() {
    let table = route_table();
    assert_eq!(table.len(), 5);
    let expected = [
        ("/", Page::Index),
        ("/another_page", Page::AnotherPage),
        ("/register", Page::Register),
        ("/login", Page::Login),
        ("/404", Page::NotFound),
    ];
    for (entry, (path, page)) in table.iter().zip(expected) {
        assert_eq!(entry.0, path);
        assert_eq!(entry.1, page);
    }
}

#[test]
fn route_paths_are_unique() {
    let table = route_table();
    for i in 0..table.len() {
        for j in 0..table.len() {
            if i != j {
                assert_ne!(table[i].0, table[j].0);
            }
        }
    }
}

#[test]
fn page_paths_are_exact() {
    assert_eq!(Page::Index.route_path(), "/");
    assert_eq!(Page::NotFound.route_path(), "/404");
    assert_eq!(Page::Index.template_path(), "pages/index.html");
    assert_eq!(Page::AnotherPage.template_path(), "pages/another_page.html");
    assert_eq!(Page::Register.template_path(), "pages/register.html");
    assert_eq!(Page::Login.template_path(), "pages/login.html");
    assert_eq!(Page::NotFound.template_path(), "pages/404.html");
}
