use vstd::prelude::*;
use crate::page::Page;
use crate::page::lemma_route_paths_distinct;
use crate::response::HttpResponse;
use crate::response::response_for;

verus! {

/// Which page, if any, the fixed route table serves for a request: exactly
/// the five known paths answer to GET, and nothing else is matched.
pub open spec fn spec_match_route(method: Seq<char>, path: Seq<char>) -> Option<Page> {
    if method != "GET"@ {
        None
    } else if path == "/"@ {
        Some(Page::Index)
    } else if path == "/another_page"@ {
        Some(Page::AnotherPage)
    } else if path == "/register"@ {
        Some(Page::Register)
    } else if path == "/login"@ {
        Some(Page::Login)
    } else if path == "/404"@ {
        Some(Page::NotFound)
    } else {
        None
    }
}

/// Equality of two string slices by their character sequences.
fn str_eq(a: &str, b: &str) -> (r: bool)
    ensures
        r == (a@ == b@),
{
    let a_owned: String = a.to_owned();
    let b_owned: String = b.to_owned();
    a_owned == b_owned
}

/// Matches a request against the fixed route table by method and path.
pub fn match_route(method: &str, path: &str) -> (r: Option<Page>)
    ensures
        r == spec_match_route(method@, path@),
{
    if !str_eq(method, "GET") {
        None
    } else if str_eq(path, "/") {
        Some(Page::Index)
    } else if str_eq(path, "/another_page") {
        Some(Page::AnotherPage)
    } else if str_eq(path, "/register") {
        Some(Page::Register)
    } else if str_eq(path, "/login") {
        Some(Page::Login)
    } else if str_eq(path, "/404") {
        Some(Page::NotFound)
    } else {
        None
    }
}

/// The route table, built once: each entry pairs a path with the page it
/// serves, one entry per page, in registration order.
pub fn route_table() -> (r: Vec<(String, Page)>)
    ensures
        r@.len() == 5,
        forall|i: int|
            0 <= i < r@.len() ==> (#[trigger] r@[i].0)@ == r@[i].1.spec_route_path(),
        r@[0].1 == Page::Index,
        r@[1].1 == Page::AnotherPage,
        r@[2].1 == Page::Register,
        r@[3].1 == Page::Login,
        r@[4].1 == Page::NotFound,
{
    let mut table: Vec<(String, Page)> = Vec::new();
    table.push((Page::Index.route_path(), Page::Index));
    table.push((Page::AnotherPage.route_path(), Page::AnotherPage));
    table.push((Page::Register.route_path(), Page::Register));
    table.push((Page::Login.route_path(), Page::Login));
    table.push((Page::NotFound.route_path(), Page::NotFound));
    table
}

/// A GET to a page's own route path is dispatched to exactly that page.
pub proof fn lemma_table_matches_itself(page: Page)
    ensures
        spec_match_route("GET"@, page.spec_route_path()) == Some(page),
{
    reveal_strlit("/");
    reveal_strlit("/another_page");
    reveal_strlit("/register");
    reveal_strlit("/login");
    reveal_strlit("/404");
    assert("/"@.len() == 1);
    assert("/another_page"@.len() == 13);
    assert("/register"@.len() == 9);
    assert("/login"@.len() == 6);
    assert("/404"@.len() == 4);
}

/// Every defined path is served: a GET to a page's route path matches that
/// page and no other, and when the engine renders its template successfully
/// the adapter answers 200 with the rendered markup as the body.
pub proof fn lemma_defined_path_served(page: Page, html: Seq<char>, r: HttpResponse)
    requires
        response_for(r, Ok(html)),
    ensures
        spec_match_route("GET"@, page.spec_route_path()) == Some(page),
        r.status == 200,
        r.body@ == html,
{
    lemma_table_matches_itself(page);
}

/// A request outside the table is unmatched: a method other than GET, or a
/// path that is no page's route path, falls through to the framework's
/// default behaviour — in particular, the custom `/404` page is reached
/// only by navigating to `/404` itself, never as a fallback.
pub proof fn lemma_unmatched(method: Seq<char>, path: Seq<char>)
    requires
        method != "GET"@ || forall|p: Page| path != #[trigger] p.spec_route_path(),
    ensures
        spec_match_route(method, path) is None,
{
    if method == "GET"@ {
        assert(path != Page::Index.spec_route_path());
        assert(path != Page::AnotherPage.spec_route_path());
        assert(path != Page::Register.spec_route_path());
        assert(path != Page::Login.spec_route_path());
        assert(path != Page::NotFound.spec_route_path());
    }
}

/// The table matched against itself is injective: distinct pages answer on
/// distinct paths, so dispatch never confuses two pages.
pub proof fn lemma_dispatch_unambiguous(a: Page, b: Page)
    requires
        a != b,
    ensures
        spec_match_route("GET"@, a.spec_route_path()) != spec_match_route(
            "GET"@,
            b.spec_route_path(),
        ),
{
    lemma_route_paths_distinct(a, b);
    lemma_table_matches_itself(a);
    lemma_table_matches_itself(b);
}

} // verus!
