use vstd::prelude::*;

verus! {

/// A zero-data marker naming which page a route serves. Its only purpose is
/// to select the template that the engine renders; it carries no fields and
/// is constructed fresh per request.
#[derive(Clone, Copy, PartialEq, Eq, Structural, Debug)]
pub enum Page {
    Index,
    AnotherPage,
    Register,
    Login,
    NotFound,
}

impl Page {
    /// The route path under which this page is served.
    pub open spec fn spec_route_path(self) -> Seq<char> {
        match self {
            Page::Index => "/"@,
            Page::AnotherPage => "/another_page"@,
            Page::Register => "/register"@,
            Page::Login => "/login"@,
            Page::NotFound => "/404"@,
        }
    }

    /// The template asset that the engine renders for this page.
    pub open spec fn spec_template_path(self) -> Seq<char> {
        match self {
            Page::Index => "pages/index.html"@,
            Page::AnotherPage => "pages/another_page.html"@,
            Page::Register => "pages/register.html"@,
            Page::Login => "pages/login.html"@,
            Page::NotFound => "pages/404.html"@,
        }
    }

    /// The route path under which this page is served.
    pub fn route_path(self) -> (r: String)
        ensures
            r@ == self.spec_route_path(),
    {
        match self {
            Page::Index => "/".to_owned(),
            Page::AnotherPage => "/another_page".to_owned(),
            Page::Register => "/register".to_owned(),
            Page::Login => "/login".to_owned(),
            Page::NotFound => "/404".to_owned(),
        }
    }

    /// The template asset that the engine renders for this page.
    pub fn template_path(self) -> (r: String)
        ensures
            r@ == self.spec_template_path(),
    {
        match self {
            Page::Index => "pages/index.html".to_owned(),
            Page::AnotherPage => "pages/another_page.html".to_owned(),
            Page::Register => "pages/register.html".to_owned(),
            Page::Login => "pages/login.html".to_owned(),
            Page::NotFound => "pages/404.html".to_owned(),
        }
    }
}

/// Route paths are unique: no two distinct pages share a path, so each path
/// in the table selects exactly one page.
pub proof fn lemma_route_paths_distinct(a: Page, b: Page)
    requires
        a != b,
    ensures
        a.spec_route_path() != b.spec_route_path(),
{
    reveal_strlit("/");
    reveal_strlit("/another_page");
    reveal_strlit("/register");
    reveal_strlit("/login");
    reveal_strlit("/404");
    assert("/"@.len() == 1);
    assert("/another_page"@.len() == 13);
    assert("/register"@.len() == 9);
    assert("/login"@.len() == 6);
    assert("/404"@.len() == 4);
}

} // verus!
