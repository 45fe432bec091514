//! The application's routes: each names a method and a path.

use vstd::prelude::*;

verus! {

/// The request method of a route.
#[derive(Clone, Copy, Debug, PartialEq, Eq, Structural)]
pub enum Method {
    Get,
    Post,
}

/// The routes of the application.
#[derive(Clone, Copy, Debug, PartialEq, Eq, Structural)]
pub enum Route {
    Root,
    CreateSet,
    SetList,
    Profile,
    DeleteSet,
    Logout,
    LoginForm,
    Login,
}

/// The path of a route.
pub open spec fn route_path(route: Route) -> Seq<char> {
    match route {
        Route::Root => "/"@,
        Route::CreateSet => "/sets"@,
        Route::SetList => "/sets"@,
        Route::Profile => "/profile"@,
        Route::DeleteSet => "/delete-set"@,
        Route::Logout => "/logout"@,
        Route::LoginForm => "/login"@,
        Route::Login => "/login"@,
    }
}

/// The method of a route.
pub open spec fn route_method(route: Route) -> Method {
    match route {
        Route::Root => Method::Get,
        Route::CreateSet => Method::Post,
        Route::SetList => Method::Get,
        Route::Profile => Method::Get,
        Route::DeleteSet => Method::Post,
        Route::Logout => Method::Post,
        Route::LoginForm => Method::Get,
        Route::Login => Method::Post,
    }
}

impl Route {
    /// The path of this route.
    pub fn path(&self) -> (p: &'static str)
        ensures
            p@ == route_path(*self),
    {
        match self {
            Route::Root => "/",
            Route::CreateSet => "/sets",
            Route::SetList => "/sets",
            Route::Profile => "/profile",
            Route::DeleteSet => "/delete-set",
            Route::Logout => "/logout",
            Route::LoginForm => "/login",
            Route::Login => "/login",
        }
    }

    /// The method of this route.
    pub fn method(&self) -> (m: Method)
        ensures
            m == route_method(*self),
    {
        match self {
            Route::Root => Method::Get,
            Route::CreateSet => Method::Post,
            Route::SetList => Method::Get,
            Route::Profile => Method::Get,
            Route::DeleteSet => Method::Post,
            Route::Logout => Method::Post,
            Route::LoginForm => Method::Get,
            Route::Login => Method::Post,
        }
    }

    /// The path of this route, as an owned string.
    pub fn to_string(&self) -> (s: String)
        ensures
            s@ == route_path(*self),
    {
        String::from_str(self.path())
    }
}

/// Every route's path is plain text, so it can stand in a header.
pub proof fn lemma_route_path_is_plain(route: Route)
    ensures
        crate::text::is_plain_text(route_path(route)),
{
    reveal_strlit("/");
    reveal_strlit("/sets");
    reveal_strlit("/profile");
    reveal_strlit("/delete-set");
    reveal_strlit("/logout");
    reveal_strlit("/login");
}

} // verus!
