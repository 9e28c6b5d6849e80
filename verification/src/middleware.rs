//! Login-redirect middleware model.
//!
//! A guarded route group knows where unauthenticated visitors are sent:
//! its registration endpoint, carrying the original path percent-encoded
//! in a `redirect_to` query parameter.  The HTTP middleware outside this
//! crate asks [`GetLoginRoute::get_login_route`] for that target and
//! otherwise forwards the request untouched.

use std::rc::Rc;

use vstd::prelude::*;

verus! {

/// What the result of percent-encoding a string is.  The encoding
/// depends on the characters alone.
pub uninterp spec fn url_encoded(s: Seq<char>) -> Seq<char>;

/// Relies on `urlencoding::encode`: percent-encodes every byte except
/// ASCII alphanumerics and `-`, `_`, `.`, `~`; a pure function of its
/// argument.
#[verifier::external_body]
pub fn url_encode(s: &str) -> (r: String)
    ensures
        r@ == url_encoded(s@),
{
    urlencoding::encode(s).into_owned()
}

/// A route group that knows its login redirect target.
pub trait GetLoginRoute {
    /// The redirect target for a visitor who came from `src`.
    spec fn spec_login_route(&self, src: Option<Seq<char>>) -> Seq<char>;

    /// Builds the login route, carrying the source path when given.
    fn get_login_route(&self, src: Option<&str>) -> (r: String)
        ensures
            r@ == self.spec_login_route(
                match src {
                    Option::Some(s) => Option::Some(s@),
                    Option::None => Option::None,
                },
            ),
    ;
}

/// Which session mechanism authenticates a request: the admin identity
/// cookie or the anonymous survey session cookie.
#[derive(Clone)]
pub enum AuthenticatedSession {
    ActixIdentity,
    ActixSession,
}

/// Configuration of the login-check middleware: the route group to
/// redirect to and the session mechanism to test.
pub struct CheckLogin<T: GetLoginRoute> {
    pub login: Rc<T>,
    pub session_type: AuthenticatedSession,
}

impl<T: GetLoginRoute> CheckLogin<T> {
    /// Wraps a route group and a session choice into a middleware
    /// configuration.
    pub fn new(login: T, session_type: AuthenticatedSession) -> (r: Self)
        ensures
            r.login == login,
            r.session_type == session_type,
    {
        let login = Rc::new(login);
        CheckLogin { login, session_type }
    }
}

/// The middleware as wired around an inner service: the service itself
/// is framework state this crate never inspects.
pub struct CheckLoginMiddleware<S, GT> {
    pub service: S,
    pub login: Rc<GT>,
    pub session_type: AuthenticatedSession,
}

/// What the middleware does with one request: pass it through to the
/// inner service, or redirect the visitor to the login route built from
/// the request path.
pub enum LoginCheckAction {
    Forward,
    RedirectTo(String),
}

/// Decides one request given whether its session authenticated and the
/// request's path-and-query, exactly as the middleware behaves: an
/// authenticated request is forwarded, any other is redirected to the
/// login route for that source path.
pub fn login_check_action<T: GetLoginRoute>(
    login: &T,
    is_authenticated: bool,
    path: Option<&str>,
) -> (r: LoginCheckAction)
    ensures
        is_authenticated ==> r matches LoginCheckAction::Forward,
        !is_authenticated ==> (r matches LoginCheckAction::RedirectTo(target) && target@
            == login.spec_login_route(
            match path {
                Option::Some(p) => Option::Some(p@),
                Option::None => Option::None,
            },
        )),
{
    if is_authenticated {
        LoginCheckAction::Forward
    } else {
        LoginCheckAction::RedirectTo(login.get_login_route(path))
    }
}

} // verus!
