//! The login guard in front of the campaign server's private routes.

use vstd::prelude::*;

verus! {

/// The middleware factory that puts the login guard in front of a service.
pub struct Auth;

/// The login guard wrapped around `service`.
pub struct AuthMiddleware<S> {
    service: S,
}

/// What the guard does with a request.
#[derive(PartialEq, Eq, Structural, Clone, Copy, Debug)]
pub enum AuthDecision {
    /// Pass the request on to the wrapped service.
    Forward,
    /// Answer with a redirect (302) to the login page.
    RedirectToLogin,
}

impl Auth {
    /// Wraps `service` in the guard.
    pub fn new_transform<S>(&self, service: S) -> (m: AuthMiddleware<S>)
        ensures
            m.wrapped() == service,
    {
        AuthMiddleware { service }
    }
}

impl<S> AuthMiddleware<S> {
    /// The wrapped service.
    pub closed spec fn wrapped(&self) -> S {
        self.service
    }

    /// The wrapped service.
    pub fn service(&self) -> (s: &S)
        ensures
            *s == self.wrapped(),
    {
        &self.service
    }

    /// A request whose identity cookie decodes to a valid token is passed on;
    /// any other request (no cookie counts as an empty one) is sent to login.
    pub fn decide(&self, identity_decodes: bool) -> (d: AuthDecision)
        ensures
            d == (if identity_decodes {
                AuthDecision::Forward
            } else {
                AuthDecision::RedirectToLogin
            }),
    {
        if identity_decodes {
            AuthDecision::Forward
        } else {
            AuthDecision::RedirectToLogin
        }
    }
}

} // verus!
