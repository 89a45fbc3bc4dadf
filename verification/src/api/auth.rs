//! User authentication.

use crate::common::{
    plain_call, Descriptor, DescriptorView, Endpoint, Method, PayloadKind, Shape,
};
use crate::json::{one_string, two_strings, write_one_string, write_two_strings};
use crate::text::optional_text;
use vstd::prelude::*;

verus! {

/// Login with given username and password.
///
/// Call to `POST /auth/login`.
#[derive(Debug)]
pub struct Login<'a> {
    /// Username (length 1 to 64)
    pub username: &'a str,
    /// Password (length 8 to 1024)
    pub password: &'a str,
}

impl<'a> Endpoint for Login<'a> {
    open spec fn call(&self) -> DescriptorView {
        plain_call(Method::Post, "/auth/login"@, false, PayloadKind::Body, Shape::Single)
    }

    fn descriptor(&self) -> (d: Descriptor) {
        Descriptor::new(
            Method::Post,
            "/auth/login".to_owned(),
            false,
            PayloadKind::Body,
            Shape::Single,
        )
    }
}

impl<'a> Login<'a> {
    /// The body of the call: the user name under `username` and the
    /// password under `password`.
    pub open spec fn body_text(&self) -> Option<Seq<char>> {
        two_strings("username"@, self.username@, "password"@, self.password@)
    }

    /// Writes the body of the call.
    pub fn body(&self) -> (r: Option<String>)
        ensures
            optional_text(r) == self.body_text(),
    {
        write_two_strings("username", self.username, "password", self.password)
    }
}

/// Check permissions for the logged user.
///
/// Call to `GET /auth/check`.
#[derive(Debug)]
pub struct CheckToken;

impl Endpoint for CheckToken {
    open spec fn call(&self) -> DescriptorView {
        plain_call(Method::Get, "/auth/check"@, true, PayloadKind::NoData, Shape::Single)
    }

    fn descriptor(&self) -> (d: Descriptor) {
        Descriptor::new(
            Method::Get,
            "/auth/check".to_owned(),
            true,
            PayloadKind::NoData,
            Shape::Single,
        )
    }
}

/// Send a logout request for the logged user.
///
/// Call to `POST /auth/logout`.
#[derive(Debug)]
pub struct Logout;

impl Endpoint for Logout {
    open spec fn call(&self) -> DescriptorView {
        plain_call(Method::Post, "/auth/logout"@, true, PayloadKind::NoData, Shape::Empty)
    }

    fn descriptor(&self) -> (d: Descriptor) {
        Descriptor::new(
            Method::Post,
            "/auth/logout".to_owned(),
            true,
            PayloadKind::NoData,
            Shape::Empty,
        )
    }
}

/// Get a new session and refresh token.
///
/// Call to `POST /auth/refresh`.
#[derive(Debug)]
pub struct RefreshToken<'a> {
    /// Refresh token
    pub refresh_token: &'a str,
}

impl<'a> Endpoint for RefreshToken<'a> {
    open spec fn call(&self) -> DescriptorView {
        plain_call(Method::Post, "/auth/refresh"@, false, PayloadKind::Body, Shape::Single)
    }

    fn descriptor(&self) -> (d: Descriptor) {
        Descriptor::new(
            Method::Post,
            "/auth/refresh".to_owned(),
            false,
            PayloadKind::Body,
            Shape::Single,
        )
    }
}

impl<'a> RefreshToken<'a> {
    /// The body of the call: the refresh token under `token`.
    pub open spec fn body_text(&self) -> Option<Seq<char>> {
        one_string("token"@, self.refresh_token@)
    }

    /// Writes the body of the call.
    pub fn body(&self) -> (r: Option<String>)
        ensures
            optional_text(r) == self.body_text(),
    {
        write_one_string("token", self.refresh_token)
    }
}

} // verus!
