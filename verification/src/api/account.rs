//! Account management.

use crate::common::{
    plain_call, Descriptor, DescriptorView, Endpoint, Method, PayloadKind, Shape,
};
use crate::text::join_text;
use vstd::prelude::*;

verus! {

/// Create a new account.
///
/// Call to `POST /account/create`.
#[derive(Debug)]
pub struct CreateAccount<'a> {
    /// Username (length 1 to 64)
    pub username: &'a str,
    /// Password (length 8 to 1024)
    pub password: &'a str,
    /// Email address
    pub email: &'a str,
}

impl<'a> Endpoint for CreateAccount<'a> {
    open spec fn call(&self) -> DescriptorView {
        plain_call(
            Method::Post,
            "/account/create"@,
            false,
            PayloadKind::Body,
            Shape::Single,
        )
    }

    fn descriptor(&self) -> (d: Descriptor) {
        Descriptor::new(
            Method::Post,
            "/account/create".to_owned(),
            false,
            PayloadKind::Body,
            Shape::Single,
        )
    }
}

/// Activate an account with the code that was mailed.
///
/// Call to `GET /account/activate/{code}`.
#[derive(Debug)]
pub struct ActivateAccount<'a> {
    /// Activation code
    pub code: &'a str,
}

impl<'a> Endpoint for ActivateAccount<'a> {
    open spec fn call(&self) -> DescriptorView {
        plain_call(
            Method::Get,
            "/account/activate/"@ + self.code@,
            false,
            PayloadKind::NoData,
            Shape::Empty,
        )
    }

    fn descriptor(&self) -> (d: Descriptor) {
        Descriptor::new(
            Method::Get,
            join_text("/account/activate/", self.code),
            false,
            PayloadKind::NoData,
            Shape::Empty,
        )
    }
}

/// Resend the activation code.
///
/// Call to `POST /account/activate/resend`.
#[derive(Debug)]
pub struct ResendActivationCode<'a> {
    /// Email address
    pub email: &'a str,
}

impl<'a> Endpoint for ResendActivationCode<'a> {
    open spec fn call(&self) -> DescriptorView {
        plain_call(
            Method::Post,
            "/account/activate/resend"@,
            false,
            PayloadKind::Body,
            Shape::Empty,
        )
    }

    fn descriptor(&self) -> (d: Descriptor) {
        Descriptor::new(
            Method::Post,
            "/account/activate/resend".to_owned(),
            false,
            PayloadKind::Body,
            Shape::Empty,
        )
    }
}

/// Ask for the recovery of an account.
///
/// Call to `POST /account/recover`.
#[derive(Debug)]
pub struct RecoverAccount<'a> {
    /// Email address
    pub email: &'a str,
}

impl<'a> Endpoint for RecoverAccount<'a> {
    open spec fn call(&self) -> DescriptorView {
        plain_call(
            Method::Post,
            "/account/recover"@,
            false,
            PayloadKind::Body,
            Shape::Empty,
        )
    }

    fn descriptor(&self) -> (d: Descriptor) {
        Descriptor::new(
            Method::Post,
            "/account/recover".to_owned(),
            false,
            PayloadKind::Body,
            Shape::Empty,
        )
    }
}

/// Complete the recovery of an account.
///
/// Call to `POST /account/recover/{code}`.
#[derive(Debug)]
pub struct CompleteAccountRecover<'a> {
    /// Recovery code
    pub code: &'a str,
    /// New password (length 8 to 1024)
    pub new_password: &'a str,
}

impl<'a> Endpoint for CompleteAccountRecover<'a> {
    open spec fn call(&self) -> DescriptorView {
        plain_call(
            Method::Post,
            "/account/recover/"@ + self.code@,
            false,
            PayloadKind::Body,
            Shape::Empty,
        )
    }

    fn descriptor(&self) -> (d: Descriptor) {
        Descriptor::new(
            Method::Post,
            join_text("/account/recover/", self.code),
            false,
            PayloadKind::Body,
            Shape::Empty,
        )
    }
}

/// Another name of [`CreateAccount`].
pub type CreateAccountReq<'a> = CreateAccount<'a>;

/// Another name of [`ActivateAccount`].
pub type ActivateAccountReq<'a> = ActivateAccount<'a>;

/// Another name of [`ResendActivationCode`].
pub type ResendActivationCodeReq<'a> = ResendActivationCode<'a>;

/// Another name of [`RecoverAccount`].
pub type RecoverAccountReq<'a> = RecoverAccount<'a>;

/// Another name of [`CompleteAccountRecover`].
pub type CompleteAccountRecoverReq<'a> = CompleteAccountRecover<'a>;

} // verus!
