//! Solve captcha.

use crate::common::{
    plain_call, Descriptor, DescriptorView, Endpoint, Method, PayloadKind, Shape,
};
use vstd::prelude::*;

verus! {

/// Solve captcha.
///
/// Call to `POST /captcha/solve`.
#[derive(Debug)]
pub struct SolveCaptcha<'a> {
    /// The answer to the challenge
    pub captcha_challenge: &'a str,
}

impl<'a> Endpoint for SolveCaptcha<'a> {
    open spec fn call(&self) -> DescriptorView {
        plain_call(
            Method::Post,
            "/captcha/solve"@,
            false,
            PayloadKind::Body,
            Shape::Empty,
        )
    }

    fn descriptor(&self) -> (d: Descriptor) {
        Descriptor::new(
            Method::Post,
            "/captcha/solve".to_owned(),
            false,
            PayloadKind::Body,
            Shape::Empty,
        )
    }
}

} // verus!
