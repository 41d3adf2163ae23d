//! HTTP status codes and the classes they fall into.

use crate::text::{decimal, decimal_text};
use vstd::prelude::*;

verus! {

/// The status code of an HTTP response.
#[derive(Debug, Clone, Copy, PartialEq, Eq, Structural)]
pub struct HttpStatus(pub u16);

impl View for HttpStatus {
    type V = int;

    open spec fn view(&self) -> int {
        self.0 as int
    }
}

impl From<u16> for HttpStatus {
    fn from(status: u16) -> (r: Self) {
        HttpStatus(status)
    }
}

impl vstd::std_specs::convert::FromSpecImpl<u16> for HttpStatus {
    open spec fn obeys_from_spec() -> bool {
        true
    }

    open spec fn from_spec(status: u16) -> Self {
        HttpStatus(status)
    }
}

impl HttpStatus {
    /// Whether the code lies in 100..=199.
    pub open spec fn spec_is_informational(&self) -> bool {
        100 <= self@ < 200
    }

    /// Whether the code lies in 200..=299.
    pub open spec fn spec_is_success(&self) -> bool {
        200 <= self@ < 300
    }

    /// Whether the code lies in 300..=399.
    pub open spec fn spec_is_redirection(&self) -> bool {
        300 <= self@ < 400
    }

    /// Whether the code lies in 400..=499.
    pub open spec fn spec_is_client_error(&self) -> bool {
        400 <= self@ < 500
    }

    /// Whether the code lies in 500..=599.
    pub open spec fn spec_is_server_error(&self) -> bool {
        500 <= self@ < 600
    }

    /// Whether a response with this code is refused instead of decoded.
    pub open spec fn spec_is_failure(&self) -> bool {
        self.spec_is_client_error() || self.spec_is_server_error()
    }

    /// The numeric code.
    #[inline]
    pub fn status(&self) -> (code: u16)
        ensures
            code == self@,
    {
        self.0
    }

    /// The code written in decimal.
    pub fn to_string(&self) -> (r: String)
        ensures
            r@ == decimal(self@ as nat),
    {
        decimal_text(self.0)
    }

    /// Check if status is within 100-199.
    #[inline]
    #[verifier::when_used_as_spec(spec_is_informational)]
    pub fn is_informational(&self) -> (b: bool)
        ensures
            b == self.spec_is_informational(),
    {
        200 > self.0 && self.0 >= 100
    }

    /// Check if status is within 200-299.
    #[inline]
    #[verifier::when_used_as_spec(spec_is_success)]
    pub fn is_success(&self) -> (b: bool)
        ensures
            b == self.spec_is_success(),
    {
        300 > self.0 && self.0 >= 200
    }

    /// Check if status is within 300-399.
    #[inline]
    #[verifier::when_used_as_spec(spec_is_redirection)]
    pub fn is_redirection(&self) -> (b: bool)
        ensures
            b == self.spec_is_redirection(),
    {
        400 > self.0 && self.0 >= 300
    }

    /// Check if status is within 400-499.
    #[inline]
    #[verifier::when_used_as_spec(spec_is_client_error)]
    pub fn is_client_error(&self) -> (b: bool)
        ensures
            b == self.spec_is_client_error(),
    {
        500 > self.0 && self.0 >= 400
    }

    /// Check if status is within 500-599.
    #[inline]
    #[verifier::when_used_as_spec(spec_is_server_error)]
    pub fn is_server_error(&self) -> (b: bool)
        ensures
            b == self.spec_is_server_error(),
    {
        600 > self.0 && self.0 >= 500
    }
}

} // verus!
