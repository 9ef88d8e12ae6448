use crate::api_error::{
    internal_text, is_correlation_id, public_code, set_kind_text, transform_report_text, public_message, transformed, transformed_on_code, ApiError,
    ApiErrorCode, ApiErrorModel,
};
use crate::error_kind::ApiErrorKind;
use vstd::prelude::*;

verus! {

/// An application's own error type that wraps an `ApiError`. Implementers give
/// the conversions to and from the wrapped error and a reference to it; every
/// constructor and operation of `ApiError` then comes by delegation.
pub trait ApiErrorManipulation<C: ApiErrorCode>: Sized {
    /// The error this value wraps.
    spec fn inner(&self) -> ApiErrorModel<C>;

    fn from_api_error(e: ApiError<C>) -> (r: Self)
        ensures
            r.inner() == e@,
    ;

    fn into_api_error(self) -> (r: ApiError<C>)
        ensures
            r@ == self.inner(),
    ;

    fn as_api_error(&self) -> (r: &ApiError<C>)
        ensures
            r@ == self.inner(),
    ;

    fn new(msg: &str, kind: ApiErrorKind, code: C) -> (r: Self)
        ensures
            r.inner().msg == msg@,
            r.inner().kind == kind,
            r.inner().code == code,
            is_correlation_id(r.inner().unique_id),
    {
        Self::from_api_error(ApiError::new(msg, kind, code))
    }

    fn new_private(msg: &str) -> (r: Self)
        ensures
            r.inner().msg == msg@,
            r.inner().kind == ApiErrorKind::PrivateError,
            r.inner().code == C::default_value(),
            is_correlation_id(r.inner().unique_id),
    {
        Self::from_api_error(ApiError::new_private(msg))
    }

    fn new_unauthorized(msg: &str) -> (r: Self)
        ensures
            r.inner().msg == msg@,
            r.inner().kind == ApiErrorKind::Unauthorized,
            r.inner().code == C::default_value(),
            is_correlation_id(r.inner().unique_id),
    {
        Self::from_api_error(ApiError::new_unauthorized(msg))
    }

    fn new_by_kind(kind: ApiErrorKind) -> (r: Self)
        ensures
            r.inner().msg == Seq::<char>::empty(),
            r.inner().kind == kind,
            r.inner().code == C::default_value(),
            is_correlation_id(r.inner().unique_id),
    {
        Self::from_api_error(ApiError::new_by_kind(kind))
    }

    fn new_by_code(code: C) -> (r: Self)
        ensures
            r.inner().msg == Seq::<char>::empty(),
            r.inner().kind == ApiErrorKind::ServerError,
            r.inner().code == code,
            is_correlation_id(r.inner().unique_id),
    {
        Self::from_api_error(ApiError::new_by_code(code))
    }

    fn new_internal_server_error() -> (r: Self)
        ensures
            r.inner().msg == "The server had an internal error."@,
            r.inner().kind == ApiErrorKind::ServerError,
            r.inner().code == C::default_value(),
            is_correlation_id(r.inner().unique_id),
    {
        Self::from_api_error(ApiError::new_internal_server_error())
    }

    fn get_msg_for_internal_use(&self) -> (r: String)
        ensures
            r@ == self.inner().msg,
    {
        self.as_api_error().get_msg_for_internal_use()
    }

    fn get_msg_for_public_use(&self) -> (r: String)
        ensures
            r@ == public_message(self.inner()),
    {
        self.as_api_error().get_msg_for_public_use()
    }

    fn get_kind(&self) -> (r: ApiErrorKind)
        ensures
            r == self.inner().kind,
    {
        self.as_api_error().get_kind()
    }

    fn get_backtrace(&self) -> backtrace::Backtrace {
        self.as_api_error().get_backtrace()
    }

    fn set_kind(&mut self, kind: ApiErrorKind)
        ensures
            final(self).inner() == (ApiErrorModel { kind, ..old(self).inner() }),
    {
        let mut e = self.as_api_error().copy_error();
        e.set_kind(kind);
        *self = Self::from_api_error(e);
    }

    fn get_raw_code_for_internal_use(&self) -> (r: C)
        ensures
            r == self.inner().code,
    {
        self.as_api_error().get_raw_code_for_internal_use()
    }

    fn get_code_for_internal_use(&self) -> (r: u16)
        ensures
            r == self.inner().code.wire_value(),
    {
        self.as_api_error().get_code_for_internal_use()
    }

    fn get_code_for_public_use(&self) -> (r: u16)
        ensures
            r == public_code(self.inner()),
    {
        self.as_api_error().get_code_for_public_use()
    }

    fn get_unique_id(&self) -> (r: String)
        ensures
            r@ == self.inner().unique_id,
    {
        self.as_api_error().get_unique_id()
    }

    fn log_link(&self) -> (r: String)
        ensures
            r@ == "(Error ID: "@ + self.inner().unique_id + ")"@,
    {
        self.as_api_error().log_link()
    }

    fn display_error_for_internal_use(&self) -> (r: String)
        ensures
            r@ == internal_text(self.inner()),
    {
        self.as_api_error().display_error_for_internal_use()
    }

    /// The audit line that changing the kind is logged with.
    fn set_kind_report(&self, kind: ApiErrorKind) -> (r: String)
        ensures
            r@ == set_kind_text(self.inner(), kind),
    {
        self.as_api_error().set_kind_report(kind)
    }

    /// The audit line that `transform_to` is logged with.
    fn transform_report(&self, other: &Self) -> (r: String)
        ensures
            r@ == transform_report_text(self.inner(), other.inner()),
    {
        self.as_api_error().transform_report(other.as_api_error())
    }

    /// The audit line of `transform_on_code`, where the code matches.
    fn transform_on_code_report(&self, code: &C, other: &Self) -> (r: Option<String>)
        ensures
            self.inner().code == *code ==> r.is_some() && r->0@ == transform_report_text(
                self.inner(),
                other.inner(),
            ),
            self.inner().code != *code ==> r.is_none(),
    {
        self.as_api_error().transform_on_code_report(code, other.as_api_error())
    }

    /// The audit line of `transform_code_only`.
    fn transform_code_only_report(&self, code: &C) -> (r: String)
        ensures
            r@ == transform_report_text(self.inner(), ApiErrorModel { code: *code, ..self.inner() }),
    {
        self.as_api_error().transform_code_only_report(code)
    }

    fn transform_on_code(self, code: C, other: Self) -> (r: Self)
        ensures
            r.inner() == transformed_on_code(self.inner(), code, other.inner()),
    {
        let other_error = other.into_api_error();
        Self::from_api_error(self.into_api_error().transform_on_code(code, other_error))
    }

    fn transform_to(self, other: Self) -> (r: Self)
        ensures
            r.inner() == transformed(self.inner(), other.inner()),
    {
        let other_error = other.into_api_error();
        Self::from_api_error(self.into_api_error().transform_to(other_error))
    }

    fn transform_code_only(self, code: C) -> (r: Self)
        ensures
            r.inner() == (ApiErrorModel { code, ..self.inner() }),
    {
        Self::from_api_error(self.into_api_error().transform_code_only(code))
    }
}

/// An `ApiError` is trivially a wrapper of itself.
impl<C: ApiErrorCode> ApiErrorManipulation<C> for ApiError<C> {
    open spec fn inner(&self) -> ApiErrorModel<C> {
        self@
    }

    fn from_api_error(e: ApiError<C>) -> (r: Self) {
        e
    }

    fn into_api_error(self) -> (r: ApiError<C>) {
        self
    }

    fn as_api_error(&self) -> (r: &ApiError<C>) {
        self
    }
}

} // verus!
