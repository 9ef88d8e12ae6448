use crate::error_kind::{kind_name, ApiErrorKind};
use crate::text::{decimal, decimal_string};
use vstd::prelude::*;
use vstd::string::StringExecFns;

verus! {

#[verifier::external_type_specification]
#[verifier::external_body]
pub struct ExBacktrace(backtrace::Backtrace);

/// Number of characters in a correlation id.
pub const ID_LEN: usize = 20;

/// An ASCII letter or digit.
pub open spec fn is_alphanumeric(c: char) -> bool {
    ('a' <= c && c <= 'z') || ('A' <= c && c <= 'Z') || ('0' <= c && c <= '9')
}

/// A well-formed correlation id: exactly `ID_LEN` ASCII letters and digits.
pub open spec fn is_correlation_id(id: Seq<char>) -> bool {
    &&& id.len() == ID_LEN
    &&& forall|i: int| 0 <= i < id.len() ==> is_alphanumeric(#[trigger] id[i])
}

/// Relies on rand's `Alphanumeric` distribution (sampled from the thread-local
/// generator): each character is drawn from `A-Z`, `a-z` and `0-9`.
#[verifier::external_body]
fn random_alphanumeric(len: usize) -> (r: String)
    ensures
        r@.len() == len,
        forall|i: int| 0 <= i < len ==> is_alphanumeric(#[trigger] r@[i]),
{
    rand::distributions::DistString::sample_string(
        &rand::distributions::Alphanumeric,
        &mut rand::thread_rng(),
        len,
    )
}

/// Relies on backtrace's `Backtrace::new_unresolved`: records the frames of the
/// current stack without resolving their symbols.
#[verifier::external_body]
fn capture_unresolved() -> backtrace::Backtrace {
    backtrace::Backtrace::new_unresolved()
}

/// Relies on backtrace's `Clone` for `Backtrace`: a copy of the captured frames.
pub assume_specification[ <backtrace::Backtrace as Clone>::clone ](
    b: &backtrace::Backtrace,
) -> backtrace::Backtrace;

/// Relies on backtrace's `Backtrace::resolve`: fills in the symbols of every frame.
#[verifier::external_body]
fn resolve_backtrace(b: &mut backtrace::Backtrace) {
    b.resolve()
}

/// The capabilities that an application-specific error code offers: a default
/// value, equality, copying and a numeric wire value.
pub trait ApiErrorCode: Sized {
    /// The numeric wire value of this code.
    spec fn wire_value(&self) -> u16;

    /// The code used where none is given.
    spec fn default_value() -> Self;

    fn default_code() -> (r: Self)
        ensures
            r == Self::default_value(),
    ;

    fn wire_code(&self) -> (r: u16)
        ensures
            r == self.wire_value(),
    ;

    fn same_code(&self, other: &Self) -> (r: bool)
        ensures
            r == (*self == *other),
    ;

    fn copy_code(&self) -> (r: Self)
        ensures
            r == *self,
    ;
}

/// A plain numeric code is its own wire value; its default is 0.
impl ApiErrorCode for u16 {
    open spec fn wire_value(&self) -> u16 {
        *self
    }

    open spec fn default_value() -> u16 {
        0
    }

    fn default_code() -> (r: u16) {
        0
    }

    fn wire_code(&self) -> (r: u16) {
        *self
    }

    fn same_code(&self, other: &u16) -> (r: bool) {
        *self == *other
    }

    fn copy_code(&self) -> (r: u16) {
        *self
    }
}

/// The std failures that convert into an `ApiError`.
#[derive(Debug, Clone, Copy, PartialEq, Eq, Structural)]
pub enum StdErrorSource {
    /// A string that is not an integer.
    ParseInt,
    /// A number that does not fit the target type.
    TryFromInt,
    /// A conversion that cannot fail.
    Infallible,
    /// An input / output failure.
    Io,
    /// Bytes that are not UTF-8.
    Utf8,
    /// The payload of a caught panic.
    Panic,
}

/// The message of an error made from a std failure with the given text.
pub open spec fn std_error_message(source: StdErrorSource, detail: Seq<char>) -> Seq<char> {
    match source {
        StdErrorSource::ParseInt => "Could not parse int."@,
        StdErrorSource::TryFromInt => "Failed to convert number."@,
        StdErrorSource::Infallible => "This error can never happen."@,
        StdErrorSource::Io => "IO Error"@,
        StdErrorSource::Utf8 => "Utf8Error Error: "@ + detail,
        StdErrorSource::Panic => "Internal Error"@,
    }
}

/// The kind of an error made from a std failure: bad input is the caller's
/// fault, the rest the server's.
pub open spec fn std_error_kind(source: StdErrorSource) -> ApiErrorKind {
    match source {
        StdErrorSource::ParseInt => ApiErrorKind::BadRequest,
        StdErrorSource::Utf8 => ApiErrorKind::BadRequest,
        StdErrorSource::Panic => ApiErrorKind::BadRequest,
        _ => ApiErrorKind::ServerError,
    }
}

/// What an error holds, apart from its captured stack.
pub struct ApiErrorModel<C> {
    pub msg: Seq<char>,
    pub kind: ApiErrorKind,
    pub code: C,
    pub unique_id: Seq<char>,
}

/// An application error: a message for internal use, a classification, an
/// application-specific code, a correlation id and the stack where it was made.
#[derive(Debug, Clone)]
pub struct ApiError<C> {
    msg: String,
    /// The classification; decides the HTTP status and what may be disclosed.
    pub kind: ApiErrorKind,
    code: C,
    unique_id: String,
    backtrace: backtrace::Backtrace,
}

impl<C> View for ApiError<C> {
    type V = ApiErrorModel<C>;

    closed spec fn view(&self) -> ApiErrorModel<C> {
        ApiErrorModel { msg: self.msg@, kind: self.kind, code: self.code, unique_id: self.unique_id@ }
    }
}

impl<C: ApiErrorCode> PartialEq for ApiError<C> {
    /// Equal when message, kind, code and correlation id are; the stack is not compared.
    fn eq(&self, other: &Self) -> (r: bool) {
        let r = self.msg == other.msg && self.kind == other.kind && self.code.same_code(&other.code)
            && self.unique_id == other.unique_id;
        proof {
            if r {
                assert(self@ == other@);
            }
        }
        r
    }
}

impl<C: ApiErrorCode> vstd::std_specs::cmp::PartialEqSpecImpl for ApiError<C> {
    open spec fn obeys_eq_spec() -> bool {
        true
    }

    open spec fn eq_spec(&self, other: &Self) -> bool {
        self@ == other@
    }
}

impl<C: ApiErrorCode> ApiError<C> {
    /// Builds an error with a fresh correlation id and captures the current stack.
    pub fn new(msg: &str, kind: ApiErrorKind, code: C) -> (r: Self)
        ensures
            r@.msg == msg@,
            r@.kind == kind,
            r@.code == code,
            is_correlation_id(r@.unique_id),
    {
        let mut e = ApiError {
            msg: String::from_str(msg),
            kind,
            code,
            unique_id: String::new(),
            backtrace: capture_unresolved(),
        };
        let _ = e.create_new_issue_id();
        e
    }

    /// A private error: neither its message nor its code is ever disclosed.
    pub fn new_private(msg: &str) -> (r: Self)
        ensures
            r@.msg == msg@,
            r@.kind == ApiErrorKind::PrivateError,
            r@.code == C::default_value(),
            is_correlation_id(r@.unique_id),
    {
        Self::new(msg, ApiErrorKind::PrivateError, C::default_code())
    }

    pub fn new_unauthorized(msg: &str) -> (r: Self)
        ensures
            r@.msg == msg@,
            r@.kind == ApiErrorKind::Unauthorized,
            r@.code == C::default_value(),
            is_correlation_id(r@.unique_id),
    {
        Self::new(msg, ApiErrorKind::Unauthorized, C::default_code())
    }

    /// An error with an empty message and the default code.
    pub fn new_by_kind(kind: ApiErrorKind) -> (r: Self)
        ensures
            r@.msg == Seq::<char>::empty(),
            r@.kind == kind,
            r@.code == C::default_value(),
            is_correlation_id(r@.unique_id),
    {
        proof {
            reveal_strlit("");
        }
        Self::new("", kind, C::default_code())
    }

    /// A server error with an empty message and the given code.
    pub fn new_by_code(code: C) -> (r: Self)
        ensures
            r@.msg == Seq::<char>::empty(),
            r@.kind == ApiErrorKind::ServerError,
            r@.code == code,
            is_correlation_id(r@.unique_id),
    {
        proof {
            reveal_strlit("");
        }
        Self::new("", ApiErrorKind::ServerError, code)
    }

    pub fn new_internal_server_error() -> (r: Self)
        ensures
            r@.msg == "The server had an internal error."@,
            r@.kind == ApiErrorKind::ServerError,
            r@.code == C::default_value(),
            is_correlation_id(r@.unique_id),
    {
        Self::new("The server had an internal error.", ApiErrorKind::ServerError, C::default_code())
    }

    /// The error that a std failure converts into; `detail` is the failure's
    /// own text, which only a UTF-8 failure keeps in the message.
    pub fn from_std_error(source: StdErrorSource, detail: &str) -> (r: Self)
        ensures
            r@.msg == std_error_message(source, detail@),
            r@.kind == std_error_kind(source),
            r@.code == C::default_value(),
            is_correlation_id(r@.unique_id),
    {
        match source {
            StdErrorSource::ParseInt => {
                Self::new("Could not parse int.", ApiErrorKind::BadRequest, C::default_code())
            },
            StdErrorSource::TryFromInt => {
                Self::new("Failed to convert number.", ApiErrorKind::ServerError, C::default_code())
            },
            StdErrorSource::Infallible => {
                Self::new("This error can never happen.", ApiErrorKind::ServerError, C::default_code())
            },
            StdErrorSource::Io => Self::new("IO Error", ApiErrorKind::ServerError, C::default_code()),
            StdErrorSource::Utf8 => {
                let mut msg = String::from_str("Utf8Error Error: ");
                msg.append(detail);
                Self::new(msg.as_str(), ApiErrorKind::BadRequest, C::default_code())
            },
            StdErrorSource::Panic => {
                Self::new("Internal Error", ApiErrorKind::BadRequest, C::default_code())
            },
        }
    }

    /// A resolved copy of the stack captured at construction; the stored copy
    /// stays unresolved.
    pub fn get_backtrace(&self) -> backtrace::Backtrace {
        let mut b = self.backtrace.clone();
        resolve_backtrace(&mut b);
        b
    }

    /// The full message, for logs only.
    pub fn get_msg_for_internal_use(&self) -> (r: String)
        ensures
            r@ == self@.msg,
    {
        self.msg.clone()
    }

    /// The message that may be shown to a caller.
    pub fn get_msg_for_public_use(&self) -> (r: String)
        ensures
            r@ == public_message(self@),
    {
        if self.kind == ApiErrorKind::PrivateError {
            String::from_str("Internal server error")
        } else {
            self.msg.clone()
        }
    }

    pub fn get_kind(&self) -> (r: ApiErrorKind)
        ensures
            r == self@.kind,
    {
        self.kind
    }

    /// Changes the classification; everything else stays.
    pub fn set_kind(&mut self, kind: ApiErrorKind)
        ensures
            final(self)@ == (ApiErrorModel { kind, ..old(self)@ }),
    {
        self.kind = kind;
    }

    pub fn get_raw_code_for_internal_use(&self) -> (r: C)
        ensures
            r == self@.code,
    {
        self.code.copy_code()
    }

    /// The wire value of the code, for logs only.
    pub fn get_code_for_internal_use(&self) -> (r: u16)
        ensures
            r == self@.code.wire_value(),
    {
        self.code.wire_code()
    }

    /// The wire value that may be shown to a caller.
    pub fn get_code_for_public_use(&self) -> (r: u16)
        ensures
            r == public_code(self@),
    {
        if self.kind == ApiErrorKind::PrivateError {
            0
        } else {
            self.code.wire_code()
        }
    }

    /// The correlation id, which links the log lines of one incident.
    pub fn get_unique_id(&self) -> (r: String)
        ensures
            r@ == self@.unique_id,
    {
        self.unique_id.clone()
    }

    /// The correlation id in the form embedded in log lines.
    pub fn log_link(&self) -> (r: String)
        ensures
            r@ == "(Error ID: "@ + self@.unique_id + ")"@,
    {
        let mut r = String::from_str("(Error ID: ");
        r.append(self.unique_id.as_str());
        r.append(")");
        r
    }

    /// All fields, for logs only.
    pub fn display_error_for_internal_use(&self) -> (r: String)
        ensures
            r@ == internal_text(self@),
    {
        let mut r = String::from_str("Internal Error (ID: `");
        r.append(self.unique_id.as_str());
        r.append("`, Code: `");
        let code = decimal_string(self.code.wire_code() as u64);
        r.append(code.as_str());
        r.append("`, Kind: `");
        r.append(self.kind.name());
        r.append("`): ");
        r.append(self.msg.as_str());
        r
    }

    /// The text shown to a caller: the correlation id and the public message.
    pub fn to_string(&self) -> (r: String)
        ensures
            r@ == "API Error (ID: `"@ + self@.unique_id + "`): "@ + public_message(self@),
    {
        let mut r = String::from_str("API Error (ID: `");
        r.append(self.unique_id.as_str());
        r.append("`): ");
        let m = self.get_msg_for_public_use();
        r.append(m.as_str());
        r
    }

    /// Rewrites `self` into `other` only where the code of `self` is `code`.
    pub fn transform_on_code(self, code: C, other: Self) -> (r: Self)
        ensures
            r@ == transformed_on_code(self@, code, other@),
    {
        if self.code.same_code(&code) {
            Self::transform_to(self, other)
        } else {
            self
        }
    }

    /// `other`, keeping the correlation id of `self` so that earlier log lines
    /// still lead to the incident.
    pub fn transform_to(self, other: Self) -> (r: Self)
        ensures
            r@ == transformed(self@, other@),
    {
        let mut other = other;
        other.unique_id = self.unique_id;
        other
    }

    /// `self` with only its code replaced.
    pub fn transform_code_only(self, code: C) -> (r: Self)
        ensures
            r@ == (ApiErrorModel { code, ..self@ }),
    {
        let new_error = ApiError {
            msg: self.msg.clone(),
            kind: self.kind,
            code,
            unique_id: self.unique_id.clone(),
            backtrace: self.backtrace.clone(),
        };
        self.transform_to(new_error)
    }

    /// The audit line that rewriting `self` into `other` is logged with: each
    /// field that changes, or that none does.
    pub fn transform_report(&self, other: &Self) -> (r: String)
        ensures
            r@ == transform_report_text(self@, other@),
    {
        let mut id_row = String::new();
        if !other.unique_id.as_str().is_empty() {
            append_change(&mut id_row, "\n- id  : `", other.unique_id.as_str(), self.unique_id.as_str());
        }
        assert(id_row@ =~= id_change(self@, other@));
        let mut changes = String::new();
        if self.msg != other.msg {
            append_change(&mut changes, "\n- msg : `", self.msg.as_str(), other.msg.as_str());
        }
        assert(changes@ =~= msg_change(self@, other@));
        let ghost s2 = changes@;
        if self.kind != other.kind {
            append_change(&mut changes, "\n- kind: `", self.kind.name(), other.kind.name());
        }
        assert(changes@ =~= s2 + kind_change(self@, other@));
        let ghost s3 = changes@;
        if !self.code.same_code(&other.code) {
            let a = decimal_string(self.code.wire_code() as u64);
            let b = decimal_string(other.code.wire_code() as u64);
            append_change(&mut changes, "\n- code: `", a.as_str(), b.as_str());
        }
        assert(changes@ =~= s3 + code_change(self@, other@));
        assert(changes@ =~= change_lines(self@, other@));
        let mut r = String::from_str("Transforming internal error (");
        r.append(self.unique_id.as_str());
        r.append("): ");
        if changes.as_str().is_empty() {
            r.append("No values changed");
            r.append(id_row.as_str());
        } else {
            r.append(id_row.as_str());
            r.append(changes.as_str());
        }
        r
    }

    /// A copy of this error, stack included.
    pub(crate) fn copy_error(&self) -> (r: Self)
        ensures
            r@ == self@,
    {
        ApiError {
            msg: self.msg.clone(),
            kind: self.kind,
            code: self.code.copy_code(),
            unique_id: self.unique_id.clone(),
            backtrace: self.backtrace.clone(),
        }
    }

    /// The audit line that changing the kind to `kind` is logged with.
    pub fn set_kind_report(&self, kind: ApiErrorKind) -> (r: String)
        ensures
            r@ == set_kind_text(self@, kind),
    {
        let mut r = String::from_str("Changed internal error (");
        r.append(self.unique_id.as_str());
        r.append("): kind: `");
        r.append(self.kind.name());
        r.append("`->`");
        r.append(kind.name());
        r.append("`");
        r
    }

    /// The audit line of `transform_on_code`: the transform's line where the
    /// code matches, none where the error is left as it is.
    pub fn transform_on_code_report(&self, code: &C, other: &Self) -> (r: Option<String>)
        ensures
            self@.code == *code ==> r.is_some() && r->0@ == transform_report_text(self@, other@),
            self@.code != *code ==> r.is_none(),
    {
        if self.code.same_code(code) {
            Some(self.transform_report(other))
        } else {
            None
        }
    }

    /// The audit line of `transform_code_only`.
    pub fn transform_code_only_report(&self, code: &C) -> (r: String)
        ensures
            r@ == transform_report_text(self@, ApiErrorModel { code: *code, ..self@ }),
    {
        let mut changed = self.copy_error();
        changed.code = code.copy_code();
        assert(changed@ == (ApiErrorModel { code: *code, ..self@ }));
        self.transform_report(&changed)
    }

    /// Gives the error a fresh correlation id; an error that has one keeps it.
    /// An error that has an id keeps it, and the second assignment is
    /// reported: the result is then the diagnostic to log.
    fn create_new_issue_id(&mut self) -> (report: Option<String>)
        ensures
            report.is_some() == (old(self)@.unique_id.len() != 0),
            report.is_some() ==> report->0@ == "InternalError already has an issue id."@,
            old(self)@.unique_id.len() == 0 ==> is_correlation_id(final(self)@.unique_id),
            old(self)@.unique_id.len() != 0 ==> final(self)@.unique_id == old(self)@.unique_id,
            final(self)@.msg == old(self)@.msg,
            final(self)@.kind == old(self)@.kind,
            final(self)@.code == old(self)@.code,
    {
        if !self.unique_id.as_str().is_empty() {
            return Some(String::from_str("InternalError already has an issue id."));
        }
        self.unique_id = random_alphanumeric(ID_LEN);
        None
    }
}

/// Every field of an error, as written to logs.
pub open spec fn internal_text<C: ApiErrorCode>(e: ApiErrorModel<C>) -> Seq<char> {
    "Internal Error (ID: `"@ + e.unique_id + "`, Code: `"@ + decimal(e.code.wire_value() as nat)
        + "`, Kind: `"@ + kind_name(e.kind) + "`): "@ + e.msg
}

/// The audit line of changing the kind of `e` to `kind`.
pub open spec fn set_kind_text<C>(e: ApiErrorModel<C>, kind: ApiErrorKind) -> Seq<char> {
    "Changed internal error ("@ + e.unique_id + "): kind: `"@ + kind_name(e.kind) + "`->`"@
        + kind_name(kind) + "`"@
}

/// The message shown to callers: nothing of a private error leaves the server.
pub open spec fn public_message<C>(e: ApiErrorModel<C>) -> Seq<char> {
    if e.kind == ApiErrorKind::PrivateError {
        "Internal server error"@
    } else {
        e.msg
    }
}

/// The code shown to callers: a private error's code is withheld as 0.
pub open spec fn public_code<C: ApiErrorCode>(e: ApiErrorModel<C>) -> u16 {
    if e.kind == ApiErrorKind::PrivateError {
        0
    } else {
        e.code.wire_value()
    }
}

/// `other`, carrying the correlation id of `base`.
pub open spec fn transformed<C>(base: ApiErrorModel<C>, other: ApiErrorModel<C>) -> ApiErrorModel<C> {
    ApiErrorModel { unique_id: base.unique_id, ..other }
}

/// `base` rewritten into `other` when its code is `code`, else `base`.
pub open spec fn transformed_on_code<C>(
    base: ApiErrorModel<C>,
    code: C,
    other: ApiErrorModel<C>,
) -> ApiErrorModel<C> {
    if base.code == code {
        transformed(base, other)
    } else {
        base
    }
}

/// One line of a transform's audit: a field's old and new value.
pub open spec fn change_line(label: Seq<char>, from: Seq<char>, to: Seq<char>) -> Seq<char> {
    label + from + "`->`"@ + to + "`"@
}

/// The id line: `other`'s own id, where it has one, is replaced by `base`'s.
pub open spec fn id_change<C>(base: ApiErrorModel<C>, other: ApiErrorModel<C>) -> Seq<char> {
    if other.unique_id.len() > 0 {
        change_line("\n- id  : `"@, other.unique_id, base.unique_id)
    } else {
        Seq::empty()
    }
}

pub open spec fn msg_change<C>(base: ApiErrorModel<C>, other: ApiErrorModel<C>) -> Seq<char> {
    if base.msg != other.msg {
        change_line("\n- msg : `"@, base.msg, other.msg)
    } else {
        Seq::empty()
    }
}

pub open spec fn kind_change<C>(base: ApiErrorModel<C>, other: ApiErrorModel<C>) -> Seq<char> {
    if base.kind != other.kind {
        change_line("\n- kind: `"@, kind_name(base.kind), kind_name(other.kind))
    } else {
        Seq::empty()
    }
}

pub open spec fn code_change<C: ApiErrorCode>(base: ApiErrorModel<C>, other: ApiErrorModel<C>) -> Seq<char> {
    if base.code != other.code {
        change_line(
            "\n- code: `"@,
            decimal(base.code.wire_value() as nat),
            decimal(other.code.wire_value() as nat),
        )
    } else {
        Seq::empty()
    }
}

/// The lines that list which fields a transform changes, in the order
/// message, kind, code.
pub open spec fn change_lines<C: ApiErrorCode>(base: ApiErrorModel<C>, other: ApiErrorModel<C>) -> Seq<char> {
    msg_change(base, other) + kind_change(base, other) + code_change(base, other)
}

fn append_change(out: &mut String, label: &str, from: &str, to: &str)
    ensures
        final(out)@ == old(out)@ + change_line(label@, from@, to@),
{
    out.append(label);
    out.append(from);
    out.append("`->`");
    out.append(to);
    out.append("`");
    assert(final(out)@ =~= old(out)@ + change_line(label@, from@, to@));
}

/// The audit line of rewriting `base` into `other`: the id row where `other`
/// had an id of its own, then each field that changes; where message, kind
/// and code all stay, the note "No values changed" stands before the id row.
pub open spec fn transform_report_text<C: ApiErrorCode>(
    base: ApiErrorModel<C>,
    other: ApiErrorModel<C>,
) -> Seq<char> {
    let fields = change_lines(base, other);
    "Transforming internal error ("@ + base.unique_id + "): "@ + (if fields.len() == 0 {
        "No values changed"@ + id_change(base, other)
    } else {
        id_change(base, other) + fields
    })
}

/// Whatever a private error holds, a caller is shown code 0 and the phrase
/// "Internal server error".
pub proof fn lemma_private_is_withheld<C: ApiErrorCode>(e: ApiErrorModel<C>)
    requires
        e.kind == ApiErrorKind::PrivateError,
    ensures
        public_code(e) == 0,
        public_message(e) == "Internal server error"@,
{
}

/// A transform always keeps the correlation id of the error it starts from,
/// whatever id the replacement had.
pub proof fn lemma_transform_keeps_id<C>(base: ApiErrorModel<C>, other: ApiErrorModel<C>)
    ensures
        transformed(base, other).unique_id == base.unique_id,
        transformed(base, other).msg == other.msg,
        transformed(base, other).kind == other.kind,
        transformed(base, other).code == other.code,
{
}

/// A conditional transform leaves an error with another code as it is, and is a
/// plain transform on a matching code.
pub proof fn lemma_transform_on_code<C>(base: ApiErrorModel<C>, code: C, other: ApiErrorModel<C>)
    ensures
        base.code != code ==> transformed_on_code(base, code, other) == base,
        base.code == code ==> transformed_on_code(base, code, other) == transformed(base, other),
        transformed_on_code(base, code, other).unique_id == base.unique_id,
{
}

/// A well-formed correlation id, once given, survives every change an error
/// can go through: a transform, a conditional transform, a new code or a new
/// kind all leave the receiver's id in place.
pub proof fn lemma_correlation_id_kept<C>(
    base: ApiErrorModel<C>,
    code: C,
    other: ApiErrorModel<C>,
    kind: ApiErrorKind,
)
    requires
        is_correlation_id(base.unique_id),
    ensures
        is_correlation_id(transformed(base, other).unique_id),
        is_correlation_id(transformed_on_code(base, code, other).unique_id),
        is_correlation_id((ApiErrorModel { code, ..base }).unique_id),
        is_correlation_id((ApiErrorModel { kind, ..base }).unique_id),
{
}

} // verus!
