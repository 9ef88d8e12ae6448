use vstd::prelude::*;

verus! {

/// Coarse classification of an error: decides its HTTP-style status and
/// whether its details may be shown to a caller.
#[derive(Debug, Clone, Copy, PartialEq, Eq, Structural)]
pub enum ApiErrorKind {
    /// An internal error. HTTP status 500.
    ServerError,
    /// HTTP status 400.
    BadRequest,
    /// HTTP status 401.
    Unauthorized,
    /// HTTP status 403.
    Forbidden,
    /// HTTP status 404.
    NotFound,
    /// HTTP status 422.
    UnprocessableEntity,
    /// An error whose message and code never leave the server. HTTP status 500.
    PrivateError,
}

/// The numeric status of each kind.
pub open spec fn kind_to_status(kind: ApiErrorKind) -> u16 {
    match kind {
        ApiErrorKind::ServerError => 500,
        ApiErrorKind::BadRequest => 400,
        ApiErrorKind::Unauthorized => 401,
        ApiErrorKind::Forbidden => 403,
        ApiErrorKind::NotFound => 404,
        ApiErrorKind::UnprocessableEntity => 422,
        ApiErrorKind::PrivateError => 500,
    }
}

/// The kind of a numeric status; unknown numbers, and 500, fail closed to
/// `PrivateError`.
pub open spec fn status_to_kind(status: u16) -> ApiErrorKind {
    if status == 400 {
        ApiErrorKind::BadRequest
    } else if status == 401 {
        ApiErrorKind::Unauthorized
    } else if status == 403 {
        ApiErrorKind::Forbidden
    } else if status == 404 {
        ApiErrorKind::NotFound
    } else if status == 422 {
        ApiErrorKind::UnprocessableEntity
    } else {
        ApiErrorKind::PrivateError
    }
}

/// The human label of each kind; the private / public distinction is not shown.
pub open spec fn kind_label(kind: ApiErrorKind) -> Seq<char> {
    match kind {
        ApiErrorKind::BadRequest => "Bad Request"@,
        ApiErrorKind::Unauthorized => "Unauthorized"@,
        ApiErrorKind::Forbidden => "Forbidden"@,
        ApiErrorKind::NotFound => "Not Found"@,
        ApiErrorKind::UnprocessableEntity => "Unprocessable Entity"@,
        ApiErrorKind::PrivateError => "Server Error"@,
        ApiErrorKind::ServerError => "Server Error"@,
    }
}

/// The variant name of each kind, as it appears in diagnostic text.
pub open spec fn kind_name(kind: ApiErrorKind) -> Seq<char> {
    match kind {
        ApiErrorKind::ServerError => "ServerError"@,
        ApiErrorKind::BadRequest => "BadRequest"@,
        ApiErrorKind::Unauthorized => "Unauthorized"@,
        ApiErrorKind::Forbidden => "Forbidden"@,
        ApiErrorKind::NotFound => "NotFound"@,
        ApiErrorKind::UnprocessableEntity => "UnprocessableEntity"@,
        ApiErrorKind::PrivateError => "PrivateError"@,
    }
}

impl Default for ApiErrorKind {
    /// Unclassified errors are never disclosed.
    fn default() -> (r: Self)
        ensures
            r == ApiErrorKind::PrivateError,
    {
        ApiErrorKind::PrivateError
    }
}

impl ApiErrorKind {
    /// True for the two kinds that stand for a failure of the server.
    pub fn is_server_error(&self) -> (r: bool)
        ensures
            r == (*self == ApiErrorKind::ServerError || *self == ApiErrorKind::PrivateError),
    {
        *self == ApiErrorKind::ServerError || *self == ApiErrorKind::PrivateError
    }

    /// The numeric HTTP-style status of this kind.
    pub fn to_http_code(&self) -> (r: u16)
        ensures
            r == kind_to_status(*self),
    {
        match self {
            ApiErrorKind::ServerError => 500,
            ApiErrorKind::BadRequest => 400,
            ApiErrorKind::Unauthorized => 401,
            ApiErrorKind::Forbidden => 403,
            ApiErrorKind::NotFound => 404,
            ApiErrorKind::UnprocessableEntity => 422,
            ApiErrorKind::PrivateError => 500,
        }
    }

    /// The kind of a numeric status (total; see `status_to_kind`).
    pub fn from_http_code(status: u16) -> (r: ApiErrorKind)
        ensures
            r == status_to_kind(status),
    {
        match status {
            400 => ApiErrorKind::BadRequest,
            401 => ApiErrorKind::Unauthorized,
            403 => ApiErrorKind::Forbidden,
            404 => ApiErrorKind::NotFound,
            422 => ApiErrorKind::UnprocessableEntity,
            _ => ApiErrorKind::PrivateError,
        }
    }

    /// The short human label of this kind.
    pub fn label(&self) -> (r: &'static str)
        ensures
            r@ == kind_label(*self),
    {
        proof {
            reveal_strlit("Bad Request");
            reveal_strlit("Unauthorized");
            reveal_strlit("Forbidden");
            reveal_strlit("Not Found");
            reveal_strlit("Unprocessable Entity");
            reveal_strlit("Server Error");
        }
        match self {
            ApiErrorKind::BadRequest => "Bad Request",
            ApiErrorKind::Unauthorized => "Unauthorized",
            ApiErrorKind::Forbidden => "Forbidden",
            ApiErrorKind::NotFound => "Not Found",
            ApiErrorKind::UnprocessableEntity => "Unprocessable Entity",
            ApiErrorKind::PrivateError => "Server Error",
            ApiErrorKind::ServerError => "Server Error",
        }
    }

    /// The variant name of this kind.
    pub fn name(&self) -> (r: &'static str)
        ensures
            r@ == kind_name(*self),
    {
        proof {
            reveal_strlit("ServerError");
            reveal_strlit("BadRequest");
            reveal_strlit("Unauthorized");
            reveal_strlit("Forbidden");
            reveal_strlit("NotFound");
            reveal_strlit("UnprocessableEntity");
            reveal_strlit("PrivateError");
        }
        match self {
            ApiErrorKind::ServerError => "ServerError",
            ApiErrorKind::BadRequest => "BadRequest",
            ApiErrorKind::Unauthorized => "Unauthorized",
            ApiErrorKind::Forbidden => "Forbidden",
            ApiErrorKind::NotFound => "NotFound",
            ApiErrorKind::UnprocessableEntity => "UnprocessableEntity",
            ApiErrorKind::PrivateError => "PrivateError",
        }
    }
}

impl From<u16> for ApiErrorKind {
    fn from(status: u16) -> (r: ApiErrorKind) {
        ApiErrorKind::from_http_code(status)
    }
}

impl vstd::std_specs::convert::FromSpecImpl<u16> for ApiErrorKind {
    open spec fn obeys_from_spec() -> bool {
        true
    }

    open spec fn from_spec(status: u16) -> ApiErrorKind {
        status_to_kind(status)
    }
}

impl From<ApiErrorKind> for u16 {
    fn from(kind: ApiErrorKind) -> (r: u16) {
        kind.to_http_code()
    }
}

impl vstd::std_specs::convert::FromSpecImpl<ApiErrorKind> for u16 {
    open spec fn obeys_from_spec() -> bool {
        true
    }

    open spec fn from_spec(kind: ApiErrorKind) -> u16 {
        kind_to_status(kind)
    }
}

/// Decoding the status of a kind gives the kind back, except for the two kinds
/// that share 500: that status always decodes to `PrivateError`.
pub proof fn lemma_status_round_trip(kind: ApiErrorKind)
    ensures
        kind != ApiErrorKind::ServerError ==> status_to_kind(kind_to_status(kind)) == kind,
        kind == ApiErrorKind::ServerError ==> status_to_kind(kind_to_status(kind))
            == ApiErrorKind::PrivateError,
{
}

} // verus!
