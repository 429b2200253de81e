use vstd::prelude::*;
use vstd::string::*;

verus! {

/// How a call into the backing store failed, as far as the core tells failures apart.
#[derive(Debug, Clone, Copy, PartialEq, Eq, Structural)]
pub enum StoreFailure {
    /// A query that expects one row found none.
    RowNotFound,
    /// An insert broke a uniqueness constraint.
    UniqueViolation,
    /// Any other failure of the store (connectivity, constraint, driver).
    Other,
}

/// Why a bearer token was refused.
#[derive(Debug, Clone, Copy, PartialEq, Eq, Structural)]
pub enum TokenFailure {
    /// Not a three-part signed string, or its parts do not decode to claims.
    Malformed,
    /// The signature does not match the server secret.
    BadSignature,
    /// The signature matches but the expiry lies in the past.
    Expired,
}

impl TokenFailure {
    pub open spec fn text_spec(self) -> Seq<char> {
        match self {
            TokenFailure::Malformed => "InvalidToken"@,
            TokenFailure::BadSignature => "InvalidSignature"@,
            TokenFailure::Expired => "ExpiredSignature"@,
        }
    }

    /// Short name of the failure, used in error messages.
    pub fn text(&self) -> (r: &'static str)
        ensures
            r@ == self.text_spec(),
    {
        match self {
            TokenFailure::Malformed => "InvalidToken",
            TokenFailure::BadSignature => "InvalidSignature",
            TokenFailure::Expired => "ExpiredSignature",
        }
    }
}

/// Every failure a request can end in.
#[derive(Debug, Clone, PartialEq, Eq)]
pub enum AppError {
    Database(StoreFailure),
    Validation(String),
    Authentication { message: String },
    Authorization { message: String },
    NotFound { message: String },
    Conflict { message: String },
    Internal { message: String },
    PasswordHash,
    Jwt(TokenFailure),
    TaskJoin,
}

/// Mathematical value of an [`AppError`]: the same variants, with texts as character sequences.
pub enum ErrorView {
    Database(StoreFailure),
    Validation(Seq<char>),
    Authentication(Seq<char>),
    Authorization(Seq<char>),
    NotFound(Seq<char>),
    Conflict(Seq<char>),
    Internal(Seq<char>),
    PasswordHash,
    Jwt(TokenFailure),
    TaskJoin,
}

impl View for AppError {
    type V = ErrorView;

    open spec fn view(&self) -> ErrorView {
        match self {
            AppError::Database(f) => ErrorView::Database(*f),
            AppError::Validation(m) => ErrorView::Validation(m@),
            AppError::Authentication { message } => ErrorView::Authentication(message@),
            AppError::Authorization { message } => ErrorView::Authorization(message@),
            AppError::NotFound { message } => ErrorView::NotFound(message@),
            AppError::Conflict { message } => ErrorView::Conflict(message@),
            AppError::Internal { message } => ErrorView::Internal(message@),
            AppError::PasswordHash => ErrorView::PasswordHash,
            AppError::Jwt(k) => ErrorView::Jwt(*k),
            AppError::TaskJoin => ErrorView::TaskJoin,
        }
    }
}

impl ErrorView {
    /// HTTP status that reports the failure.
    pub open spec fn status(self) -> u16 {
        match self {
            ErrorView::Database(StoreFailure::RowNotFound) => 404,
            ErrorView::Database(_) => 500,
            ErrorView::Validation(_) => 400,
            ErrorView::Authentication(_) => 401,
            ErrorView::Authorization(_) => 403,
            ErrorView::NotFound(_) => 404,
            ErrorView::Conflict(_) => 409,
            ErrorView::Internal(_) => 500,
            ErrorView::PasswordHash => 500,
            ErrorView::Jwt(_) => 401,
            ErrorView::TaskJoin => 500,
        }
    }

    /// Text shown to the caller. Internal failures (store, hashing, internal errors) are
    /// reported with a fixed text per kind, without their details.
    pub open spec fn message(self) -> Seq<char> {
        match self {
            ErrorView::Database(StoreFailure::RowNotFound) => "请求的资源未找到"@,
            ErrorView::Database(_) => "数据库操作失败"@,
            ErrorView::Validation(m) => "验证错误: "@ + m,
            ErrorView::Authentication(m) => "认证错误: "@ + m,
            ErrorView::Authorization(m) => "授权错误: "@ + m,
            ErrorView::NotFound(m) => "未找到资源: "@ + m,
            ErrorView::Conflict(m) => "冲突错误: "@ + m,
            ErrorView::Internal(_) => "内部服务器错误"@,
            ErrorView::PasswordHash => "密码哈希错误"@,
            ErrorView::Jwt(k) => "JWT错误: "@ + k.text_spec(),
            ErrorView::TaskJoin => "任务执行错误"@,
        }
    }
}

/// Body of an error response.
pub struct ErrorResponse {
    pub error: String,
    pub code: u16,
}

fn prefixed(prefix: &str, text: &str) -> (r: String)
    ensures
        r@ == prefix@ + text@,
{
    prefix.to_owned().concat(text)
}

impl AppError {
    pub fn status_code(&self) -> (r: u16)
        ensures
            r == self@.status(),
    {
        match self {
            AppError::Database(StoreFailure::RowNotFound) => 404,
            AppError::Database(_) => 500,
            AppError::Validation(_) => 400,
            AppError::Authentication { .. } => 401,
            AppError::Authorization { .. } => 403,
            AppError::NotFound { .. } => 404,
            AppError::Conflict { .. } => 409,
            AppError::Internal { .. } => 500,
            AppError::PasswordHash => 500,
            AppError::Jwt(_) => 401,
            AppError::TaskJoin => 500,
        }
    }

    pub fn error_message(&self) -> (r: String)
        ensures
            r@ == self@.message(),
    {
        match self {
            AppError::Database(StoreFailure::RowNotFound) => "请求的资源未找到".to_owned(),
            AppError::Database(_) => "数据库操作失败".to_owned(),
            AppError::Validation(m) => prefixed("验证错误: ", m.as_str()),
            AppError::Authentication { message } => prefixed("认证错误: ", message.as_str()),
            AppError::Authorization { message } => prefixed("授权错误: ", message.as_str()),
            AppError::NotFound { message } => prefixed("未找到资源: ", message.as_str()),
            AppError::Conflict { message } => prefixed("冲突错误: ", message.as_str()),
            AppError::Internal { .. } => "内部服务器错误".to_owned(),
            AppError::PasswordHash => "密码哈希错误".to_owned(),
            AppError::Jwt(k) => prefixed("JWT错误: ", k.text()),
            AppError::TaskJoin => "任务执行错误".to_owned(),
        }
    }

    /// The structured body sent to the caller: the message and the status code.
    pub fn to_response(&self) -> (r: ErrorResponse)
        ensures
            r.error@ == self@.message(),
            r.code == self@.status(),
    {
        ErrorResponse { error: self.error_message(), code: self.status_code() }
    }

    pub fn validation(msg: &str) -> (r: AppError)
        ensures
            r@ == ErrorView::Validation(msg@),
    {
        AppError::Validation(msg.to_owned())
    }

    pub fn authentication(msg: &str) -> (r: AppError)
        ensures
            r@ == ErrorView::Authentication(msg@),
    {
        AppError::Authentication { message: msg.to_owned() }
    }

    pub fn authorization(msg: &str) -> (r: AppError)
        ensures
            r@ == ErrorView::Authorization(msg@),
    {
        AppError::Authorization { message: msg.to_owned() }
    }

    pub fn not_found(msg: &str) -> (r: AppError)
        ensures
            r@ == ErrorView::NotFound(msg@),
    {
        AppError::NotFound { message: msg.to_owned() }
    }

    pub fn conflict(msg: &str) -> (r: AppError)
        ensures
            r@ == ErrorView::Conflict(msg@),
    {
        AppError::Conflict { message: msg.to_owned() }
    }

    pub fn internal(msg: &str) -> (r: AppError)
        ensures
            r@ == ErrorView::Internal(msg@),
    {
        AppError::Internal { message: msg.to_owned() }
    }
}

} // verus!
