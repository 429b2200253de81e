use vstd::prelude::*;
use vstd::string::*;

use crate::errors::{AppError, ErrorView};
use crate::validation::{
    add_if, char_len_within, format_validation_errors, length_within, problems_of, report, validated,
    username_chars_ok, username_pattern_matches, FieldError, Problem,
};

verus! {

/// Appends `(field, message)` to `errors` when `ok` is false.
fn push_if(errors: &mut Vec<FieldError>, ok: bool, field: &'static str, message: &'static str)
    ensures
        problems_of(final(errors)@) == add_if(problems_of(old(errors)@), ok, field@, message@),
{
    if !ok {
        errors.push(FieldError { field, message });
        proof {
            assert(problems_of(final(errors)@) =~= problems_of(old(errors)@).push((field@, message@)));
        }
    }
}

/// Turns a list of broken rules into `Ok` when it is empty, `Err` with the list otherwise.
fn outcome(errors: Vec<FieldError>) -> (r: Result<(), Vec<FieldError>>)
    ensures
        r is Ok <==> errors@.len() == 0,
        r matches Err(e) ==> e@ == errors@,
{
    if errors.len() == 0 {
        Ok(())
    } else {
        Err(errors)
    }
}

/// Query parameters of a listing: 1-based page number and page size.
#[derive(Debug, Clone, Copy, PartialEq, Eq)]
pub struct Pagination {
    pub page: u64,
    pub page_size: u64,
}

pub fn default_page() -> (r: u64)
    ensures
        r == 1,
{
    1
}

pub fn default_page_size() -> (r: u64)
    ensures
        r == 10,
{
    10
}

/// Number of pages of `page_size` items that `total` items fill, the last one possibly partial.
pub open spec fn page_count(total: int, page_size: int) -> int {
    if total % page_size == 0 {
        total / page_size
    } else {
        total / page_size + 1
    }
}

impl Pagination {
    pub open spec fn problems(self) -> Seq<Problem> {
        let found0 = Seq::<Problem>::empty();
        let found1 = add_if(found0, 1 <= self.page <= 1000, "page"@, "页码必须在 1-1000 之间"@);
        add_if(found1, 1 <= self.page_size <= 100, "page_size"@, "每页数量必须在 1-100 之间"@)
    }

    pub open spec fn is_valid(self) -> bool {
        1 <= self.page <= 1000 && 1 <= self.page_size <= 100
    }

    pub fn validate(&self) -> (r: Result<(), Vec<FieldError>>)
        ensures
            r is Ok <==> self.problems().len() == 0,
            r matches Err(e) ==> problems_of(e@) == self.problems(),
            r is Ok <==> self.is_valid(),
    {
        let mut errors: Vec<FieldError> = Vec::new();
        proof {
            assert(problems_of(errors@) =~= Seq::<Problem>::empty());
        }
        push_if(&mut errors, 1 <= self.page && self.page <= 1000, "page", "页码必须在 1-1000 之间");
        push_if(
            &mut errors,
            1 <= self.page_size && self.page_size <= 100,
            "page_size",
            "每页数量必须在 1-100 之间",
        );
        outcome(errors)
    }

    /// Checks the parameters, reporting broken rules as a validation failure.
    pub fn check(&self) -> (r: Result<(), AppError>)
        ensures
            r is Ok <==> self.is_valid(),
            r matches Err(e) ==> e@ == ErrorView::Validation("分页参数"@ + report(self.problems())),
    {
        match self.validate() {
            Ok(()) => Ok(()),
            Err(errors) => {
                let text = format_validation_errors(&errors);
                Err(AppError::Validation("分页参数".to_owned().concat(text.as_str())))
            },
        }
    }

    /// Number of items that come before the requested page.
    pub fn offset(&self) -> (r: u64)
        requires
            self.is_valid(),
        ensures
            r == (self.page - 1) * self.page_size,
    {
        proof {
            assert((self.page - 1) * self.page_size <= 999 * 100) by (nonlinear_arith)
                requires
                    1 <= self.page <= 1000,
                    1 <= self.page_size <= 100,
            ;
        }
        (self.page - 1) * self.page_size
    }

    /// Number of pages that `total` items fill at this page size.
    pub fn total_pages(&self, total: u64) -> (r: u64)
        requires
            self.is_valid(),
        ensures
            r == page_count(total as int, self.page_size as int),
    {
        let q = total / self.page_size;
        if total % self.page_size == 0 {
            q
        } else {
            proof {
                assert(q < total || q == 0) by (nonlinear_arith)
                    requires
                        q == total / self.page_size,
                        self.page_size >= 1,
                        total % self.page_size != 0,
                ;
            }
            q + 1
        }
    }
}

/// Body of a request that creates or replaces a post.
#[derive(Debug, Clone)]
pub struct CreatePost {
    pub title: String,
    pub content: String,
    pub tags: String,
    pub copyright: String,
}

impl CreatePost {
    /// Validates the body, reporting every broken rule in one validation failure.
    pub fn check(&self) -> (r: Result<(), AppError>)
        ensures
            r is Ok <==> self.problems().len() == 0,
            r matches Err(e) ==> e@ == ErrorView::Validation(report(self.problems())),
    {
        validated(self.validate())
    }

    pub open spec fn problems(self) -> Seq<Problem> {
        let found0 = Seq::<Problem>::empty();
        let found1 = add_if(
            found0,
            char_len_within(self.title@, 1, 200),
            "title"@,
            "标题长度必须在 1-200 字符之间"@,
        );
        let found2 = add_if(
            found1,
            char_len_within(self.content@, 1, 10000),
            "content"@,
            "内容长度必须在 1-10000 字符之间"@,
        );
        let found3 = add_if(
            found2,
            char_len_within(self.tags@, 0, 200),
            "tags"@,
            "标签长度不能超过 200 字符"@,
        );
        add_if(
            found3,
            char_len_within(self.copyright@, 0, 200),
            "copyright"@,
            "版权信息长度不能超过 200 字符"@,
        )
    }

    pub fn validate(&self) -> (r: Result<(), Vec<FieldError>>)
        ensures
            r is Ok <==> self.problems().len() == 0,
            r matches Err(e) ==> problems_of(e@) == self.problems(),
    {
        let mut errors: Vec<FieldError> = Vec::new();
        proof {
            assert(problems_of(errors@) =~= Seq::<Problem>::empty());
        }
        let ok = length_within(self.title.as_str(), 1, 200);
        push_if(&mut errors, ok, "title", "标题长度必须在 1-200 字符之间");
        let ok = length_within(self.content.as_str(), 1, 10000);
        push_if(&mut errors, ok, "content", "内容长度必须在 1-10000 字符之间");
        let ok = length_within(self.tags.as_str(), 0, 200);
        push_if(&mut errors, ok, "tags", "标签长度不能超过 200 字符");
        let ok = length_within(self.copyright.as_str(), 0, 200);
        push_if(&mut errors, ok, "copyright", "版权信息长度不能超过 200 字符");
        outcome(errors)
    }
}

/// Body of a request that creates or replaces a comment.
#[derive(Debug, Clone)]
pub struct CreateComment {
    pub content: String,
}

impl CreateComment {
    /// Validates the body, reporting every broken rule in one validation failure.
    pub fn check(&self) -> (r: Result<(), AppError>)
        ensures
            r is Ok <==> self.problems().len() == 0,
            r matches Err(e) ==> e@ == ErrorView::Validation(report(self.problems())),
    {
        validated(self.validate())
    }

    pub open spec fn problems(self) -> Seq<Problem> {
        add_if(
            Seq::<Problem>::empty(),
            char_len_within(self.content@, 1, 1000),
            "content"@,
            "评论内容长度必须在 1-1000 字符之间"@,
        )
    }

    pub fn validate(&self) -> (r: Result<(), Vec<FieldError>>)
        ensures
            r is Ok <==> self.problems().len() == 0,
            r matches Err(e) ==> problems_of(e@) == self.problems(),
    {
        let mut errors: Vec<FieldError> = Vec::new();
        proof {
            assert(problems_of(errors@) =~= Seq::<Problem>::empty());
        }
        let ok = length_within(self.content.as_str(), 1, 1000);
        push_if(&mut errors, ok, "content", "评论内容长度必须在 1-1000 字符之间");
        outcome(errors)
    }
}

/// A row of the user table. The password hash never leaves the server.
#[derive(Debug, Clone)]
pub struct User {
    pub id: i64,
    pub username: String,
    pub password_hash: String,
    pub role: String,
}

/// Body of a registration request.
#[derive(Debug, Clone)]
pub struct RegisterUser {
    pub username: String,
    pub password: String,
}

impl RegisterUser {
    /// Validates the body, reporting every broken rule in one validation failure.
    pub fn check(&self) -> (r: Result<(), AppError>)
        ensures
            r is Ok <==> self.problems().len() == 0,
            r matches Err(e) ==> e@ == ErrorView::Validation(report(self.problems())),
    {
        validated(self.validate())
    }

    pub open spec fn problems(self) -> Seq<Problem> {
        let found0 = Seq::<Problem>::empty();
        let found1 = add_if(
            found0,
            char_len_within(self.username@, 3, 30),
            "username"@,
            "用户名长度必须在 3-30 字符之间"@,
        );
        let found2 = add_if(
            found1,
            username_chars_ok(self.username@),
            "username"@,
            "用户名只能包含字母、数字和下划线"@,
        );
        add_if(
            found2,
            char_len_within(self.password@, 6, 100),
            "password"@,
            "密码长度必须在 6-100 字符之间"@,
        )
    }

    pub fn validate(&self) -> (r: Result<(), Vec<FieldError>>)
        ensures
            r is Ok <==> self.problems().len() == 0,
            r matches Err(e) ==> problems_of(e@) == self.problems(),
    {
        let mut errors: Vec<FieldError> = Vec::new();
        proof {
            assert(problems_of(errors@) =~= Seq::<Problem>::empty());
        }
        let ok = length_within(self.username.as_str(), 3, 30);
        push_if(&mut errors, ok, "username", "用户名长度必须在 3-30 字符之间");
        let ok = username_pattern_matches(self.username.as_str());
        push_if(&mut errors, ok, "username", "用户名只能包含字母、数字和下划线");
        let ok = length_within(self.password.as_str(), 6, 100);
        push_if(&mut errors, ok, "password", "密码长度必须在 6-100 字符之间");
        outcome(errors)
    }
}

/// Body of a login request.
#[derive(Debug, Clone)]
pub struct LoginUser {
    pub username: String,
    pub password: String,
}

impl LoginUser {
    /// Validates the body, reporting every broken rule in one validation failure.
    pub fn check(&self) -> (r: Result<(), AppError>)
        ensures
            r is Ok <==> self.problems().len() == 0,
            r matches Err(e) ==> e@ == ErrorView::Validation(report(self.problems())),
    {
        validated(self.validate())
    }

    pub open spec fn problems(self) -> Seq<Problem> {
        let found0 = Seq::<Problem>::empty();
        let found1 = add_if(
            found0,
            char_len_within(self.username@, 3, 30),
            "username"@,
            "用户名长度必须在 3-30 字符之间"@,
        );
        add_if(
            found1,
            char_len_within(self.password@, 1, 100),
            "password"@,
            "密码不能为空且不能超过 100 字符"@,
        )
    }

    pub fn validate(&self) -> (r: Result<(), Vec<FieldError>>)
        ensures
            r is Ok <==> self.problems().len() == 0,
            r matches Err(e) ==> problems_of(e@) == self.problems(),
    {
        let mut errors: Vec<FieldError> = Vec::new();
        proof {
            assert(problems_of(errors@) =~= Seq::<Problem>::empty());
        }
        let ok = length_within(self.username.as_str(), 3, 30);
        push_if(&mut errors, ok, "username", "用户名长度必须在 3-30 字符之间");
        let ok = length_within(self.password.as_str(), 1, 100);
        push_if(&mut errors, ok, "password", "密码不能为空且不能超过 100 字符");
        outcome(errors)
    }
}

/// Answer of a successful login.
#[derive(Debug, Clone)]
pub struct TokenResponse {
    pub token: String,
}

/// Identity claims carried inside a session token: subject, role and expiry in Unix seconds.
#[derive(Debug, Clone, PartialEq, Eq)]
pub struct Claims {
    pub sub: String,
    pub role: String,
    pub exp: u64,
}

/// Claims as plain values: (subject, role, expiry).
pub type ClaimsView = (Seq<char>, Seq<char>, u64);

impl View for Claims {
    type V = ClaimsView;

    open spec fn view(&self) -> ClaimsView {
        (self.sub@, self.role@, self.exp)
    }
}

/// One page of a listing, with the numbers a client needs to ask for the others.
#[derive(Debug, Clone)]
pub struct PaginatedResponse<T> {
    pub data: Vec<T>,
    pub page: u64,
    pub page_size: u64,
    pub total: u64,
    pub total_pages: u64,
}

impl<T> PaginatedResponse<T> {
    pub fn new(data: Vec<T>, pagination: &Pagination, total: u64) -> (r: Self)
        requires
            pagination.is_valid(),
        ensures
            r.data@ == data@,
            r.page == pagination.page,
            r.page_size == pagination.page_size,
            r.total == total,
            r.total_pages == page_count(total as int, pagination.page_size as int),
    {
        let total_pages = pagination.total_pages(total);
        PaginatedResponse {
            data,
            page: pagination.page,
            page_size: pagination.page_size,
            total,
            total_pages,
        }
    }
}

} // verus!
