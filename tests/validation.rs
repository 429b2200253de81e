use inkwell::config::Config;
use inkwell::errors::{AppError, StoreFailure, TokenFailure};
use inkwell::models::{
    default_page, default_page_size, CreateComment, CreatePost, LoginUser, PaginatedResponse,
    Pagination, RegisterUser,
};
use inkwell::validation::{format_validation_errors, length_within, username_pattern_matches, FieldError};

fn register(username: &str, password: &str) -> RegisterUser {
    RegisterUser { username: username.to_string(), password: password.to_string() }
}

fn post(title: &str, content: &str, tags: &str, copyright: &str) -> CreatePost {
    CreatePost {
        title: title.to_string(),
        content: content.to_string(),
        tags: tags.to_string(),
        copyright: copyright.to_string(),
    }
}

#[test]
fn register_returns_a_400_when_fields_are_invalid() {
    for body in [register("u", "password123"), register("test_user", "123")] {
        let err = body.check().unwrap_err();
        assert_eq!(400, err.status_code());
    }
}

#[test]
fn register_body_rules_are_reported_in_field_order() {
    let err = register("u", "123").check().unwrap_err();
    assert_eq!(
        err,
        AppError::Validation(
            "验证失败: username: 用户名长度必须在 3-30 字符之间, password: 密码长度必须在 6-100 字符之间"
                .to_string()
        )
    );
    assert_eq!(
        err.error_message(),
        "验证错误: 验证失败: username: 用户名长度必须在 3-30 字符之间, password: 密码长度必须在 6-100 字符之间"
    );
}

#[test]
fn register_username_pattern_is_enforced() {
    let err = register("bad-name", "password123").check().unwrap_err();
    assert_eq!(
        err,
        AppError::Validation("验证失败: username: 用户名只能包含字母、数字和下划线".to_string())
    );
    assert!(register("alice_01", "password123").check().is_ok());
    assert!(register("ABC", "123456").check().is_ok());
}

#[test]
fn register_length_bounds_are_inclusive() {
    assert!(register(&"a".repeat(30), &"p".repeat(100)).check().is_ok());
    assert!(register(&"a".repeat(31), "password").check().is_err());
    assert!(register("abc", &"p".repeat(101)).check().is_err());
    assert!(register("abc", "12345").check().is_err());
}

#[test]
fn length_counts_characters_not_bytes() {
    assert!(length_within("密码密码密码", 6, 100));
    assert!(!length_within("密码", 3, 30));
    assert!(length_within("", 0, 0));
    assert!(!length_within("a", 0, 0));
}

#[test]
fn username_pattern_matches_only_word_characters() {
    assert!(username_pattern_matches("Abc_019"));
    assert!(!username_pattern_matches(""));
    assert!(!username_pattern_matches("a b"));
    assert!(!username_pattern_matches("名字"));
}

#[test]
fn login_body_rules() {
    let ok = LoginUser { username: "alice".to_string(), password: "x".to_string() };
    assert!(ok.check().is_ok());
    let empty = LoginUser { username: "alice".to_string(), password: String::new() };
    assert_eq!(
        empty.check().unwrap_err(),
        AppError::Validation("验证失败: password: 密码不能为空且不能超过 100 字符".to_string())
    );
}

#[test]
fn create_post_returns_a_400_for_invalid_data() {
    for body in [post("", "Content", "", ""), post("Title", "", "", "")] {
        assert_eq!(body.check().unwrap_err().status_code(), 400);
    }
    assert!(post("My First Post", "Content", "tags", "copyright").check().is_ok());
    assert_eq!(
        post("t", "c", &"x".repeat(201), "").validate().unwrap_err(),
        vec![FieldError { field: "tags", message: "标签长度不能超过 200 字符" }]
    );
}

#[test]
fn create_comment_returns_a_400_for_invalid_data() {
    let empty = CreateComment { content: String::new() };
    assert_eq!(empty.check().unwrap_err().status_code(), 400);
    assert!(CreateComment { content: "c".repeat(1000) }.check().is_ok());
    assert!(CreateComment { content: "c".repeat(1001) }.check().is_err());
}

#[test]
fn format_of_an_empty_and_a_two_item_list() {
    assert_eq!(format_validation_errors(&vec![]), "验证失败: ");
    let errors = vec![
        FieldError { field: "a", message: "m1" },
        FieldError { field: "b", message: "m2" },
    ];
    assert_eq!(format_validation_errors(&errors), "验证失败: a: m1, b: m2");
}

#[test]
fn pagination_defaults_and_window() {
    assert_eq!(default_page(), 1);
    assert_eq!(default_page_size(), 10);
    let p = Pagination { page: 3, page_size: 10 };
    assert!(p.check().is_ok());
    assert_eq!(p.offset(), 20);
    assert_eq!(p.total_pages(0), 0);
    assert_eq!(p.total_pages(25), 3);
    assert_eq!(p.total_pages(30), 3);
    let r = PaginatedResponse::new(vec![1, 2], &p, 25);
    assert_eq!((r.page, r.page_size, r.total, r.total_pages), (3, 10, 25, 3));
    assert_eq!(r.data, vec![1, 2]);
}

#[test]
fn pagination_rules() {
    let p = Pagination { page: 0, page_size: 101 };
    assert_eq!(
        p.check().unwrap_err(),
        AppError::Validation(
            "分页参数验证失败: page: 页码必须在 1-1000 之间, page_size: 每页数量必须在 1-100 之间".to_string()
        )
    );
    assert!(Pagination { page: 1000, page_size: 100 }.check().is_ok());
    assert!(Pagination { page: 1001, page_size: 1 }.check().is_err());
}

#[test]
fn error_statuses_and_messages() {
    let cases = [
        (AppError::Database(StoreFailure::RowNotFound), 404, "请求的资源未找到"),
        (AppError::Database(StoreFailure::Other), 500, "数据库操作失败"),
        (AppError::Database(StoreFailure::UniqueViolation), 500, "数据库操作失败"),
        (AppError::validation("x"), 400, "验证错误: x"),
        (AppError::authentication("x"), 401, "认证错误: x"),
        (AppError::authorization("x"), 403, "授权错误: x"),
        (AppError::not_found("x"), 404, "未找到资源: x"),
        (AppError::conflict("x"), 409, "冲突错误: x"),
        (AppError::internal("x"), 500, "内部服务器错误"),
        (AppError::PasswordHash, 500, "密码哈希错误"),
        (AppError::Jwt(TokenFailure::Expired), 401, "JWT错误: ExpiredSignature"),
        (AppError::TaskJoin, 500, "任务执行错误"),
    ];
    for (e, status, message) in cases {
        assert_eq!(e.status_code(), status);
        assert_eq!(e.error_message(), message);
        let body = e.to_response();
        assert_eq!((body.error.as_str(), body.code), (message, status));
    }
}

#[test]
fn server_address_joins_host_and_port() {
    let mut config = Config {
        database_url: "sqlite::memory:".to_string(),
        jwt_secret: "test_secret".to_string(),
        server_host: "127.0.0.1".to_string(),
        server_port: 3000,
        db_max_connections: 1,
        jwt_expiration_days: 1,
    };
    assert_eq!(config.server_address(), "127.0.0.1:3000");
    config.server_port = 0;
    assert_eq!(config.server_address(), "127.0.0.1:0");
    config.server_port = 65535;
    assert_eq!(config.server_address(), "127.0.0.1:65535");
}
