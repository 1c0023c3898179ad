use rs_gate_server::errors::ApiError;
use rs_gate_server::password::{encode_password, verify_password};
use rs_gate_server::user::{
    create, created_user, delete, login, login_result, page_index, update, Date, Gender,
    pagination_index, PaginationParams, UserQueryParams,
    UserParams, UserRecord,
};

fn params(password: &str) -> UserParams {
    UserParams {
        name: "Bob".to_string(),
        gender: Gender::Male,
        account: "bob01".to_string(),
        password: password.to_string(),
        mobile_phone: "13800000000".to_string(),
        birthday: Date { year: 1990, month: 5, day: 17 },
        enabled: true,
    }
}

fn stored(password_hash: &str) -> UserRecord<i64> {
    UserRecord {
        id: "42".to_string(),
        name: "Alice".to_string(),
        gender: Gender::Female,
        account: "alice".to_string(),
        password: password_hash.to_string(),
        mobile_phone: "13900000000".to_string(),
        birthday: Date { year: 1985, month: 1, day: 2 },
        enabled: false,
        stored: 1_700_000_000_000,
    }
}

fn biz(r: ApiError) -> String {
    match r {
        ApiError::Biz(m) => m,
        other => panic!("unexpected {:?}", other),
    }
}

#[test]
fn login_unknown_account_is_refused() {
    let e = login::<i64>(None, "whatever").unwrap_err();
    assert_eq!(e.status_code(), 200);
    assert_eq!(biz(e), "Invalid account or password");
}

#[test]
fn login_wrong_password_is_refused_alike() {
    let h = encode_password("right-password").unwrap();
    let wrong = login(Some(stored(&h)), "wrong-password").unwrap_err();
    let unknown = login::<i64>(None, "wrong-password").unwrap_err();
    assert_eq!(wrong.message(), unknown.message());
    assert_eq!(wrong.status_code(), unknown.status_code());
}

#[test]
fn login_right_password_gives_principal() {
    let h = encode_password("right-password").unwrap();
    let p = login(Some(stored(&h)), "right-password").unwrap();
    assert_eq!(p.id, "42");
    assert_eq!(p.name, "Alice");
}

#[test]
fn login_with_unreadable_hash_is_a_hash_error() {
    match login(Some(stored("plain")), "plain") {
        Err(ApiError::Bcrypt(_)) => {}
        other => panic!("unexpected {:?}", other),
    }
}

#[test]
fn login_result_per_check() {
    assert_eq!(login_result(stored("h"), Ok(true)).unwrap().id, "42");
    assert_eq!(biz(login_result(stored("h"), Ok(false)).unwrap_err()), "Invalid account or password");
    match login_result(stored("h"), Err(ApiError::Bcrypt("bad".to_string()))) {
        Err(ApiError::Bcrypt(m)) => assert_eq!(m, "bad"),
        other => panic!("unexpected {:?}", other),
    }
}

#[test]
fn create_requires_a_password() {
    assert_eq!(biz(create(params("")).unwrap_err()), "Password cannot be empty");
}

#[test]
fn create_stores_a_hash() {
    let made = create(params("s3cret!")).unwrap();
    assert_ne!(made.password, "s3cret!");
    assert_eq!(made.password.len(), 60);
    assert!(made.password.starts_with("$2b$12$"));
    assert!(verify_password("s3cret!", &made.password).unwrap());
    assert_eq!(made.name, "Bob");
    assert_eq!(made.account, "bob01");
    assert_eq!(made.gender, Gender::Male);
    assert_eq!(made.mobile_phone, "13800000000");
    assert_eq!(made.birthday, Date { year: 1990, month: 5, day: 17 });
    assert!(made.enabled);
}

#[test]
fn created_user_takes_the_hash() {
    let made = created_user(params("x"), Ok("HASH".to_string())).unwrap();
    assert_eq!(made.password, "HASH");
    match created_user(params("x"), Err(ApiError::Bcrypt("rand".to_string()))) {
        Err(ApiError::Bcrypt(m)) => assert_eq!(m, "rand"),
        other => panic!("unexpected {:?}", other),
    }
}

#[test]
fn update_missing_user_is_refused() {
    assert_eq!(
        biz(update::<i64>(None, "42".to_string(), params("")).unwrap_err()),
        "User to be updated does not exist"
    );
}

#[test]
fn update_with_empty_password_keeps_hash() {
    let u = update(Some(stored("OLD-HASH")), "42".to_string(), params("")).unwrap();
    assert_eq!(u.password, "OLD-HASH");
    assert_eq!(u.id, "42");
    assert_eq!(u.stored, 1_700_000_000_000);
    assert_eq!(u.name, "Bob");
    assert_eq!(u.gender, Gender::Male);
    assert_eq!(u.account, "bob01");
    assert_eq!(u.mobile_phone, "13800000000");
    assert_eq!(u.birthday, Date { year: 1990, month: 5, day: 17 });
    assert!(u.enabled);
}

#[test]
fn update_with_password_rehashes() {
    let u = update(Some(stored("OLD-HASH")), "42".to_string(), params("n3w-pass")).unwrap();
    assert_ne!(u.password, "OLD-HASH");
    assert!(verify_password("n3w-pass", &u.password).unwrap());
    assert!(u.password.starts_with("$2b$12$"));
    assert_eq!(u.stored, 1_700_000_000_000);
    assert_eq!(u.id, "42");
    assert_eq!(u.name, "Bob");
}

#[test]
fn delete_needs_a_found_user() {
    assert_eq!(biz(delete::<i64>(None).unwrap_err()), "User to be deleted does not exist");
    assert_eq!(delete(Some(stored("h"))).unwrap().id, "42");
}

#[test]
fn page_numbers_are_one_based() {
    assert_eq!(page_index(1), 0);
    assert_eq!(page_index(7), 6);
    assert_eq!(page_index(u64::MAX), u64::MAX - 1);
}

#[test]
fn listing_query_holds_its_page() {

    let q = UserQueryParams { keyword: Some("bo".to_string()), pagination: PaginationParams { page: 3, size: 20 } };
    assert_eq!(page_index(q.pagination.page), 2);
    assert_eq!(q.pagination.size, 20);
    assert_eq!(q.keyword.as_deref(), Some("bo"));
}

#[test]
fn pagination_needs_page_and_size() {
    assert_eq!(pagination_index(PaginationParams { page: 1, size: 10 }).unwrap(), 0);
    assert_eq!(pagination_index(PaginationParams { page: 5, size: 1 }).unwrap(), 4);
    for (page, size) in [(0, 10), (1, 0), (0, 0)] {
        match pagination_index(PaginationParams { page, size }) {
            Err(ApiError::Validation(m)) => assert_eq!(m, "page and size must be at least 1"),
            other => panic!("unexpected {:?}", other),
        }
    }
}
