use axum_erp_api::entity::company::Company;
use axum_erp_api::error::ApiError;
use axum_erp_api::repository::company_repository;
use axum_erp_api::service::session_service::{SessionCommand, SessionPolicy};
use axum_erp_api::sql::{build, inserted_id, BindValue, SqlPart};
use axum_erp_api::vault::{check_response, find_secret, secret_url};
use axum_erp_api::warrant_type::routes as warrant_type_routes;

#[test]
fn sessions_live_two_minutes() {
    let p = SessionPolicy::new();
    assert_eq!(p.ttl_seconds, 120);
    match p.put("k", "v".to_string()) {
        SessionCommand::SetEx { key, value, ttl_seconds } => {
            assert_eq!((key.as_str(), value.as_str(), ttl_seconds), ("k", "v", 120))
        }
        other => panic!("unexpected {:?}", other),
    }
    assert!(matches!(p.get("k"), SessionCommand::Get { key } if key == "k"));
}

#[test]
fn reading_a_live_session_renews_it() {
    let p = SessionPolicy::new();
    match p.after_get("test:key", &Some("hola".to_string())) {
        Some(SessionCommand::Expire { key, seconds }) => {
            assert_eq!(key, "test:key");
            assert_eq!(seconds, 120);
        }
        other => panic!("unexpected {:?}", other),
    }
    assert!(p.after_get("test:key", &None).is_none());
}

#[test]
fn secret_address_ignores_edge_slashes() {
    assert_eq!(
        secret_url("http://127.0.0.1:8200", "global"),
        "http://127.0.0.1:8200/v1/secret/data/global"
    );
    assert_eq!(
        secret_url("http://127.0.0.1:8200//", "//global/db"),
        "http://127.0.0.1:8200/v1/secret/data/global/db"
    );
    assert_eq!(secret_url("", ""), "/v1/secret/data/");
}

#[test]
fn failed_answers_name_status_address_and_body() {
    assert!(check_response(true, "200 OK", "u", "b").is_ok());
    assert_eq!(
        check_response(false, "403 Forbidden", "http://v/x", "denied"),
        Err("Vault request failed: status=403 Forbidden, url=http://v/x, body=denied".to_string())
    );
}

#[test]
fn secret_entry_or_missing_key_error() {
    let entries = vec![
        ("REDIS_URL".to_string(), "redis://r".to_string()),
        ("DATABASE_URL".to_string(), "mysql://db".to_string()),
    ];
    assert_eq!(find_secret(&entries, "DATABASE_URL", "global"), Ok("mysql://db".to_string()));
    assert_eq!(
        find_secret(&entries, "NOPE", "global"),
        Err("Secret key 'NOPE' not found at 'global'".to_string())
    );
    assert_eq!(
        find_secret(&Vec::new(), "", ""),
        Err("Secret key '' not found at ''".to_string())
    );
}

#[test]
fn company_statements() {
    assert_eq!(company_repository::find_all().sql, "SELECT id, name, address FROM company");
    let st = company_repository::find_by_id(5);
    assert_eq!(st.sql, "SELECT id, name, address FROM company WHERE id = ?");
    assert_eq!(format!("{:?}", st.binds), "[BigInt(5)]");
    let c = Company { id: 0, name: "N".into(), address: "A".into() };
    let st = company_repository::create(c.clone());
    assert_eq!(st.sql, "INSERT INTO company (name, address) VALUES (?, ?)");
    assert_eq!(format!("{:?}", st.binds), "[Text(\"N\"), Text(\"A\")]");
    let st = company_repository::update(8, c);
    assert_eq!(st.sql.matches('?').count(), 3);
    assert_eq!(format!("{:?}", st.binds), "[Text(\"N\"), Text(\"A\"), BigInt(8)]");
    assert_eq!(company_repository::delete(8).sql, "DELETE FROM company WHERE id = ?");
    assert_eq!(inserted_id(41), 41);
    assert_eq!(inserted_id(u64::MAX), -1);
}

#[test]
fn warrant_types_by_name() {
    let st = warrant_type_routes::list();
    assert_eq!(st.sql, "SELECT id, name FROM warrant_type ORDER BY name");
    assert!(st.binds.is_empty());
}

#[test]
fn statements_mark_each_parameter() {
    let st = build(vec![
        SqlPart::Sql("a = ".into()),
        SqlPart::Bind(BindValue::Int(1)),
        SqlPart::Sql(" AND b IN (".into()),
        SqlPart::Bind(BindValue::Text("x".into())),
        SqlPart::Sql(")".into()),
    ]);
    assert_eq!(st.sql, "a = ? AND b IN (?)");
    assert_eq!(format!("{:?}", st.binds), "[Int(1), Text(\"x\")]");
}

#[test]
fn errors_answer_with_their_status() {
    assert_eq!(ApiError::Unauthorized.status_code(), 401);
    assert_eq!(ApiError::Forbidden.status_code(), 403);
    assert_eq!(ApiError::NotFound.status_code(), 404);
    assert_eq!(ApiError::BadRequest("x".into()).status_code(), 400);
    assert_eq!(ApiError::Database("x".into()).status_code(), 500);
}
