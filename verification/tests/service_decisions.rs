use ttl_keeper::error::MyError;
use ttl_keeper::postgres::db_communication::{add, retrieve, Ttl};
use ttl_keeper::response::check_response_status;
use ttl_keeper::settings::{settings_from_secrets, AppSettings, Secrets};
use ttl_keeper::update_token::{
    renew_jwt_cron_job, Authenticate, RenewalStep, TokenData, TokenResponse,
};

fn all_secrets() -> Secrets {
    Secrets {
        mercury_backend_endpoint: Some("https://backend".to_string()),
        mercury_graphql_endpoint: Some("https://graphql".to_string()),
        mercury_email: Some("me@example.com".to_string()),
        mercury_password: Some("SECRET-REDACTED".to_string()),
        rpc_url: Some("https://rpc".to_string()),
        network_passphrase: Some("Test SDF Network ; September 2015".to_string()),
        source_account: Some("alice".to_string()),
    }
}

#[test]
fn settings_gathered_when_all_secrets_are_set() {
    assert_eq!(
        settings_from_secrets(all_secrets()),
        Ok(AppSettings {
            mercury_backend_endpoint: "https://backend".to_string(),
            mercury_graphql_endpoint: "https://graphql".to_string(),
            mercury_id: "me@example.com".to_string(),
            mercury_pwd: "SECRET-REDACTED".to_string(),
            rpc_url: "https://rpc".to_string(),
            network_passphrase: "Test SDF Network ; September 2015".to_string(),
            source_account: "alice".to_string(),
        })
    );
}

#[test]
fn settings_name_the_first_missing_secret() {
    let mut s = all_secrets();
    s.rpc_url = None;
    s.source_account = None;
    assert_eq!(settings_from_secrets(s), Err("RPC_URL not set in Secrets.toml file".to_string()));
    let mut s = all_secrets();
    s.mercury_backend_endpoint = None;
    assert_eq!(
        settings_from_secrets(s),
        Err("MERCURY_BACKEND_ENDPOINT not set in Secrets.toml file".to_string())
    );
    let mut s = all_secrets();
    s.source_account = None;
    assert_eq!(settings_from_secrets(s), Err("SOURCE_ACCOUNT not set in Secrets.toml file".to_string()));
}

#[test]
fn status_check_accepts_only_2xx() {
    assert_eq!(check_response_status(200), Ok(()));
    assert_eq!(check_response_status(299), Ok(()));
    assert_eq!(check_response_status(300), Err(MyError::BadResponseStatus));
    assert_eq!(check_response_status(199), Err(MyError::BadResponseStatus));
    assert_eq!(check_response_status(500), Err(MyError::BadResponseStatus));
}

#[test]
fn renewal_stores_token_and_waits_a_week() {
    let body = TokenResponse {
        data: Some(TokenData { authenticate: Some(Authenticate { jwt_token: Some("tok".to_string()) }) }),
    };
    assert_eq!(
        renew_jwt_cron_job(Ok(body)),
        RenewalStep { new_token: Some("tok".to_string()), sleep_secs: 59 * 60 * 24 * 7 }
    );
}

#[test]
fn renewal_retries_after_ten_seconds() {
    assert_eq!(
        renew_jwt_cron_job(Err("connection refused".to_string())),
        RenewalStep { new_token: None, sleep_secs: 10 }
    );
}

#[test]
fn table_rows_are_listed_with_ok() {
    let rows = vec![Ttl { contract_id: "C1".to_string(), automatic_bump: true, live_until_ttl: 42 }];
    let (status, listed) = retrieve(rows);
    assert_eq!(status, 200);
    assert_eq!(listed, vec![Ttl { contract_id: "C1".to_string(), automatic_bump: true, live_until_ttl: 42 }]);
}

#[test]
fn upsert_answers_created_or_bad_request() {
    let row = Ttl { contract_id: "C1".to_string(), automatic_bump: false, live_until_ttl: -1 };
    assert_eq!(
        add(Ok(row)),
        Ok((201, Ttl { contract_id: "C1".to_string(), automatic_bump: false, live_until_ttl: -1 }))
    );
    assert_eq!(add(Err("duplicate".to_string())), Err((400, "duplicate".to_string())));
}
