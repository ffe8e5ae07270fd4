use api_lightning::authorization::{
    business_id, claims_business_id, extract_bearer_token, validate_token, TokenFailure,
};
use api_lightning::lnreport::{
    authenticate_url, bearer_authorization, order_process_url, process_payment,
};
use api_lightning::modelsext::Claims;
use api_lightning::settings::{env_from_name, ENV};

fn claims(sub: &str, exp: usize) -> Claims {
    Claims {
        iss: "issuer".to_string(),
        sub: sub.to_string(),
        aud: "aud".to_string(),
        exp,
        iat: 0,
    }
}

#[test]
fn bearer_token_extraction() {
    assert_eq!(extract_bearer_token(Some("Bearer abc.def")), Some("abc.def".to_string()));
    assert_eq!(extract_bearer_token(Some("bearer abc")), None);
    assert_eq!(extract_bearer_token(Some("Basic abc")), None);
    assert_eq!(extract_bearer_token(Some("Bearer")), None);
    assert_eq!(extract_bearer_token(None), None);
    assert_eq!(extract_bearer_token(Some("Bearer aBearer b")), Some("ab".to_string()));
}

#[test]
fn bearer_header_round_trip() {
    let header = bearer_authorization("tok.en");
    assert_eq!(header, "Bearer tok.en");
    assert_eq!(extract_bearer_token(Some(header.as_str())), Some("tok.en".to_string()));
}

#[test]
fn token_decisions() {
    let ok = validate_token(Ok(claims("12", 100)), 99).unwrap();
    assert_eq!(ok.sub, "12");
    let e = validate_token(Ok(claims("12", 100)), 100).unwrap_err();
    assert_eq!(e.error_status_code, 401);
    assert_eq!(e.error_message, "Not authorizated");
    let e = validate_token(Err(TokenFailure::ExpiredSignature), 0).unwrap_err();
    assert_eq!(e.error_status_code, 401);
    let e = validate_token(Err(TokenFailure::Other), 0).unwrap_err();
    assert_eq!(e.error_status_code, 500);
    assert_eq!(e.error_message, "Internal Server Error");
}

#[test]
fn business_of_claims() {
    assert_eq!(business_id(" 42\n"), Some(42));
    assert_eq!(business_id("x"), None);
    assert_eq!(claims_business_id(&claims(" 7 ", 10), 9).unwrap(), Some(7));
    assert_eq!(claims_business_id(&claims("seven", 10), 9).unwrap(), None);
    let e = claims_business_id(&claims("7", 10), 10).unwrap_err();
    assert_eq!(e.error_status_code, 401);
}

#[test]
fn environments() {
    assert_eq!(env_from_name("Testing"), ENV::Testing);
    assert_eq!(env_from_name("Production"), ENV::Production);
    assert_eq!(env_from_name("anything"), ENV::Development);
    for env in [ENV::Development, ENV::Testing, ENV::Production] {
        assert_eq!(env_from_name(&env.to_string()), env);
    }
    assert_eq!(ENV::from("Production"), ENV::Production);
    assert_eq!(ENV::Testing.to_string(), "Testing");
}

#[test]
fn business_api_addresses() {
    assert_eq!(authenticate_url("https://api.example"), "https://api.example/api/v1/authenticate");
    assert_eq!(order_process_url("https://api.example"), "https://api.example/api/v1/order/process/");
}

#[test]
fn report_of_a_paid_share() {
    let p = process_payment(0xa1a2a3a4b1b2c1c2d1d2d3d4d5d6d7d8, "a@b.c".to_string());
    assert_eq!(p.invoiceUid, "a1a2a3a4-b1b2-c1c2-d1d2-d3d4d5d6d7d8");
    assert_eq!(p.lnAddress, "a@b.c");
    let p = process_payment(0, String::new());
    assert_eq!(p.invoiceUid, "00000000-0000-0000-0000-000000000000");
}

#[test]
fn distinct_presales_distinct_reports() {
    let a = process_payment(1, String::new()).invoiceUid;
    let b = process_payment(1u128 << 64, String::new()).invoiceUid;
    let c = process_payment(u128::MAX, String::new()).invoiceUid;
    assert_ne!(a, b);
    assert_ne!(b, c);
    assert_eq!(c, "ffffffff-ffff-ffff-ffff-ffffffffffff");
    assert_eq!(a, "00000000-0000-0000-0000-000000000001");
}
