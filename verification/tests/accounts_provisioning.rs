use vscu_pipeline::accounts::{
    open_tracking_token, prepare_signup, verify_login, LoginCheck, SignUpPayload, UserFetch,
};
use vscu_pipeline::codec::{LookupCodec, OpaqueCodec};
use vscu_pipeline::payloads::item_count_matches;
use vscu_pipeline::provisioning::{prepare_initialization, InitializeData};
use vscu_pipeline::retry::backoff_delay;

fn signup_payload() -> SignUpPayload {
    SignUpPayload {
        fullName: "Jordan Doe".to_string(),
        email: "jordan@example.com".to_string(),
        phoneNumber: "+254700000000".to_string(),
        password: "correct horse battery staple".to_string(),
        confirmPassword: "correct horse battery staple".to_string(),
        agreement: true,
    }
}

#[test]
fn signup_hashes_password_and_issues_token() {
    let account = prepare_signup(signup_payload()).unwrap();
    assert_eq!(account.full_name, "Jordan Doe");
    assert_eq!(account.email, "jordan@example.com");
    assert_eq!(account.role, "user");
    assert_eq!(account.status, "Pending Approval");
    assert!(account.agreement);
    assert_eq!(account.tracking_id.len(), 64);
    assert!(account.tracking_id.chars().all(|c| c.is_ascii_alphanumeric()));
    assert_ne!(account.password_hash, "correct horse battery staple");
    assert_eq!(
        verify_login(&account.password_hash, "correct horse battery staple"),
        LoginCheck::Verified
    );
}

#[test]
fn login_rejects_a_wrong_password() {
    let account = prepare_signup(signup_payload()).unwrap();
    assert_eq!(
        verify_login(&account.password_hash, "wrong password"),
        LoginCheck::Rejected
    );
}

#[test]
fn login_reports_an_unreadable_hash() {
    assert_eq!(
        verify_login("not a bcrypt hash", "anything"),
        LoginCheck::HashUnreadable
    );
}

#[test]
fn tracking_tokens_round_trip_through_the_lookup_seal() {
    let lookup = LookupCodec::new(vec![5u8; 32]).unwrap();
    let account = prepare_signup(signup_payload()).unwrap();
    let sealed = vscu_pipeline::accounts::issue_tracking_token(&lookup, &account.tracking_id);
    let fetch = UserFetch {
        tracking_id: sealed.data,
    };
    assert_eq!(
        open_tracking_token(&lookup, &fetch).as_deref(),
        Some(account.tracking_id.as_str())
    );
}

#[test]
fn fetch_with_a_garbled_token_fails_before_any_lookup() {
    let lookup = LookupCodec::new(vec![5u8; 32]).unwrap();
    let fetch = UserFetch {
        tracking_id: "garbled".to_string(),
    };
    assert!(open_tracking_token(&lookup, &fetch).is_none());
}

#[test]
fn initialization_seals_each_field_under_its_scheme() {
    let lookup = LookupCodec::new(vec![11u8; 32]).unwrap();
    let opaque = OpaqueCodec::new(vec![12u8; 32]).unwrap();
    let data = InitializeData {
        companyId: "company-9".to_string(),
        environmentName: "sandbox".to_string(),
        environmentUrl: "https://sandbox.example".to_string(),
        pin: "P051234567X".to_string(),
        branchId: "00".to_string(),
        deviceSerial: "SN-000042".to_string(),
    };
    let (credentials, api_key) = prepare_initialization(&lookup, &opaque, data);
    assert_eq!(api_key.len(), 64);
    assert!(api_key.chars().all(|c| c.is_ascii_alphanumeric()));

    // Lookup-sealed fields are deterministic: sealing the same value again
    // gives the same ciphertext, so equality filters over ciphertext work.
    assert_eq!(
        credentials.pin.data,
        lookup.seal_lookup("P051234567X").data
    );
    assert_eq!(
        credentials.device_serial.data,
        lookup.seal_lookup("SN-000042").data
    );
    assert_eq!(
        lookup.open_lookup(&credentials.pin).as_deref(),
        Some("P051234567X")
    );

    // Randomized fields still open to the original values.
    assert_eq!(opaque.open(&credentials.company_id).as_deref(), Some("company-9"));
    assert_eq!(opaque.open(&credentials.branch_id).as_deref(), Some("00"));
    assert_eq!(opaque.open(&credentials.api_key).as_deref(), Some(api_key.as_str()));
    assert_eq!(credentials.environment_name, "sandbox");
    assert_eq!(credentials.environment_url, "https://sandbox.example");
}

#[test]
fn backoff_delay_is_exactly_two_to_the_attempts_minutes() {
    assert_eq!(backoff_delay(1), 120);
    assert_eq!(backoff_delay(2), 240);
    assert_eq!(backoff_delay(3), 480);
    assert_eq!(backoff_delay(4), 960);
    assert_eq!(backoff_delay(5), 1920);
}

#[test]
fn item_count_validation() {
    assert!(item_count_matches(3, 3));
    assert!(!item_count_matches(2, 3));
    assert!(!item_count_matches(-1, 0));
    assert!(item_count_matches(0, 0));
}
