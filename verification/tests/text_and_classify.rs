use whitelink::access::{
    evaluate_all, evaluate_mapping, is_operator, EvalError, ModeratorConfig, UserData,
};
use whitelink::api::{authorize_api_key, check_health, error_body, health_report, success_body,
    HealthVerdict};
use whitelink::digits::{parse_roles, parse_u64, u64_to_dec};
use whitelink::membership::{classify_membership, MembershipOutcome};
use whitelink::resolver::{classify_resolution, Resolution, ResolvedAccount};
use whitelink::store::IdentityMapping;

#[test]
fn decimal_formatting_is_canonical() {
    assert_eq!(u64_to_dec(0), "0");
    assert_eq!(u64_to_dec(7), "7");
    assert_eq!(u64_to_dec(10), "10");
    assert_eq!(u64_to_dec(90089), "90089");
    assert_eq!(u64_to_dec(u64::MAX), "18446744073709551615");
}

#[test]
fn decimal_parsing_accepts_exactly_fitting_digit_strings() {
    assert_eq!(parse_u64("0"), Some(0));
    assert_eq!(parse_u64("007"), Some(7));
    assert_eq!(parse_u64("90089"), Some(90089));
    assert_eq!(parse_u64("18446744073709551615"), Some(u64::MAX));
    assert_eq!(parse_u64(""), None);
    assert_eq!(parse_u64("12a"), None);
    assert_eq!(parse_u64("-1"), None);
    assert_eq!(parse_u64(" 1"), None);
    assert_eq!(parse_u64("18446744073709551616"), None);
    assert_eq!(parse_u64("99999999999999999999999"), None);
}

#[test]
fn role_lists_parse_all_or_nothing() {
    let good = vec!["1".to_string(), "42".to_string(), "999".to_string()];
    assert_eq!(parse_roles(&good), Some(vec![1, 42, 999]));
    let bad = vec!["1".to_string(), "admin".to_string()];
    assert_eq!(parse_roles(&bad), None);
    let empty: Vec<String> = Vec::new();
    assert_eq!(parse_roles(&empty), Some(Vec::new()));
}

#[test]
fn resolution_classification_separates_not_found_from_failure() {
    let acc = ResolvedAccount { game_id: 5, name: "Steve".to_string() };
    match classify_resolution(200, Some(acc)) {
        Resolution::Resolved(a) => {
            assert_eq!(a.game_id, 5);
            assert_eq!(a.name, "Steve");
        }
        _ => panic!("expected a resolved account"),
    }
    assert!(matches!(classify_resolution(200, None), Resolution::TransportFailure));
    assert!(matches!(classify_resolution(404, None), Resolution::NotFound));
    assert!(matches!(classify_resolution(500, None), Resolution::TransportFailure));
    assert!(matches!(classify_resolution(301, None), Resolution::TransportFailure));
}

#[test]
fn membership_classification_reads_roles_as_numbers() {
    let roles = vec!["10".to_string(), "20".to_string()];
    match classify_membership(200, Some(roles)) {
        MembershipOutcome::Member { roles } => assert_eq!(roles, vec![10, 20]),
        _ => panic!("expected a member"),
    }
    assert!(matches!(
        classify_membership(200, Some(vec!["abc".to_string()])),
        MembershipOutcome::TransportFailure
    ));
    assert!(matches!(classify_membership(200, None), MembershipOutcome::TransportFailure));
    assert!(matches!(classify_membership(404, None), MembershipOutcome::NotAMember));
    assert!(matches!(classify_membership(503, None), MembershipOutcome::TransportFailure));
}

fn config() -> ModeratorConfig {
    ModeratorConfig { group_id: 900, moderator_roles: vec![5, 6] }
}

#[test]
fn operator_check_needs_a_shared_role() {
    assert!(is_operator(&vec![1, 6], &vec![5, 6]));
    assert!(!is_operator(&vec![1, 2], &vec![5, 6]));
    assert!(!is_operator(&Vec::new(), &vec![5, 6]));
    assert!(!is_operator(&vec![1, 2], &Vec::new()));
}

#[test]
fn non_member_gets_cleared_flags_not_an_error() {
    let m = IdentityMapping { chat_id: 42, game_id: 77 };
    let r = evaluate_mapping(&config(), &m, &MembershipOutcome::NotAMember);
    assert_eq!(
        r,
        Ok(UserData { access: false, operator: false, game_id: 77, chat_id: 42 })
    );
}

#[test]
fn member_with_moderator_role_is_operator() {
    let m = IdentityMapping { chat_id: 42, game_id: 77 };
    let member = MembershipOutcome::Member { roles: vec![1, 5] };
    let r = evaluate_mapping(&config(), &m, &member);
    assert_eq!(r, Ok(UserData { access: true, operator: true, game_id: 77, chat_id: 42 }));
    let plain = MembershipOutcome::Member { roles: vec![1, 2] };
    let r = evaluate_mapping(&config(), &m, &plain);
    assert_eq!(r, Ok(UserData { access: true, operator: false, game_id: 77, chat_id: 42 }));
}

#[test]
fn transport_failure_fails_the_evaluation() {
    let m = IdentityMapping { chat_id: 42, game_id: 77 };
    let r = evaluate_mapping(&config(), &m, &MembershipOutcome::TransportFailure);
    assert_eq!(r, Err(EvalError::MembershipTransportFailure));
}

#[test]
fn one_transport_failure_aborts_the_whole_listing() {
    let mappings = vec![
        IdentityMapping { chat_id: 1, game_id: 11 },
        IdentityMapping { chat_id: 2, game_id: 22 },
    ];
    let outcomes = vec![MembershipOutcome::NotAMember, MembershipOutcome::TransportFailure];
    assert_eq!(
        evaluate_all(&config(), &mappings, &outcomes),
        Err(EvalError::MembershipTransportFailure)
    );
}

#[test]
fn listing_with_one_moderator_member_reports_operator_access() {
    let mappings = vec![IdentityMapping { chat_id: 42, game_id: 77 }];
    let outcomes = vec![MembershipOutcome::Member { roles: vec![5] }];
    let listed = evaluate_all(&config(), &mappings, &outcomes).unwrap();
    assert_eq!(
        listed,
        vec![UserData { access: true, operator: true, game_id: 77, chat_id: 42 }]
    );
}

#[test]
fn api_key_must_be_configured_presented_and_equal() {
    let secret = Some("test-admin-key".to_string());
    assert!(authorize_api_key(&secret, &secret.clone()));
    assert!(!authorize_api_key(&secret, &Some("other".to_string())));
    assert!(!authorize_api_key(&secret, &None));
    assert!(!authorize_api_key(&None, &Some("anything".to_string())));
    assert!(!authorize_api_key(&None, &None));
}

#[test]
fn status_envelopes_carry_the_right_shape() {
    let ok = success_body();
    assert_eq!(ok.status, "ok");
    assert!(ok.message.is_none());
    let err = error_body("Error getting users from DB".to_string());
    assert_eq!(err.status, "error");
    assert_eq!(err.message.as_deref(), Some("Error getting users from DB"));
}

#[test]
fn health_verdict_checks_status_then_version() {
    let report = health_report("1.2.3".to_string());
    assert_eq!(report.status, "ok");
    assert_eq!(report.version, "1.2.3");
    let ok = "ok".to_string();
    let v = "1.2.3".to_string();
    assert_eq!(check_health(&ok, &v, &v.clone()), HealthVerdict::Healthy);
    assert_eq!(
        check_health(&"down".to_string(), &v, &v.clone()),
        HealthVerdict::StatusMismatch
    );
    assert_eq!(
        check_health(&ok, &"9.9.9".to_string(), &v),
        HealthVerdict::VersionMismatch
    );
}
