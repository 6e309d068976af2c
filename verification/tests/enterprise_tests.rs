use devutils::enterprise::audit::{select_events, AuditEvent, AuditEventType, AuditLogger};
use devutils::enterprise::sso::{authenticate_sso, SsoProvider, SsoSession};
use devutils::enterprise::team::{TeamManager, TeamRole};
use devutils::enterprise::EnterpriseConfig;

#[test]
fn test_audit_event_creation() {
    let event = AuditEvent::new(
        AuditEventType::Login,
        "user123",
        "login",
        "system",
        "User logged in",
    );

    assert_eq!(event.user_id, "user123");
    assert_eq!(event.event_type, "login");
    assert!(event.success);
}

#[test]
fn test_sso_provider() {
    let _provider = SsoProvider::new(None);
    assert!(true);
}

#[test]
fn test_create_team() {
    let mut manager = TeamManager::new();
    let team_id = manager.create_team("Test Team", "A test team", "user123");
    assert!(team_id.starts_with("team_"));
}

#[test]
fn test_add_member() {
    let mut manager = TeamManager::new();
    let team_id = manager.create_team("Test Team", "A test team", "user123");

    let result = manager.add_member(
        &team_id,
        "user456",
        "user@example.com",
        "Test User",
        TeamRole::Member,
    );

    assert!(result.is_ok());
}

fn event(ts: u64, user: &str, ty: AuditEventType) -> AuditEvent {
    let mut e = AuditEvent::new(ty, user, "a", "r", "d");
    e.timestamp = ts;
    e
}

#[test]
fn audit_select_filters_and_orders_newest_first() {
    let events = vec![
        event(5, "u1", AuditEventType::Login),
        event(9, "u2", AuditEventType::Login),
        event(7, "u1", AuditEventType::Logout),
        event(9, "u1", AuditEventType::Login),
    ];
    let all = select_events(events.clone(), None, None, None, None);
    let ts: Vec<u64> = all.iter().map(|e| e.timestamp).collect();
    assert_eq!(ts, vec![9, 9, 7, 5]);
    assert_eq!(all[0].user_id, "u2");
    assert_eq!(all[1].user_id, "u1");
    let u1 = select_events(events.clone(), Some("u1"), Some("login"), Some(6), None);
    assert_eq!(u1.len(), 1);
    assert_eq!(u1[0].timestamp, 9);
    let bounded = select_events(events, None, None, None, Some(7));
    assert_eq!(bounded.len(), 2);
}

#[test]
fn audit_stats_and_builders() {
    let logger = AuditLogger::new("audit.log".to_string());
    let events = vec![
        event(1, "u", AuditEventType::FileCreate),
        event(2, "u", AuditEventType::FileDelete).failed(),
    ];
    let stats = logger.stats(&events);
    assert_eq!(stats.total_events, 2);
    assert_eq!(stats.successful, 1);
    assert_eq!(stats.failed, 1);
    let e = event(3, "u", AuditEventType::PermissionChange).with_ip("1.2.3.4").with_session("s");
    assert_eq!(e.ip_address.as_deref(), Some("1.2.3.4"));
    assert_eq!(e.session_id.as_deref(), Some("s"));
    assert_eq!(e.event_type, "permission.change");
    assert_eq!(logger.cleanup_old_logs(), Ok(0));
}

#[test]
fn team_member_rules() {
    let mut m = TeamManager::new();
    assert_eq!(m.add_member("nope", "u", "e", "n", TeamRole::Member), Err("Team not found".to_string()));
    let id = m.create_team("T", "D", "o");
    assert!(m.add_member(&id, "u1", "e", "n", TeamRole::Admin).is_ok());
    assert_eq!(m.add_member(&id, "u1", "e", "n", TeamRole::Member), Err("User is already a member".to_string()));
    assert!(m.has_permission(&id, "u1", "deploy"));
    assert!(m.add_member(&id, "u2", "e2", "n2", TeamRole::Viewer).is_ok());
    assert!(!m.has_permission(&id, "u2", "deploy"));
    assert!(m.update_member_role(&id, "u2", TeamRole::Owner).is_ok());
    assert!(m.has_permission(&id, "u2", "deploy"));
    assert_eq!(m.get_members(&id).unwrap().len(), 2);
    assert!(m.remove_member(&id, "u1").is_ok());
    assert_eq!(m.remove_member(&id, "u1"), Err("Member not found".to_string()));
    assert_eq!(m.get_team(&id).unwrap().members.len(), 1);
    assert_eq!(m.list_teams().len(), 1);
    assert_eq!(TeamRole::Viewer.to_string(), "viewer");
}

#[test]
fn team_is_full_at_max_members() {
    let mut m = TeamManager::new();
    let id = m.create_team("T", "D", "o");
    for i in 0..100 {
        assert!(m.add_member(&id, &format!("u{}", i), "e", "n", TeamRole::Member).is_ok());
    }
    assert_eq!(m.add_member(&id, "late", "e", "n", TeamRole::Member), Err("Team is full".to_string()));
}

#[test]
fn sso_sessions() {
    let mut p = SsoProvider::new(None);
    assert_eq!(p.init(None), Err("SSO not configured".to_string()));
    assert_eq!(authenticate_sso("  ").unwrap_err(), "Empty SAML response");
    assert_eq!(authenticate_sso("not base64!").unwrap_err(), "Invalid SAML response: not base64");
    assert_eq!(authenticate_sso("code").unwrap_err(), "Invalid SAML response: not a SAML 2.0 Response");
    let xml = "<samlp:Response xmlns:samlp=\"urn:oasis:names:tc:SAML:2.0:protocol\"><saml:Issuer>https://idp.example</saml:Issuer></samlp:Response>";
    let encoded = base64::Engine::encode(&base64::engine::general_purpose::STANDARD, xml);
    let s = authenticate_sso(&encoded).unwrap();
    assert_eq!(s.session_id, "sess_abc123");
    let id = p.create_session(s);
    assert!(p.get_session(&id).is_some());
    assert!(p.revoke_session(&id));
    assert!(!p.revoke_session(&id));
    let other = SsoSession {
        user_id: "a".into(),
        email: "b".into(),
        organization: "c".into(),
        roles: vec![],
        expires_at: 1,
        session_id: "x".into(),
    };
    p.create_session(other);
    assert_eq!(p.get_session("x").unwrap().user_id, "a");
}

#[test]
fn enterprise_config_features() {
    let c = EnterpriseConfig::new();
    assert!(c.is_feature_enabled("audit"));
    assert!(c.is_feature_enabled("team"));
    assert!(!c.is_feature_enabled("sso"));
    assert!(!c.is_feature_enabled("other"));
    assert_eq!(c.max_users, 100);
}

#[test]
fn test_audit_logger() {
    let logger = AuditLogger::new("audit.log".to_string());
    assert_eq!(logger.retention_days, 90);
    assert!(true);
}

#[test]
fn sso_response_must_name_the_configured_provider() {
    let config = devutils::enterprise::sso::SamlConfig {
        idp_url: "https://idp.example".into(),
        idp_entity_id: "https://idp.example".into(),
        sp_entity_id: "sp".into(),
        certificate: "c".into(),
        private_key: "k".into(),
    };
    let p = SsoProvider::new(Some(config));
    let ok = "<samlp:Response xmlns:samlp=\"urn:oasis:names:tc:SAML:2.0:protocol\"><saml:Issuer>https://idp.example</saml:Issuer></samlp:Response>";
    let other = "<samlp:Response xmlns:samlp=\"urn:oasis:names:tc:SAML:2.0:protocol\"><saml:Issuer>https://evil.example</saml:Issuer></samlp:Response>";
    let enc = |t: &str| base64::Engine::encode(&base64::engine::general_purpose::STANDARD, t);
    assert_eq!(p.validate_response(&enc(ok)).unwrap().session_id, "sess_abc123");
    assert_eq!(
        p.validate_response(&enc(other)).unwrap_err(),
        "SAML response not issued by the configured identity provider"
    );
}

#[test]
fn revoking_one_session_keeps_the_others() {
    let mut p = SsoProvider::new(None);
    let mk = |id: &str, user: &str| SsoSession {
        user_id: user.into(),
        email: "e".into(),
        organization: "o".into(),
        roles: vec![],
        expires_at: 0,
        session_id: id.into(),
    };
    p.create_session(mk("a", "u1"));
    p.create_session(mk("b", "u2"));
    p.create_session(mk("a", "u3"));
    assert_eq!(p.get_session("a").unwrap().user_id, "u3");
    assert!(p.revoke_session("a"));
    assert!(p.get_session("a").is_none());
    assert!(!p.revoke_session("a"));
    assert_eq!(p.get_session("b").unwrap().user_id, "u2");
}
