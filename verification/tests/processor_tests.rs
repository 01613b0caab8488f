use geohashed_relay::config::RelayConfig;
use geohashed_relay::processor::{
    ConnectionState, GeohashedEventProcessor, Message, RejectKind,
};
use geohashed_relay::scope::Scope;

fn event_with_tags(tags: Vec<Vec<&str>>) -> Message {
    Message {
        id: "event-id".to_string(),
        author: "author-pubkey".to_string(),
        tags: tags
            .into_iter()
            .map(|tag| tag.into_iter().map(|f| f.to_string()).collect())
            .collect(),
    }
}

fn event_with_geohash(geohash: &str) -> Message {
    event_with_tags(vec![vec!["g", geohash]])
}

fn event_without_geohash() -> Message {
    event_with_tags(vec![])
}

fn state_for(scope: Scope) -> ConnectionState {
    ConnectionState::new(scope, None, 1000)
}

#[test]
fn test_geohash_rejected_at_root() {
    let processor = GeohashedEventProcessor::new(30);
    let mut state = state_for(Scope::root());

    let result = processor.handle_event(event_with_geohash("drt2z"), &mut state, 1000);
    assert!(result.is_err());

    let rejection = result.unwrap_err();
    assert_eq!(rejection.kind, RejectKind::WrongScope);
    assert!(rejection.message.contains("restricted"));
    assert!(rejection.message.contains("root relay does not accept geotagged events"));
    assert!(rejection.message.contains("drt2z.hashstr.com"));
}

#[test]
fn test_geohash_correct_scope_stores() {
    let processor = GeohashedEventProcessor::new(30);
    let mut state = state_for(Scope::named("drt2z").unwrap());

    let result = processor.handle_event(event_with_geohash("drt2z"), &mut state, 1000);
    assert!(result.is_ok());

    let commands = result.unwrap();
    assert_eq!(commands.len(), 1);
    match &commands[0].target {
        Scope::Named(name) => assert_eq!(name, "drt2z"),
        _ => panic!("Expected Named scope with geohash"),
    }
}

#[test]
fn test_event_without_geohash_uses_subdomain() {
    let processor = GeohashedEventProcessor::new(30);
    let mut state = state_for(Scope::named("gbsuv").unwrap());

    let result = processor.handle_event(event_without_geohash(), &mut state, 1000);
    assert!(result.is_ok());

    let commands = result.unwrap();
    assert_eq!(commands.len(), 1);
    match &commands[0].target {
        Scope::Named(name) => assert_eq!(name, "gbsuv"),
        _ => panic!("Expected Named scope with subdomain"),
    }
}

#[test]
fn test_multiple_geohash_tags_uses_first() {
    let processor = GeohashedEventProcessor::new(30);
    let event = event_with_tags(vec![vec!["g", "drt2z"], vec!["g", "9q8yy"]]);
    let mut state = state_for(Scope::named("drt2z").unwrap());

    let result = processor.handle_event(event, &mut state, 1000);
    assert!(result.is_ok());

    let commands = result.unwrap();
    match &commands[0].target {
        Scope::Named(name) => assert_eq!(name, "drt2z", "Should use first valid geohash"),
        _ => panic!("Expected Named scope with geohash"),
    }
}

#[test]
fn test_wrong_geohash_subdomain_rejected() {
    let processor = GeohashedEventProcessor::new(30);
    let mut state = state_for(Scope::named("9q8yy").unwrap());

    let result = processor.handle_event(event_with_geohash("drt2z"), &mut state, 1000);
    assert!(result.is_err());

    let rejection = result.unwrap_err();
    assert_eq!(rejection.kind, RejectKind::WrongScope);
    assert!(rejection.message.contains("restricted"));
    assert!(rejection
        .message
        .contains("events with geohash 'drt2z' must be posted to wss://drt2z.hashstr.com"));
}

#[test]
fn test_invalid_subdomain_rejected() {
    // Strict-subdomain mode reserves named partitions for geographic traffic.
    let mut config = RelayConfig::default();
    config.strict_subdomain_mode = true;
    let processor = GeohashedEventProcessor::with_config(config);
    let mut state = state_for(Scope::named("foobar").unwrap());

    let result = processor.handle_event(event_without_geohash(), &mut state, 1000);
    assert!(result.is_err());

    let rejection = result.unwrap_err();
    assert_eq!(rejection.kind, RejectKind::InvalidTenantScope);
    assert!(rejection.message.contains("'foobar' is not a valid geohash subdomain"));
}

#[test]
fn test_invalid_geohash_tag_ignored() {
    let processor = GeohashedEventProcessor::new(30);
    let event = event_with_tags(vec![vec!["g", "invalid!"]]);
    let mut state = state_for(Scope::named("u09tu").unwrap());

    let result = processor.handle_event(event, &mut state, 1000);
    assert!(result.is_ok());

    let commands = result.unwrap();
    match &commands[0].target {
        Scope::Named(name) => assert_eq!(name, "u09tu", "Invalid geohash ignored, uses subdomain"),
        _ => panic!("Expected Named scope"),
    }
}

#[test]
fn test_invalid_geohash_falls_back_to_connection_scope() {
    let processor = GeohashedEventProcessor::new(30);
    let event = event_with_tags(vec![vec!["g", "invalid!"], vec!["g", "toolonggeohash"]]);
    let mut state = state_for(Scope::named("u09tu").unwrap());

    let result = processor.handle_event(event, &mut state, 1000);
    assert!(result.is_ok());

    let commands = result.unwrap();
    match &commands[0].target {
        Scope::Named(name) => {
            assert_eq!(name, "u09tu", "Invalid geohash tag should fall back to connection scope")
        }
        _ => panic!("Expected Named scope"),
    }
}

#[test]
fn test_events_without_geohash_stay_in_connection_scope() {
    let processor = GeohashedEventProcessor::new(30);
    let scopes = vec![Scope::root(), Scope::named("gbsuv").unwrap(), Scope::named("drt2z").unwrap()];

    for connection_scope in scopes {
        let mut state = state_for(connection_scope.clone());
        let result = processor.handle_event(event_without_geohash(), &mut state, 1000);
        assert!(result.is_ok());

        let commands = result.unwrap();
        assert_eq!(
            commands[0].target, connection_scope,
            "Event without geohash should stay in connection scope"
        );
    }
}

#[test]
fn test_multiple_geohash_tags_use_first_only() {
    let processor = GeohashedEventProcessor::new(30);
    let tags = vec![vec!["g", "drt2z"], vec!["g", "9q8yy"], vec!["g", "gbsuv"]];

    // Rejected at root (uses first geohash)
    let mut root_state = state_for(Scope::root());
    let result = processor.handle_event(event_with_tags(tags.clone()), &mut root_state, 1000);
    assert!(result.is_err(), "Event with geohash should be rejected at root");

    // Accepted on the first geohash's subdomain
    let mut first_state = state_for(Scope::named("drt2z").unwrap());
    let result2 = processor.handle_event(event_with_tags(tags.clone()), &mut first_state, 1000);
    assert!(result2.is_ok(), "Event should be accepted on first geohash subdomain");

    // Rejected on the second geohash's subdomain (second tag never consulted)
    let mut second_state = state_for(Scope::named("9q8yy").unwrap());
    let result3 = processor.handle_event(event_with_tags(tags), &mut second_state, 1000);
    assert!(result3.is_err(), "Event should be rejected on non-first geohash subdomain");
}

#[test]
fn test_geohash_scopes_are_isolated() {
    let processor = GeohashedEventProcessor::new(30);
    let cases = vec![("San Francisco event", "drt2z"), ("Los Angeles event", "9q8yy"), (
        "London event",
        "gbsuv",
    )];

    for (_content, geohash) in cases {
        // Rejected at root
        let mut root_state = state_for(Scope::root());
        let result = processor.handle_event(event_with_geohash(geohash), &mut root_state, 1000);
        assert!(result.is_err(), "Geotagged event should be rejected at root");

        // Accepted at the matching subdomain
        let mut state = state_for(Scope::named(geohash).unwrap());
        let result2 = processor.handle_event(event_with_geohash(geohash), &mut state, 1000);
        assert!(result2.is_ok(), "Event should be accepted on matching subdomain");

        let commands = result2.unwrap();
        match &commands[0].target {
            Scope::Named(name) => {
                assert_eq!(name, geohash, "Event should be stored in its matching scope")
            }
            _ => panic!("Expected Named scope"),
        }
    }
}

#[test]
fn test_same_event_different_endpoints_same_storage() {
    let processor = GeohashedEventProcessor::new(30);
    let endpoints = vec![
        (Scope::root(), false, "root"),
        (Scope::named("team1").unwrap(), false, "team1"),
        (Scope::named("admin").unwrap(), false, "admin"),
        (Scope::named("9q8yy").unwrap(), false, "different geohash"),
        (Scope::named("u09tu").unwrap(), true, "matching geohash"),
    ];

    for (endpoint, should_succeed, description) in endpoints {
        let mut state = state_for(endpoint);
        let result = processor.handle_event(event_with_geohash("u09tu"), &mut state, 1000);

        if should_succeed {
            assert!(result.is_ok(), "Event should be accepted on {}", description);
            let commands = result.unwrap();
            match &commands[0].target {
                Scope::Named(name) => {
                    assert_eq!(name, "u09tu", "Event should be stored in matching scope")
                }
                _ => panic!("Expected Named scope"),
            }
        } else {
            assert!(result.is_err(), "Event should be rejected on {}", description);
        }
    }
}

#[test]
fn test_rate_limit_window() {
    // Quota of 3 events per minute: the 4th event in the same window is
    // rejected; a later window accepts again.
    let processor = GeohashedEventProcessor::new(3);
    let mut state = state_for(Scope::root());

    for _ in 0..3 {
        let result = processor.handle_event(event_without_geohash(), &mut state, 1000);
        assert!(result.is_ok());
    }

    let fourth = processor.handle_event(event_without_geohash(), &mut state, 1030);
    assert!(fourth.is_err());
    let rejection = fourth.unwrap_err();
    assert_eq!(rejection.kind, RejectKind::RateLimited);
    assert!(rejection.message.contains("rate limit exceeded"));
    assert!(rejection.message.contains("4"));
    assert!(rejection.message.contains("3"));

    // More than 60 seconds after the window began, the window resets.
    let after_reset = processor.handle_event(event_without_geohash(), &mut state, 1061);
    assert!(after_reset.is_ok());
}

#[test]
fn test_rate_limit_counts_rejected_messages() {
    // The triggering message itself counts toward the quota, so continued
    // traffic in the same window stays rejected.
    let processor = GeohashedEventProcessor::new(1);
    let mut state = state_for(Scope::root());

    assert!(processor.handle_event(event_without_geohash(), &mut state, 1000).is_ok());
    assert!(processor.handle_event(event_without_geohash(), &mut state, 1010).is_err());
    assert!(processor.handle_event(event_without_geohash(), &mut state, 1020).is_err());
    assert_eq!(state.rate_limit_info.events_received, 3);
}

#[test]
fn test_auth_required_for_write() {
    let mut config = RelayConfig::default();
    config.require_auth_for_write = true;
    let processor = GeohashedEventProcessor::with_config(config);

    let mut anon = ConnectionState::new(Scope::root(), None, 1000);
    let result = processor.handle_event(event_without_geohash(), &mut anon, 1000);
    assert!(result.is_err());
    let rejection = result.unwrap_err();
    assert_eq!(rejection.kind, RejectKind::AuthRequired);
    assert!(rejection.message.contains("authentication required"));

    let mut authed = ConnectionState::new(Scope::root(), Some("pubkey123".to_string()), 1000);
    let result2 = processor.handle_event(event_without_geohash(), &mut authed, 1000);
    assert!(result2.is_ok());
}

#[test]
fn test_allow_list_gates_named_tenants() {
    let mut config = RelayConfig::default();
    config.allowed_subdomains = vec!["team1".to_string()];
    let processor = GeohashedEventProcessor::with_config(config);

    // A listed tenant is admitted.
    let mut listed = state_for(Scope::named("team1").unwrap());
    assert!(processor.handle_event(event_without_geohash(), &mut listed, 1000).is_ok());

    // An unlisted, non-geohash tenant is rejected.
    let mut unlisted = state_for(Scope::named("team2").unwrap());
    let result = processor.handle_event(event_without_geohash(), &mut unlisted, 1000);
    assert!(result.is_err());
    let rejection = result.unwrap_err();
    assert_eq!(rejection.kind, RejectKind::TenantNotAllowed);
    assert!(rejection.message.contains("team2"));

    // A geohash-named tenant bypasses the allow-list.
    let mut geographic = state_for(Scope::named("drt2z").unwrap());
    assert!(processor.handle_event(event_with_geohash("drt2z"), &mut geographic, 1000).is_ok());

    // The root scope is never gated by the allow-list.
    let mut root = state_for(Scope::root());
    assert!(processor.handle_event(event_without_geohash(), &mut root, 1000).is_ok());
}

#[test]
fn test_strict_mode_leaves_geohash_scopes_alone() {
    let mut config = RelayConfig::default();
    config.strict_subdomain_mode = true;
    let processor = GeohashedEventProcessor::with_config(config);

    let mut geographic = state_for(Scope::named("drt2z").unwrap());
    assert!(processor.handle_event(event_without_geohash(), &mut geographic, 1000).is_ok());

    let mut root = state_for(Scope::root());
    assert!(processor.handle_event(event_without_geohash(), &mut root, 1000).is_ok());
}

#[test]
fn test_can_see_event_gating() {
    // With no gates configured, everything is visible.
    let open_processor = GeohashedEventProcessor::new(30);
    let reader = state_for(Scope::named("drt2z").unwrap());
    assert!(open_processor.can_see_event(&event_without_geohash(), &reader));

    // Read-side auth gate.
    let mut config = RelayConfig::default();
    config.require_auth_for_read = true;
    let processor = GeohashedEventProcessor::with_config(config);
    let anon = ConnectionState::new(Scope::root(), None, 1000);
    assert!(!processor.can_see_event(&event_without_geohash(), &anon));
    let authed = ConnectionState::new(Scope::root(), Some("pubkey123".to_string()), 1000);
    assert!(processor.can_see_event(&event_without_geohash(), &authed));

    // Allow-list gate applies to readers too.
    let mut config2 = RelayConfig::default();
    config2.allowed_subdomains = vec!["team1".to_string()];
    let processor2 = GeohashedEventProcessor::with_config(config2);
    let unlisted = state_for(Scope::named("team2").unwrap());
    assert!(!processor2.can_see_event(&event_without_geohash(), &unlisted));
    let listed = state_for(Scope::named("team1").unwrap());
    assert!(processor2.can_see_event(&event_without_geohash(), &listed));
}

#[test]
fn test_verify_filters_gating() {
    let open_processor = GeohashedEventProcessor::new(30);
    let reader = state_for(Scope::root());
    assert!(open_processor.verify_filters(&reader).is_ok());

    let mut config = RelayConfig::default();
    config.require_auth_for_read = true;
    let processor = GeohashedEventProcessor::with_config(config);
    let anon = ConnectionState::new(Scope::root(), None, 1000);
    let result = processor.verify_filters(&anon);
    assert!(result.is_err());
    assert_eq!(result.unwrap_err().kind, RejectKind::AuthRequired);

    let mut config2 = RelayConfig::default();
    config2.allowed_subdomains = vec!["team1".to_string()];
    let processor2 = GeohashedEventProcessor::with_config(config2);
    let unlisted = state_for(Scope::named("team2").unwrap());
    let result2 = processor2.verify_filters(&unlisted);
    assert!(result2.is_err());
    assert_eq!(result2.unwrap_err().kind, RejectKind::TenantNotAllowed);
}

#[test]
fn test_stored_message_kept_intact() {
    let processor = GeohashedEventProcessor::new(30);
    let mut state = state_for(Scope::named("drt2z").unwrap());
    let event = event_with_tags(vec![vec!["g", "drt2z"], vec!["p", "someone"]]);

    let commands = processor.handle_event(event, &mut state, 1000).unwrap();
    assert_eq!(commands.len(), 1);
    let stored = &commands[0].message;
    assert_eq!(stored.id, "event-id");
    assert_eq!(stored.author, "author-pubkey");
    assert_eq!(stored.tags, vec![vec!["g", "drt2z"], vec!["p", "someone"]]);
}

#[test]
fn test_counters_advance() {
    let processor = GeohashedEventProcessor::new(30);
    let mut state = state_for(Scope::named("drt2z").unwrap());

    assert_eq!(state.events_sent, 0);
    assert!(processor.handle_event(event_without_geohash(), &mut state, 1000).is_ok());
    assert_eq!(state.events_sent, 1);
    assert_eq!(state.rate_limit_info.events_received, 1);

    // A rejected (wrong scope) message still counts toward the window and
    // the processed total, and the scope binding never changes.
    assert!(processor.handle_event(event_with_geohash("9q8yy"), &mut state, 1010).is_err());
    assert_eq!(state.events_sent, 2);
    assert_eq!(state.rate_limit_info.events_received, 2);
    assert_eq!(state.scope, Scope::named("drt2z").unwrap());
}
