use spotty::event::PlayerEvent;
use spotty::notifier::LMS;

fn configured() -> LMS {
    LMS::new(
        Some("localhost:9000".to_string()),
        Some("aa:bb:cc:dd:ee:ff".to_string()),
        None,
    )
}

#[test]
fn configured_iff_target_and_player_present() {
    // The target host is defaulted when absent, so only the player
    // identifier can be missing.
    let with_both = configured();
    assert!(with_both.is_configured());

    let defaulted_host = LMS::new(None, Some("aa:bb:cc:dd:ee:ff".to_string()), None);
    assert!(defaulted_host.is_configured());

    let no_player = LMS::new(Some("localhost:9000".to_string()), None, None);
    assert!(!no_player.is_configured());

    let neither = LMS::new(None, None, None);
    assert!(!neither.is_configured());
}

#[test]
fn unconfigured_notifier_issues_no_request() {
    let lms = LMS::new(Some("localhost:9000".to_string()), None, None);
    let events = vec![
        PlayerEvent::Started { track_id: "abc".to_string() },
        PlayerEvent::Stopped { track_id: "abc".to_string() },
        PlayerEvent::Changed {
            old_track_id: "old".to_string(),
            new_track_id: "new".to_string(),
        },
        PlayerEvent::Volume { volume: 7 },
        PlayerEvent::Seek { position: 1234 },
    ];
    for e in &events {
        assert!(lms.signal_event(e).is_none());
    }
}

#[test]
fn started_round_trip() {
    let lms = configured();
    let req = lms
        .signal_event(&PlayerEvent::Started { track_id: "abc".to_string() })
        .unwrap();
    assert_eq!(req.url, "http://localhost:9000/jsonrpc.js");
    assert!(req.auth.is_none());
    assert_eq!(
        req.body,
        "{\"id\": 1,\"method\":\"slim.request\",\"params\":[\"aa:bb:cc:dd:ee:ff\",[\"spottyconnect\",\"start\",\"abc\"]]}"
    );

    let v: serde_json::Value = serde_json::from_str(&req.body).unwrap();
    assert_eq!(v["id"].as_i64().unwrap(), 1);
    assert_eq!(v["method"].as_str().unwrap(), "slim.request");
    let params = v["params"].as_array().unwrap();
    assert_eq!(params.len(), 2);
    assert_eq!(params[0].as_str().unwrap(), "aa:bb:cc:dd:ee:ff");
    let command = params[1].as_array().unwrap();
    assert_eq!(command.len(), 3);
    assert_eq!(command[0].as_str().unwrap(), "spottyconnect");
    assert_eq!(command[1].as_str().unwrap(), "start");
    assert_eq!(command[2].as_str().unwrap(), "abc");
}

#[test]
fn changed_carries_new_then_old() {
    let lms = configured();
    let req = lms
        .signal_event(&PlayerEvent::Changed {
            old_track_id: "before".to_string(),
            new_track_id: "after".to_string(),
        })
        .unwrap();
    let v: serde_json::Value = serde_json::from_str(&req.body).unwrap();
    let command = v["params"][1].as_array().unwrap();
    assert_eq!(command.len(), 4);
    assert_eq!(command[0].as_str().unwrap(), "spottyconnect");
    assert_eq!(command[1].as_str().unwrap(), "change");
    assert_eq!(command[2].as_str().unwrap(), "after");
    assert_eq!(command[3].as_str().unwrap(), "before");
}

#[test]
fn stopped_carries_no_track() {
    let lms = configured();
    let req = lms
        .signal_event(&PlayerEvent::Stopped { track_id: "abc".to_string() })
        .unwrap();
    let v: serde_json::Value = serde_json::from_str(&req.body).unwrap();
    let command = v["params"][1].as_array().unwrap();
    assert_eq!(command.len(), 2);
    assert_eq!(command[0].as_str().unwrap(), "spottyconnect");
    assert_eq!(command[1].as_str().unwrap(), "stop");
}

#[test]
fn volume_is_rendered_as_number() {
    let lms = configured();
    let req = lms.signal_event(&PlayerEvent::Volume { volume: 65535 }).unwrap();
    assert_eq!(
        req.body,
        "{\"id\": 1,\"method\":\"slim.request\",\"params\":[\"aa:bb:cc:dd:ee:ff\",[\"spottyconnect\",\"volume\",65535]]}"
    );
    let v: serde_json::Value = serde_json::from_str(&req.body).unwrap();
    let command = v["params"][1].as_array().unwrap();
    assert_eq!(command[2].as_i64().unwrap(), 65535);

    let req0 = lms.signal_event(&PlayerEvent::Volume { volume: 0 }).unwrap();
    let v0: serde_json::Value = serde_json::from_str(&req0.body).unwrap();
    assert_eq!(v0["params"][1][2].as_i64().unwrap(), 0);

    let req10 = lms.signal_event(&PlayerEvent::Volume { volume: 10 }).unwrap();
    let v10: serde_json::Value = serde_json::from_str(&req10.body).unwrap();
    assert_eq!(v10["params"][1][2].as_i64().unwrap(), 10);
}

#[test]
fn seek_reuses_bare_change_command() {
    let lms = configured();
    let req = lms.signal_event(&PlayerEvent::Seek { position: 123456 }).unwrap();
    let v: serde_json::Value = serde_json::from_str(&req.body).unwrap();
    let command = v["params"][1].as_array().unwrap();
    assert_eq!(command.len(), 2);
    assert_eq!(command[0].as_str().unwrap(), "spottyconnect");
    assert_eq!(command[1].as_str().unwrap(), "change");
}

#[test]
fn auth_is_carried_as_basic_header_value() {
    let lms = LMS::new(
        Some("server.local:9002".to_string()),
        Some("00:11:22:33:44:55".to_string()),
        Some("dXNlcjpwYXNz".to_string()),
    );
    let req = lms
        .signal_event(&PlayerEvent::Started { track_id: "x".to_string() })
        .unwrap();
    assert_eq!(req.url, "http://server.local:9002/jsonrpc.js");
    assert_eq!(req.auth.as_deref(), Some("Basic dXNlcjpwYXNz"));
}
