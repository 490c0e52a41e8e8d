use rusty_archive_viewer::archiver::error::ArchiverError;
use rusty_archive_viewer::archiver::session::{LineStyle, SessionManager, UserPreferences};

const T0: i64 = 1_700_000_000_000;

fn status_of(e: &ArchiverError) -> u16 {
    match e {
        ArchiverError::ServerError { status, .. } => *status,
        _ => 0,
    }
}

#[test]
fn test_session_lifecycle() {
    let mut manager = SessionManager::new(10, 30 * 60 * 1000, T0);
    let session = manager.create_session_at(None, 7, T0).unwrap();
    assert_eq!(session.id, 7);
    assert_eq!(session.created_at, T0);
    assert_eq!(session.user_preferences.timezone, "UTC");
    assert_eq!(session.user_preferences.max_points_per_chart, 10000);
    assert_eq!(session.user_preferences.default_chart_settings.line_style, LineStyle::Solid);
    assert_eq!(manager.get_active_session_count(), 1);

    let retrieved = manager.get_session_at(7, T0 + 1000).unwrap();
    assert_eq!(retrieved.id, session.id);
    assert_eq!(retrieved.last_active, T0 + 1000);

    let new_prefs = UserPreferences {
        timezone: "America/Los_Angeles".to_string(),
        ..Default::default()
    };
    let updated = manager.update_session_at(7, new_prefs, T0 + 2000).unwrap();
    assert_eq!(updated.user_preferences.timezone, "America/Los_Angeles");

    assert!(manager.destroy_session(7).is_ok());
    let err = manager.get_session_at(7, T0 + 3000).unwrap_err();
    assert_eq!(status_of(&err), 404);
    assert_eq!(status_of(&manager.destroy_session(7).unwrap_err()), 404);
}

#[test]
fn test_session_expiration() {
    let mut manager = SessionManager::new(10, 1000, T0);
    manager.create_session_at(None, 1, T0).unwrap();
    assert!(manager.get_session_at(1, T0 + 1000).is_ok());
    let err = manager.get_session_at(1, T0 + 2001).unwrap_err();
    assert_eq!(status_of(&err), 401);
    assert_eq!(manager.get_active_session_count(), 0);
}

#[test]
fn session_limit_is_enforced_after_cleanup() {
    let mut manager = SessionManager::new(2, 1000, T0);
    manager.create_session_at(None, 1, T0).unwrap();
    manager.create_session_at(None, 2, T0 + 500).unwrap();
    let err = manager.create_session_at(None, 3, T0 + 600).unwrap_err();
    assert_eq!(status_of(&err), 503);
    match err {
        ArchiverError::ServerError { message, retry_after, .. } => {
            assert_eq!(message, "Maximum number of sessions reached");
            assert_eq!(retry_after, Some(60_000));
        }
        _ => panic!("expected a server error"),
    }
    // Session 1 is idle past the timeout at T0 + 1200, so it makes room.
    let s = manager.create_session_at(None, 3, T0 + 1200).unwrap();
    assert_eq!(s.id, 3);
    assert_eq!(manager.get_active_session_count(), 2);
}

#[test]
fn sweep_counts_expired_sessions() {
    let mut manager = SessionManager::new(10, 1000, T0);
    manager.create_session_at(None, 1, T0).unwrap();
    manager.create_session_at(None, 2, T0 + 5000).unwrap();
    manager.sweep_expired_sessions(T0 + 5500);
    assert_eq!(manager.get_active_session_count(), 1);
    assert!(manager.get_session_at(2, T0 + 5600).is_ok());
    assert!(manager.cleanup_expired_sessions_at(T0 + 100_000).is_ok());
    assert_eq!(manager.get_active_session_count(), 0);
}

#[test]
fn sessions_with_random_ids_are_found() {
    let mut manager = SessionManager::new(10, 60_000, T0);
    let s = manager.create_session(None).unwrap();
    let again = manager.get_session(s.id).unwrap();
    assert_eq!(again.id, s.id);
}
