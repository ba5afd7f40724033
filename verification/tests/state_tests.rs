use solguard::notifications::EmailClient;
use solguard::notifications::NotificationPreferences;
use solguard::notifications::NotificationType;
use solguard::notifications::SlackClient;
use solguard::websocket::WsConnection;
use solguard::websocket::WsState;

fn conn(id: &str, user: &str, project: Option<&str>) -> WsConnection {
    WsConnection {
        id: id.to_string(),
        user_id: user.to_string(),
        project_id: project.map(|p| p.to_string()),
    }
}

#[test]
fn connections_register_and_unregister() {
    let mut state = WsState::new();
    assert_eq!(state.connection_count(), 0);
    state.add_connection(conn("c1", "alice", Some("p1")));
    state.add_connection(conn("c2", "bob", None));
    assert_eq!(state.connection_count(), 2);
    state.remove_connection("c1");
    assert_eq!(state.connection_count(), 1);
    state.remove_connection("missing");
    assert_eq!(state.connection_count(), 1);
    // registering under an existing id replaces the prior connection
    state.add_connection(conn("c2", "carol", Some("p2")));
    assert_eq!(state.connection_count(), 1);
    state.remove_connection("c2");
    assert_eq!(state.connection_count(), 0);
}

#[test]
fn notification_clients_construct() {
    let email = EmailClient::new(
        "smtp.example.org".to_string(),
        587,
        "mailer".to_string(),
        "pw".to_string(),
    );
    let slack = SlackClient::new("https://hooks.example.org/T000".to_string());
    let prefs = NotificationPreferences {
        user_id: "alice".to_string(),
        email_notifications: true,
        slack_notifications: false,
        webhook_url: None,
        notification_types: vec![
            NotificationType::AnalysisComplete,
            NotificationType::Custom("weekly".to_string()),
        ],
    };
    assert!(prefs.email_notifications);
    assert!(!prefs.slack_notifications);
    assert_eq!(prefs.notification_types.len(), 2);
    let _ = (email, slack);
}
