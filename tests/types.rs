use fleet_net::channel::{Channel, ChannelType, RoleOverrides};
use fleet_net::error::FleetNetError;
use fleet_net::session::SessionState;
use fleet_net::types::{
    AuthRequest, JoinChannelRequest, ServerInfo, ServerState, UserChannelChange, UserInfo,
    UserStateChange, VoiceChannelState,
};

fn channel(name: &str) -> Channel {
    Channel {
        id: 1,
        name: name.to_string(),
        description: None,
        channel_type: ChannelType::Radio,
        role_permissions: RoleOverrides::new(),
        position: 0,
        parent_id: None,
    }
}

fn is_validation(r: Result<(), FleetNetError>) -> bool {
    matches!(r, Err(FleetNetError::ValidationError(_)))
}

#[test]
fn payload_validation_rules() {
    assert!(ServerInfo::new("S".to_string(), "1.0.0".to_string(), 0, 0).validate().is_ok());
    assert!(is_validation(ServerInfo::new(String::new(), "1.0.0".to_string(), 0, 0).validate()));
    assert!(is_validation(ServerInfo::new("S".to_string(), String::new(), 0, 0).validate()));

    assert!(AuthRequest::new("t".to_string(), "1".to_string()).validate().is_ok());
    assert!(is_validation(AuthRequest::new(String::new(), "1".to_string()).validate()));
    assert!(is_validation(AuthRequest::new("t".to_string(), String::new()).validate()));

    assert!(UserInfo::new(1, "u".to_string(), None, None).validate().is_ok());
    assert!(is_validation(UserInfo::new(1, String::new(), None, Some(2)).validate()));

    assert!(UserStateChange::new(1, SessionState::Away, true, true, false, false).validate().is_ok());
    assert!(is_validation(
        UserStateChange::new(0, SessionState::Active, false, false, false, false).validate()
    ));

    assert!(UserChannelChange::new(1, None, Some(2)).validate().is_ok());
    assert!(UserChannelChange::new(1, Some(2), None).validate().is_ok());
    assert!(is_validation(UserChannelChange::new(1, None, None).validate()));
    assert!(is_validation(UserChannelChange::new(0, Some(1), Some(2)).validate()));

    assert!(JoinChannelRequest::new(42).validate().is_ok());
    assert!(is_validation(JoinChannelRequest::new(0).validate()));
}

#[test]
fn server_state_validates_every_entry() {
    let good = ServerState::new(
        vec![UserInfo::new(1, "u".to_string(), None, None)],
        vec![VoiceChannelState::new(channel("General"), vec![1])],
    );
    assert!(good.validate().is_ok());
    assert!(ServerState::new(vec![], vec![]).validate().is_ok());

    let bad_user = ServerState::new(
        vec![UserInfo::new(1, "u".to_string(), None, None), UserInfo::new(2, String::new(), None, None)],
        vec![],
    );
    assert!(is_validation(bad_user.validate()));

    let bad_channel = ServerState::new(vec![], vec![VoiceChannelState::new(channel(""), vec![])]);
    assert!(is_validation(bad_channel.validate()));
}

fn validation_message(r: Result<(), FleetNetError>) -> String {
    match r {
        Err(FleetNetError::ValidationError(msg)) => msg,
        other => panic!("expected a validation error, got {other:?}"),
    }
}

#[test]
fn validation_reports_the_first_failed_rule() {
    assert_eq!(
        validation_message(UserChannelChange::new(0, None, None).validate()),
        "User ID cannot be zero"
    );
    assert_eq!(
        validation_message(UserChannelChange::new(3, None, None).validate()),
        "Either from_channel or to_channel must be specified"
    );
    assert_eq!(
        validation_message(ServerInfo::new(String::new(), String::new(), 0, 0).validate()),
        "Server Name cannot be empty"
    );
    let mut long = channel("General");
    long.name = "n".repeat(101);
    let state = ServerState::new(
        vec![],
        vec![VoiceChannelState::new(long, vec![]), VoiceChannelState::new(channel(""), vec![])],
    );
    assert_eq!(validation_message(state.validate()), "Channel name cannot exceed 100 characters");
    let both = ServerState::new(
        vec![UserInfo::new(1, String::new(), None, None)],
        vec![VoiceChannelState::new(channel(""), vec![])],
    );
    assert_eq!(validation_message(both.validate()), "Username cannot be empty");
}
