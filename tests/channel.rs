use fleet_net::channel::{Channel, ChannelPermissions, ChannelType, RoleOverrides};
use fleet_net::error::FleetNetError;
use fleet_net::permissions;
use fleet_net::role::Role;

fn create_test_channel(id: u16) -> Channel {
    Channel {
        id,
        name: "Test Channel".to_string(),
        description: Some("A test channel".to_string()),
        channel_type: ChannelType::Voice,
        role_permissions: RoleOverrides::new(),
        position: 0,
        parent_id: None,
    }
}

#[test]
fn test_compute_final_permissions_deny_overrides_allow() {
    let perms = ChannelPermissions {
        allow: permissions::SPEAK | permissions::LISTEN,
        deny: permissions::SPEAK,
    };

    let final_perms = perms.compute_final_permissions();

    assert_eq!(final_perms & permissions::SPEAK, 0);
    assert_ne!(final_perms & permissions::LISTEN, 0);
}

#[test]
fn test_compute_user_permissions_uses_first_matching_role() {
    let mut channel = create_test_channel(1);
    channel.role_permissions.insert(
        "admin".to_string(),
        ChannelPermissions { allow: permissions::SPEAK, deny: 0 },
    );
    channel.role_permissions.insert(
        "member".to_string(),
        ChannelPermissions { allow: 0, deny: permissions::SPEAK },
    );

    let admin_role = Role::new("admin".to_string(), "Admin".to_string())
        .with_permissions(0)
        .with_priority(1);
    let member_role = Role::new("member".to_string(), "Member".to_string())
        .with_permissions(permissions::SPEAK)
        .with_priority(10);

    let roles = vec![admin_role, member_role];
    let perms = channel.compute_user_permissions(&roles, &[]).unwrap();

    assert_ne!(perms & permissions::SPEAK, 0);
}

#[test]
fn test_compute_user_permissions_inherits_from_parents() {
    let mut parent = create_test_channel(1);

    let mut child = create_test_channel(2);
    child.parent_id = Some(parent.id);

    let mut grandparent = create_test_channel(0);
    grandparent.role_permissions.insert(
        "member".to_string(),
        ChannelPermissions { allow: permissions::LISTEN | permissions::SPEAK, deny: 0 },
    );

    parent.parent_id = Some(0);

    let member_role = Role::new("member".to_string(), "Member".to_string()).with_permissions(0);

    let roles = [member_role];
    let perms = child
        .compute_user_permissions(&roles, &[grandparent.clone(), parent.clone()])
        .unwrap();

    assert_ne!(perms & permissions::SPEAK, 0);
    assert_ne!(perms & permissions::LISTEN, 0);
}

#[test]
fn test_compute_user_permissions_falls_back_to_role_base() {
    let channel = create_test_channel(1);

    let role = Role::new("member".to_string(), "Member".to_string())
        .with_permissions(permissions::SPEAK | permissions::CONNECT);

    let roles = [role];
    let perms = channel.compute_user_permissions(&roles, &[]).unwrap();

    assert_eq!(perms, permissions::SPEAK | permissions::CONNECT);
}

#[test]
fn test_compute_user_permissions_handles_no_roles() {
    let channel = create_test_channel(1);

    let roles: Vec<Role> = vec![];
    let perms = channel.compute_user_permissions(&roles, &[]).unwrap();

    assert_eq!(perms, 0);
}

#[test]
fn test_banned_role_overrides_member_role() {
    let mut channel = create_test_channel(1);
    channel.role_permissions.insert(
        "member".to_string(),
        ChannelPermissions { allow: permissions::SPEAK | permissions::LISTEN, deny: 0 },
    );
    channel.role_permissions.insert(
        "banned".to_string(),
        ChannelPermissions { allow: 0, deny: permissions::SPEAK },
    );

    let banned_role = Role::new("banned".to_string(), "Banned".to_string())
        .with_permissions(0)
        .with_priority(10);
    let member_role = Role::new("member".to_string(), "Member".to_string())
        .with_permissions(permissions::SPEAK)
        .with_priority(5);

    let roles = [banned_role, member_role];
    let perms = channel.compute_user_permissions(&roles, &[]).unwrap();

    assert_eq!(perms & permissions::SPEAK, 0);
    assert_ne!(perms & permissions::LISTEN, 0);
}

#[test]
fn test_admin_role_overrides_banned_role() {
    let mut channel = create_test_channel(1);
    channel.role_permissions.insert(
        "admin".to_string(),
        ChannelPermissions {
            allow: permissions::SPEAK | permissions::LISTEN | permissions::CONNECT,
            deny: 0,
        },
    );
    channel.role_permissions.insert(
        "banned".to_string(),
        ChannelPermissions {
            allow: permissions::CONNECT,
            deny: permissions::SPEAK | permissions::LISTEN,
        },
    );

    let admin_role = Role::new("admin".to_string(), "Admin".to_string())
        .with_permissions(0)
        .with_priority(10);
    let banned_role = Role::new("banned".to_string(), "Banned".to_string())
        .with_permissions(0)
        .with_priority(5);

    let roles = [admin_role, banned_role];
    let perms = channel.compute_user_permissions(&roles, &[]).unwrap();

    assert_ne!(perms & permissions::SPEAK, 0);
    assert_ne!(perms & permissions::LISTEN, 0);
    assert_ne!(perms & permissions::CONNECT, 0);
}

#[test]
fn empty_roles_give_nothing_even_with_overrides_and_parents() {
    let mut parent = create_test_channel(1);
    parent.role_permissions.insert(
        "member".to_string(),
        ChannelPermissions { allow: u64::MAX, deny: 0 },
    );
    let mut child = create_test_channel(2);
    child.parent_id = Some(1);
    child.role_permissions.insert(
        "member".to_string(),
        ChannelPermissions { allow: permissions::SPEAK, deny: 0 },
    );
    let roles: Vec<Role> = vec![];
    assert_eq!(child.compute_user_permissions(&roles, &[parent]).unwrap(), 0);
}

#[test]
fn parent_deny_is_not_undone_by_base_permissions() {
    let mut parent = create_test_channel(1);
    parent.role_permissions.insert(
        "member".to_string(),
        ChannelPermissions { allow: 0, deny: permissions::SPEAK },
    );
    let mut child = create_test_channel(2);
    child.parent_id = Some(1);
    let member = Role::new("member".to_string(), "Member".to_string())
        .with_permissions(permissions::SPEAK | permissions::CONNECT);
    let perms = child.compute_user_permissions(&[member], &[parent]).unwrap();
    assert_eq!(perms, permissions::CONNECT);
}

#[test]
fn child_override_beats_parent() {
    let mut parent = create_test_channel(1);
    parent.role_permissions.insert(
        "member".to_string(),
        ChannelPermissions { allow: permissions::SPEAK | permissions::LISTEN, deny: 0 },
    );
    let mut child = create_test_channel(2);
    child.parent_id = Some(1);
    child.role_permissions.insert(
        "member".to_string(),
        ChannelPermissions { allow: 0, deny: permissions::SPEAK },
    );
    let member = Role::new("member".to_string(), "Member".to_string());
    let perms = child.compute_user_permissions(&[member], &[parent]).unwrap();
    assert_eq!(perms, permissions::LISTEN);
}

#[test]
fn cyclic_parent_chain_is_rejected() {
    let mut a = create_test_channel(1);
    a.parent_id = Some(2);
    let mut b = create_test_channel(2);
    b.parent_id = Some(1);
    let member = Role::new("member".to_string(), "Member".to_string());
    let lookup = [a.clone(), b.clone()];
    let result = a.compute_user_permissions(&[member], &lookup);
    assert!(matches!(result, Err(FleetNetError::ValidationError(_))));
}

#[test]
fn missing_parent_is_skipped() {
    let mut child = create_test_channel(2);
    child.parent_id = Some(9);
    let member = Role::new("member".to_string(), "Member".to_string())
        .with_permissions(permissions::LISTEN);
    assert_eq!(child.compute_user_permissions(&[member], &[]).unwrap(), permissions::LISTEN);
}

#[test]
fn insert_replaces_earlier_override() {
    let mut overrides = RoleOverrides::new();
    overrides.insert("member".to_string(), ChannelPermissions { allow: 1, deny: 0 });
    overrides.insert("member".to_string(), ChannelPermissions { allow: 2, deny: 4 });
    assert_eq!(
        overrides.get(&"member".to_string()),
        Some(ChannelPermissions { allow: 2, deny: 4 })
    );
    assert_eq!(overrides.get(&"admin".to_string()), None);
}

#[test]
fn channel_validation() {
    assert!(create_test_channel(1).validate().is_ok());

    let mut empty_name = create_test_channel(1);
    empty_name.name = String::new();
    assert!(matches!(empty_name.validate(), Err(FleetNetError::ValidationError(_))));

    let mut long_name = create_test_channel(1);
    long_name.name = "\u{e9}".repeat(100);
    assert!(long_name.validate().is_ok());
    long_name.name = "a".repeat(101);
    assert!(matches!(long_name.validate(), Err(FleetNetError::ValidationError(_))));

    let mut long_description = create_test_channel(1);
    long_description.description = Some("d".repeat(501));
    assert!(matches!(long_description.validate(), Err(FleetNetError::ValidationError(_))));
    long_description.description = Some("d".repeat(500));
    assert!(long_description.validate().is_ok());

    let mut own_parent = create_test_channel(3);
    own_parent.parent_id = Some(3);
    assert!(matches!(own_parent.validate(), Err(FleetNetError::ValidationError(_))));
}
