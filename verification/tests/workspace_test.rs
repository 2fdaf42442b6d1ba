use kraken::models::{User, Workspace};
use kraken::workspaces::{
    build_full_workspace, build_full_workspace_checked, build_invitation_list,
    build_listed_workspaces, build_simple_workspaces, check_delete_workspace,
    check_retract_invitation, check_transfer_ownership, check_update_workspace, ApiError,
    AttackRow, SimpleUser, UpdateWorkspaceRequest, WorkspaceInvitationRow, WorkspaceListRow,
};

fn user(uuid: u128, admin: bool) -> User {
    User {
        uuid,
        username: format!("user-{uuid}"),
        display_name: format!("User {uuid}"),
        admin,
    }
}

fn workspace(uuid: u128, owner: u128) -> Workspace {
    Workspace {
        uuid,
        name: String::from("ws"),
        description: Some(String::from("a workspace")),
        owner,
        created_at: 1_700_000_000_000,
    }
}

fn simple_user(uuid: u128) -> SimpleUser {
    SimpleUser {
        uuid,
        username: format!("user-{uuid}"),
        display_name: format!("User {uuid}"),
    }
}

#[test]
fn delete_requires_admin_or_owner() {
    let w = Some(workspace(7, 1));
    assert!(check_delete_workspace(&user(1, false), &w).is_ok());
    assert!(check_delete_workspace(&user(2, true), &w).is_ok());
    assert_eq!(
        check_delete_workspace(&user(2, false), &w),
        Err(ApiError::MissingPrivileges)
    );
    assert_eq!(check_delete_workspace(&user(1, true), &None), Err(ApiError::InvalidUuid));
}

#[test]
fn update_validates_owner_name_and_content() {
    let w = Some(workspace(7, 1));
    let both = UpdateWorkspaceRequest {
        name: Some(String::from("new")),
        description: Some(Some(String::from("d"))),
    };
    assert!(check_update_workspace(&w, 1, &both).is_ok());
    assert_eq!(check_update_workspace(&None, 1, &both), Err(ApiError::InvalidUuid));
    assert_eq!(check_update_workspace(&w, 2, &both), Err(ApiError::MissingPrivileges));

    let empty_name = UpdateWorkspaceRequest { name: Some(String::new()), description: None };
    assert_eq!(check_update_workspace(&w, 1, &empty_name), Err(ApiError::InvalidName));

    let nothing = UpdateWorkspaceRequest { name: None, description: None };
    assert_eq!(check_update_workspace(&w, 1, &nothing), Err(ApiError::EmptyJson));

    let remove_description = UpdateWorkspaceRequest { name: None, description: Some(None) };
    assert!(check_update_workspace(&w, 1, &remove_description).is_ok());
}

#[test]
fn transfer_requires_existing_owned_workspace() {
    let w = Some(workspace(7, 1));
    assert!(check_transfer_ownership(&w, 1).is_ok());
    assert_eq!(check_transfer_ownership(&w, 2), Err(ApiError::MissingPrivileges));
    assert_eq!(check_transfer_ownership(&None, 1), Err(ApiError::MissingPrivileges));
}

#[test]
fn retract_checks_workspace_owner_and_invitation() {
    let w = Some(workspace(7, 1));
    assert!(check_retract_invitation(&w, 1, true).is_ok());
    assert_eq!(check_retract_invitation(&None, 1, true), Err(ApiError::InvalidWorkspace));
    assert_eq!(check_retract_invitation(&w, 2, true), Err(ApiError::MissingPrivileges));
    assert_eq!(check_retract_invitation(&w, 1, false), Err(ApiError::InvalidInvitation));
}

#[test]
fn simple_workspaces_carry_the_owner() {
    let owner = user(1, false);
    let rows = vec![workspace(7, 1), workspace(8, 1)];
    let r = build_simple_workspaces(&owner, &rows);
    assert_eq!(r.workspaces.len(), 2);
    assert_eq!(r.workspaces[0].uuid, 7);
    assert_eq!(r.workspaces[1].uuid, 8);
    assert_eq!(r.workspaces[0].name, "ws");
    assert_eq!(r.workspaces[0].description, Some(String::from("a workspace")));
    assert_eq!(r.workspaces[0].owner, simple_user(1));
    assert_eq!(r.workspaces[0].created_at, 1_700_000_000_000);
}

#[test]
fn listed_workspaces_keep_their_own_owners() {
    let rows = vec![
        WorkspaceListRow {
            uuid: 7,
            name: String::from("a"),
            description: None,
            created_at: 5,
            owner: simple_user(1),
        },
        WorkspaceListRow {
            uuid: 8,
            name: String::from("b"),
            description: Some(String::from("x")),
            created_at: 6,
            owner: simple_user(2),
        },
    ];
    let r = build_listed_workspaces(&rows);
    assert_eq!(r.workspaces.len(), 2);
    assert_eq!(r.workspaces[0].owner, simple_user(1));
    assert_eq!(r.workspaces[1].owner, simple_user(2));
    assert_eq!(r.workspaces[1].name, "b");
    assert_eq!(r.workspaces[0].description, None);
}

#[test]
fn full_workspace_assembles_attacks_and_members() {
    let w = Some(workspace(7, 1));
    let owner = user(1, false);
    let attacks = vec![AttackRow {
        uuid: 0x11,
        attack_type: String::from("HostAlive"),
        finished_at: Some(9),
        created_at: 5,
        started_by: simple_user(3),
    }];
    let members = vec![simple_user(3), simple_user(4)];
    let fw = build_full_workspace(&w, &owner, &attacks, &members).unwrap();
    assert_eq!(fw.uuid, 7);
    assert_eq!(fw.owner, simple_user(1));
    assert_eq!(fw.attacks.len(), 1);
    assert_eq!(fw.attacks[0].uuid, 0x11);
    assert_eq!(fw.attacks[0].workspace_uuid, 7);
    assert_eq!(fw.attacks[0].attack_type, "HostAlive");
    assert_eq!(fw.attacks[0].started_from, simple_user(3));
    assert_eq!(fw.attacks[0].finished_at, Some(9));
    assert_eq!(fw.members, members);

    assert_eq!(
        build_full_workspace(&None, &owner, &attacks, &members),
        Err(ApiError::InvalidUuid)
    );
}

#[test]
fn full_workspace_is_denied_to_non_members() {
    let w = Some(workspace(7, 1));
    let owner = user(1, false);
    assert_eq!(
        build_full_workspace_checked(false, &w, &owner, &vec![], &vec![]),
        Err(ApiError::MissingPrivileges)
    );
    assert!(build_full_workspace_checked(true, &w, &owner, &vec![], &vec![]).is_ok());
}

#[test]
fn invitation_list_is_owner_only() {
    let w = Some(workspace(7, 1));
    let rows = vec![WorkspaceInvitationRow {
        uuid: 0x21,
        workspace: workspace(7, 1),
        from: simple_user(1),
        target: simple_user(5),
        owner: simple_user(1),
    }];
    let list = build_invitation_list(&w, 1, &rows).unwrap();
    assert_eq!(list.invitations.len(), 1);
    assert_eq!(list.invitations[0].uuid, 0x21);
    assert_eq!(list.invitations[0].workspace.uuid, 7);
    assert_eq!(list.invitations[0].workspace.owner, simple_user(1));
    assert_eq!(list.invitations[0].from, simple_user(1));
    assert_eq!(list.invitations[0].target, simple_user(5));

    assert_eq!(build_invitation_list(&w, 2, &rows), Err(ApiError::MissingPrivileges));
    assert_eq!(build_invitation_list(&None, 1, &rows), Err(ApiError::InvalidWorkspace));
}
