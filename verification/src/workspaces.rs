//! Workspace management: the decisions and response assembly of the
//! workspace handlers.
//!
//! The handlers themselves read rows and write responses; everything they
//! decide — who may delete, update or transfer a workspace, which request is
//! malformed — and everything they assemble from the rows they read stands
//! here, on plain values.

use vstd::prelude::*;

use crate::models::{clone_opt_string, User, Workspace};

verus! {

/// The errors of the workspace handlers.
#[derive(Clone, Copy, PartialEq, Eq, Structural, Debug)]
pub enum ApiError {
    /// The caller lacks the privileges for the operation
    MissingPrivileges,
    /// The addressed entity does not exist
    InvalidUuid,
    /// A name must not be empty
    InvalidName,
    /// The request carries no field to apply
    EmptyJson,
    /// The addressed workspace does not exist
    InvalidWorkspace,
    /// The addressed invitation does not exist
    InvalidInvitation,
    /// The session state is corrupt
    SessionCorrupt,
}

/// The request to create a new workspace
#[derive(Clone, PartialEq, Eq, Debug)]
pub struct CreateWorkspaceRequest {
    /// Name of the new workspace, must not be empty
    pub name: String,
    /// Optional description of the new workspace
    pub description: Option<String>,
}

/// The request type to update a workspace
///
/// All parameter are optional, but at least one of them must be specified
#[derive(Clone, PartialEq, Eq, Debug)]
pub struct UpdateWorkspaceRequest {
    /// The new name, if it is to change; must not be empty
    pub name: Option<String>,
    /// The new description: absent to keep it, `Some(None)` to remove it
    pub description: Option<Option<String>>,
}

/// The request to transfer a workspace to another account
#[derive(Clone, Copy, PartialEq, Eq, Structural, Debug)]
pub struct TransferWorkspaceRequest {
    /// The user that should receive the workspace
    pub user: u128,
}

/// The request to invite a user to the workspace
#[derive(Clone, Copy, PartialEq, Eq, Structural, Debug)]
pub struct InviteToWorkspace {
    /// The user to invite
    pub user: u128,
}

/// The url components of an invitation
#[derive(Clone, Copy, PartialEq, Eq, Structural, Debug)]
pub struct InviteUuid {
    /// The identity of the workspace
    pub w_uuid: u128,
    /// The identity of the invitation
    pub i_uuid: u128,
}

/// A simple version of a user
#[derive(Clone, PartialEq, Eq, Debug)]
pub struct SimpleUser {
    /// The user's identity
    pub uuid: u128,
    /// The login name
    pub username: String,
    /// The name shown to other users
    pub display_name: String,
}

/// A simple version of a workspace
#[derive(Clone, PartialEq, Eq, Debug)]
pub struct SimpleWorkspace {
    /// The workspace's identity
    pub uuid: u128,
    /// Name of the workspace
    pub name: String,
    /// Optional description of the workspace
    pub description: Option<String>,
    /// The user owning the workspace
    pub owner: SimpleUser,
    /// The point in time the workspace was created
    pub created_at: i64,
}

/// An attack of a workspace, reduced to what the responses carry.
#[derive(Clone, PartialEq, Eq, Debug)]
pub struct SimpleAttack {
    /// The attack's identity
    pub uuid: u128,
    /// The workspace the attack ran in
    pub workspace_uuid: u128,
    /// The attack's kind, by name
    pub attack_type: String,
    /// The user that started the attack
    pub started_from: SimpleUser,
    /// When the attack finished, if it did
    pub finished_at: Option<i64>,
    /// When the attack was created
    pub created_at: i64,
}

/// A full version of a workspace
#[derive(Clone, PartialEq, Eq, Debug)]
pub struct FullWorkspace {
    /// The workspace's identity
    pub uuid: u128,
    /// Name of the workspace
    pub name: String,
    /// Optional description of the workspace
    pub description: Option<String>,
    /// The user owning the workspace
    pub owner: SimpleUser,
    /// The attacks of the workspace
    pub attacks: Vec<SimpleAttack>,
    /// The members of the workspace
    pub members: Vec<SimpleUser>,
    /// The point in time the workspace was created
    pub created_at: i64,
}

/// The response to retrieve all workspaces
#[derive(Clone, PartialEq, Eq, Debug)]
pub struct GetAllWorkspacesResponse {
    /// The workspaces
    pub workspaces: Vec<SimpleWorkspace>,
}

/// One row of the store's joined read of all workspaces with their owners.
#[derive(Clone, PartialEq, Eq, Debug)]
pub struct WorkspaceListRow {
    /// The workspace's identity
    pub uuid: u128,
    /// Name of the workspace
    pub name: String,
    /// Optional description of the workspace
    pub description: Option<String>,
    /// The point in time the workspace was created
    pub created_at: i64,
    /// The user owning the workspace
    pub owner: SimpleUser,
}

/// One row of the store's joined read of a workspace's attacks.
#[derive(Clone, PartialEq, Eq, Debug)]
pub struct AttackRow {
    /// The attack's identity
    pub uuid: u128,
    /// The attack's kind, by name
    pub attack_type: String,
    /// When the attack finished, if it did
    pub finished_at: Option<i64>,
    /// When the attack was created
    pub created_at: i64,
    /// The user that started the attack
    pub started_by: SimpleUser,
}

/// A full version of an invitation to a workspace
#[derive(Clone, PartialEq, Eq, Debug)]
pub struct FullWorkspaceInvitation {
    /// The invitation's identity
    pub uuid: u128,
    /// The workspace the invitation is for
    pub workspace: SimpleWorkspace,
    /// The user that sent the invitation
    pub from: SimpleUser,
    /// The user that is invited
    pub target: SimpleUser,
}

/// The response to retrieve all open invitations of a workspace
#[derive(Clone, PartialEq, Eq, Debug)]
pub struct WorkspaceInvitationList {
    /// The open invitations
    pub invitations: Vec<FullWorkspaceInvitation>,
}

/// One row of the store's joined read of a workspace's open invitations.
#[derive(Clone, PartialEq, Eq, Debug)]
pub struct WorkspaceInvitationRow {
    /// The invitation's identity
    pub uuid: u128,
    /// The workspace the invitation is for
    pub workspace: Workspace,
    /// The user that sent the invitation
    pub from: SimpleUser,
    /// The user that is invited
    pub target: SimpleUser,
    /// The owner of the workspace
    pub owner: SimpleUser,
}

// ---------------------------------------------------------------------------
// Spec-side assembly
// ---------------------------------------------------------------------------

/// The simple version of a user row.
pub open spec fn spec_simple_user(u: User) -> SimpleUser {
    SimpleUser { uuid: u.uuid, username: u.username, display_name: u.display_name }
}

/// The simple version of a workspace row, owned by `owner`.
pub open spec fn spec_simple_workspace(w: Workspace, owner: SimpleUser) -> SimpleWorkspace {
    SimpleWorkspace {
        uuid: w.uuid,
        name: w.name,
        description: w.description,
        owner: owner,
        created_at: w.created_at,
    }
}

/// The simple versions of the workspace rows, all owned by `owner`, in row
/// order.
pub open spec fn spec_simple_workspaces(rows: Seq<Workspace>, owner: SimpleUser) -> Seq<
    SimpleWorkspace,
> {
    rows.map_values(|w: Workspace| spec_simple_workspace(w, owner))
}

/// The simple version of one row of the all-workspaces read.
pub open spec fn spec_listed_workspace(r: WorkspaceListRow) -> SimpleWorkspace {
    SimpleWorkspace {
        uuid: r.uuid,
        name: r.name,
        description: r.description,
        owner: r.owner,
        created_at: r.created_at,
    }
}

/// The simple versions of the rows of the all-workspaces read, in row order.
pub open spec fn spec_listed_workspaces(rows: Seq<WorkspaceListRow>) -> Seq<SimpleWorkspace> {
    rows.map_values(|r: WorkspaceListRow| spec_listed_workspace(r))
}

/// The response entry of one attack row, run in workspace `workspace_uuid`.
pub open spec fn spec_simple_attack(a: AttackRow, workspace_uuid: u128) -> SimpleAttack {
    SimpleAttack {
        uuid: a.uuid,
        workspace_uuid: workspace_uuid,
        attack_type: a.attack_type,
        started_from: a.started_by,
        finished_at: a.finished_at,
        created_at: a.created_at,
    }
}

/// The response entries of the attack rows, in row order.
pub open spec fn spec_simple_attacks(rows: Seq<AttackRow>, workspace_uuid: u128) -> Seq<
    SimpleAttack,
> {
    rows.map_values(|a: AttackRow| spec_simple_attack(a, workspace_uuid))
}

/// The response entry of one invitation row.
pub open spec fn spec_full_invitation(r: WorkspaceInvitationRow) -> FullWorkspaceInvitation {
    FullWorkspaceInvitation {
        uuid: r.uuid,
        workspace: SimpleWorkspace {
            uuid: r.workspace.uuid,
            name: r.workspace.name,
            description: r.workspace.description,
            owner: r.owner,
            created_at: r.workspace.created_at,
        },
        from: r.from,
        target: r.target,
    }
}

/// The response entries of the invitation rows, in row order.
pub open spec fn spec_full_invitations(rows: Seq<WorkspaceInvitationRow>) -> Seq<
    FullWorkspaceInvitation,
> {
    rows.map_values(|r: WorkspaceInvitationRow| spec_full_invitation(r))
}

// ---------------------------------------------------------------------------
// Copy helpers
// ---------------------------------------------------------------------------

/// Copy a simple user, keeping its value.
fn copy_simple_user(u: &SimpleUser) -> (r: SimpleUser)
    ensures
        r == *u,
{
    SimpleUser {
        uuid: u.uuid,
        username: u.username.clone(),
        display_name: u.display_name.clone(),
    }
}

// ---------------------------------------------------------------------------
// Decisions
// ---------------------------------------------------------------------------

/// Whether a workspace may be deleted by `user`: the workspace must exist,
/// and the user must hold the administrator permission or own it.
pub fn check_delete_workspace(user: &User, workspace: &Option<Workspace>) -> (r: Result<
    (),
    ApiError,
>)
    ensures
        (*workspace) is None ==> r == Err::<(), ApiError>(ApiError::InvalidUuid),
        (*workspace) matches Some(w) ==> if user.admin || w.owner == user.uuid {
            r is Ok
        } else {
            r == Err::<(), ApiError>(ApiError::MissingPrivileges)
        },
{
    match workspace {
        None => Err(ApiError::InvalidUuid),
        Some(w) => {
            if user.admin || w.owner == user.uuid {
                Ok(())
            } else {
                Err(ApiError::MissingPrivileges)
            }
        },
    }
}

/// Whether an update request may be applied to a workspace by
/// `session_user`: the workspace must exist and be owned by the user, a new
/// name must not be empty, and the request must carry at least one field.
pub fn check_update_workspace(
    workspace: &Option<Workspace>,
    session_user: u128,
    req: &UpdateWorkspaceRequest,
) -> (r: Result<(), ApiError>)
    ensures
        (*workspace) is None ==> r == Err::<(), ApiError>(ApiError::InvalidUuid),
        (*workspace) matches Some(w) && w.owner != session_user ==> r == Err::<(), ApiError>(
            ApiError::MissingPrivileges,
        ),
        (*workspace) matches Some(w) && w.owner == session_user ==> if req.name matches Some(n)
            && n@.len() == 0 {
            r == Err::<(), ApiError>(ApiError::InvalidName)
        } else if req.name is None && req.description is None {
            r == Err::<(), ApiError>(ApiError::EmptyJson)
        } else {
            r is Ok
        },
{
    match workspace {
        None => Err(ApiError::InvalidUuid),
        Some(w) => {
            if w.owner != session_user {
                return Err(ApiError::MissingPrivileges);
            }
            match &req.name {
                Some(n) => {
                    if n.as_str().is_empty() {
                        Err(ApiError::InvalidName)
                    } else {
                        Ok(())
                    }
                },
                None => {
                    if req.description.is_some() {
                        Ok(())
                    } else {
                        Err(ApiError::EmptyJson)
                    }
                },
            }
        },
    }
}

/// Whether a workspace may be transferred by `session_user`: it must exist
/// and be owned by the user.
pub fn check_transfer_ownership(workspace: &Option<Workspace>, session_user: u128) -> (r: Result<
    (),
    ApiError,
>)
    ensures
        r is Ok == ((*workspace) matches Some(w) && w.owner == session_user),
        r is Err ==> r == Err::<(), ApiError>(ApiError::MissingPrivileges),
{
    match workspace {
        None => Err(ApiError::MissingPrivileges),
        Some(w) => {
            if w.owner == session_user {
                Ok(())
            } else {
                Err(ApiError::MissingPrivileges)
            }
        },
    }
}

/// Whether an invitation may be retracted by `session_user`: the workspace
/// must exist, be owned by the user, and hold the invitation.
pub fn check_retract_invitation(
    workspace: &Option<Workspace>,
    session_user: u128,
    invitation_in_workspace: bool,
) -> (r: Result<(), ApiError>)
    ensures
        (*workspace) is None ==> r == Err::<(), ApiError>(ApiError::InvalidWorkspace),
        (*workspace) matches Some(w) && w.owner != session_user ==> r == Err::<(), ApiError>(
            ApiError::MissingPrivileges,
        ),
        (*workspace) matches Some(w) && w.owner == session_user ==> if invitation_in_workspace {
            r is Ok
        } else {
            r == Err::<(), ApiError>(ApiError::InvalidInvitation)
        },
{
    match workspace {
        None => Err(ApiError::InvalidWorkspace),
        Some(w) => {
            if w.owner != session_user {
                Err(ApiError::MissingPrivileges)
            } else if invitation_in_workspace {
                Ok(())
            } else {
                Err(ApiError::InvalidInvitation)
            }
        },
    }
}

// ---------------------------------------------------------------------------
// Response assembly
// ---------------------------------------------------------------------------

/// The all-workspaces response for one owner: each row as a simple
/// workspace, in row order.
pub fn build_simple_workspaces(owner: &User, rows: &Vec<Workspace>) -> (r:
    GetAllWorkspacesResponse)
    ensures
        r.workspaces@ == spec_simple_workspaces(rows@, spec_simple_user(*owner)),
{
    let owner_su = SimpleUser {
        uuid: owner.uuid,
        username: owner.username.clone(),
        display_name: owner.display_name.clone(),
    };
    let mut out: Vec<SimpleWorkspace> = Vec::new();
    let mut i: usize = 0;
    while i < rows.len()
        invariant
            i <= rows.len(),
            owner_su == spec_simple_user(*owner),
            out@ == spec_simple_workspaces(rows@.take(i as int), spec_simple_user(*owner)),
        decreases rows.len() - i,
    {
        out.push(
            SimpleWorkspace {
                uuid: rows[i].uuid,
                name: rows[i].name.clone(),
                description: clone_opt_string(&rows[i].description),
                owner: copy_simple_user(&owner_su),
                created_at: rows[i].created_at,
            },
        );
        proof {
            broadcast use Seq::lemma_map_take_succ;

            assert(out@ =~= spec_simple_workspaces(
                rows@.take(i as int + 1),
                spec_simple_user(*owner),
            ));
        }
        i += 1;
    }
    proof {
        assert(rows@.take(rows@.len() as int) =~= rows@);
    }
    GetAllWorkspacesResponse { workspaces: out }
}

/// The all-workspaces response of the administration view: each row of the
/// joined read as a simple workspace, in row order.
pub fn build_listed_workspaces(rows: &Vec<WorkspaceListRow>) -> (r: GetAllWorkspacesResponse)
    ensures
        r.workspaces@ == spec_listed_workspaces(rows@),
{
    let mut out: Vec<SimpleWorkspace> = Vec::new();
    let mut i: usize = 0;
    while i < rows.len()
        invariant
            i <= rows.len(),
            out@ == spec_listed_workspaces(rows@.take(i as int)),
        decreases rows.len() - i,
    {
        out.push(
            SimpleWorkspace {
                uuid: rows[i].uuid,
                name: rows[i].name.clone(),
                description: clone_opt_string(&rows[i].description),
                owner: copy_simple_user(&rows[i].owner),
                created_at: rows[i].created_at,
            },
        );
        proof {
            broadcast use Seq::lemma_map_take_succ;

            assert(out@ =~= spec_listed_workspaces(rows@.take(i as int + 1)));
        }
        i += 1;
    }
    proof {
        assert(rows@.take(rows@.len() as int) =~= rows@);
    }
    GetAllWorkspacesResponse { workspaces: out }
}

/// The full version of a workspace, assembled from the workspace row, its
/// owner, its attack rows and its member rows.
///
/// Fails exactly when the workspace row is absent.
pub fn build_full_workspace(
    workspace: &Option<Workspace>,
    owner: &User,
    attacks: &Vec<AttackRow>,
    members: &Vec<SimpleUser>,
) -> (r: Result<FullWorkspace, ApiError>)
    ensures
        (*workspace) is None ==> r == Err::<FullWorkspace, ApiError>(ApiError::InvalidUuid),
        (*workspace) matches Some(w) ==> r matches Ok(fw) && fw.uuid == w.uuid && fw.name == w.name
            && fw.description == w.description && fw.owner == spec_simple_user(*owner)
            && fw.attacks@ == spec_simple_attacks(attacks@, w.uuid) && fw.members@ == members@
            && fw.created_at == w.created_at,
{
    let w = match workspace {
        None => {
            return Err(ApiError::InvalidUuid);
        },
        Some(w) => w,
    };
    let mut attack_list: Vec<SimpleAttack> = Vec::new();
    let mut i: usize = 0;
    while i < attacks.len()
        invariant
            i <= attacks.len(),
            attack_list@ == spec_simple_attacks(attacks@.take(i as int), w.uuid),
        decreases attacks.len() - i,
    {
        out_push_attack(&mut attack_list, &attacks[i], w.uuid);
        proof {
            broadcast use Seq::lemma_map_take_succ;

            assert(attack_list@ =~= spec_simple_attacks(attacks@.take(i as int + 1), w.uuid));
        }
        i += 1;
    }
    proof {
        assert(attacks@.take(attacks@.len() as int) =~= attacks@);
    }
    let mut member_list: Vec<SimpleUser> = Vec::new();
    let mut i: usize = 0;
    while i < members.len()
        invariant
            i <= members.len(),
            member_list@ == members@.take(i as int),
        decreases members.len() - i,
    {
        member_list.push(copy_simple_user(&members[i]));
        proof {
            assert(member_list@ =~= members@.take(i as int + 1));
        }
        i += 1;
    }
    proof {
        assert(members@.take(members@.len() as int) =~= members@);
    }
    Ok(
        FullWorkspace {
            uuid: w.uuid,
            name: w.name.clone(),
            description: clone_opt_string(&w.description),
            owner: SimpleUser {
                uuid: owner.uuid,
                username: owner.username.clone(),
                display_name: owner.display_name.clone(),
            },
            attacks: attack_list,
            members: member_list,
            created_at: w.created_at,
        },
    )
}

/// Push the response entry of one attack row.
fn out_push_attack(out: &mut Vec<SimpleAttack>, a: &AttackRow, workspace_uuid: u128)
    ensures
        final(out)@ == old(out)@.push(spec_simple_attack(*a, workspace_uuid)),
{
    out.push(
        SimpleAttack {
            uuid: a.uuid,
            workspace_uuid: workspace_uuid,
            attack_type: a.attack_type.clone(),
            started_from: copy_simple_user(&a.started_by),
            finished_at: a.finished_at,
            created_at: a.created_at,
        },
    );
}

/// The full version of a workspace for a caller that must be a member or the
/// owner.
///
/// Fails with [`ApiError::MissingPrivileges`] when the caller is neither,
/// and with [`ApiError::InvalidUuid`] when the workspace row is absent.
pub fn build_full_workspace_checked(
    is_member_or_owner: bool,
    workspace: &Option<Workspace>,
    owner: &User,
    attacks: &Vec<AttackRow>,
    members: &Vec<SimpleUser>,
) -> (r: Result<FullWorkspace, ApiError>)
    ensures
        !is_member_or_owner ==> r == Err::<FullWorkspace, ApiError>(ApiError::MissingPrivileges),
        is_member_or_owner && (*workspace) is None ==> r == Err::<FullWorkspace, ApiError>(
            ApiError::InvalidUuid,
        ),
        is_member_or_owner ==> ((*workspace) matches Some(w) ==> r matches Ok(fw) && fw.uuid
            == w.uuid && fw.name == w.name && fw.description == w.description && fw.owner
            == spec_simple_user(*owner) && fw.attacks@ == spec_simple_attacks(attacks@, w.uuid)
            && fw.members@ == members@ && fw.created_at == w.created_at),
{
    if !is_member_or_owner {
        return Err(ApiError::MissingPrivileges);
    }
    build_full_workspace(workspace, owner, attacks, members)
}

/// The open invitations of a workspace, for its owner.
///
/// Fails with [`ApiError::InvalidWorkspace`] when the workspace row is
/// absent and with [`ApiError::MissingPrivileges`] when `session_user` does
/// not own it.
pub fn build_invitation_list(
    workspace: &Option<Workspace>,
    session_user: u128,
    rows: &Vec<WorkspaceInvitationRow>,
) -> (r: Result<WorkspaceInvitationList, ApiError>)
    ensures
        (*workspace) is None ==> r == Err::<WorkspaceInvitationList, ApiError>(
            ApiError::InvalidWorkspace,
        ),
        (*workspace) matches Some(w) && w.owner != session_user ==> r == Err::<
            WorkspaceInvitationList,
            ApiError,
        >(ApiError::MissingPrivileges),
        (*workspace) matches Some(w) && w.owner == session_user ==> (r matches Ok(list)
            && list.invitations@ == spec_full_invitations(rows@)),
{
    let w = match workspace {
        None => {
            return Err(ApiError::InvalidWorkspace);
        },
        Some(w) => w,
    };
    if w.owner != session_user {
        return Err(ApiError::MissingPrivileges);
    }
    let mut out: Vec<FullWorkspaceInvitation> = Vec::new();
    let mut i: usize = 0;
    while i < rows.len()
        invariant
            i <= rows.len(),
            out@ == spec_full_invitations(rows@.take(i as int)),
        decreases rows.len() - i,
    {
        out.push(
            FullWorkspaceInvitation {
                uuid: rows[i].uuid,
                workspace: SimpleWorkspace {
                    uuid: rows[i].workspace.uuid,
                    name: rows[i].workspace.name.clone(),
                    description: clone_opt_string(&rows[i].workspace.description),
                    owner: copy_simple_user(&rows[i].owner),
                    created_at: rows[i].workspace.created_at,
                },
                from: copy_simple_user(&rows[i].from),
                target: copy_simple_user(&rows[i].target),
            },
        );
        proof {
            broadcast use Seq::lemma_map_take_succ;

            assert(out@ =~= spec_full_invitations(rows@.take(i as int + 1)));
        }
        i += 1;
    }
    proof {
        assert(rows@.take(rows@.len() as int) =~= rows@);
    }
    Ok(WorkspaceInvitationList { invitations: out })
}

} // verus!
