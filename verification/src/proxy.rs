//! Proxy: a registry of projects and users, and the assignment of users to
//! projects under roles.
//!
//! Each assignment is kept twice, in the users of a project and in the
//! projects of a user. Who is an administrator and who holds which role is
//! decided by the role-based access control pallet: its answers are handed
//! in, and the calls made on it are handed back. An operation that makes a
//! call takes that call's answer too: a refused call ends it with its error
//! and changes nothing.

use crate::assoc::{id_eq, AssocMap};
use crate::codec::{blake2_256, blake2_256_of, encode_bytes, scale_bytes};
use crate::common::{
    bytes_copy, lemma_steps_stop_at_first_failure, run_in_order_from, steps_end, AccountId, Id,
};
use crate::rbac::IdOrVec;
use vstd::prelude::*;

verus! {

/// Roles of the proxy pallet.
#[derive(Clone, Copy, Debug, PartialEq, Eq, Structural)]
pub enum ProxyRole {
    Administrator,
    Developer,
    Investor,
    Issuer,
    RegionalCenter,
}

/// The status of a project.
#[derive(Clone, Copy, Debug, PartialEq, Eq, Structural)]
pub enum ProjectStatus {
    Started,
    Completed,
}

/// What the pallet stores for a project.
#[derive(Debug)]
pub struct ProjectData {
    pub developer: Option<Vec<AccountId>>,
    pub investor: Option<Vec<AccountId>>,
    pub issuer: Option<Vec<AccountId>>,
    pub regional_center: Option<Vec<AccountId>>,
    pub tittle: Vec<u8>,
    pub description: Vec<u8>,
    pub image: Vec<u8>,
    pub status: ProjectStatus,
    pub creation_date: u64,
    pub completition_date: u64,
    pub updated_date: u64,
}

pub struct ProjectView {
    pub developer: Option<Seq<AccountId>>,
    pub investor: Option<Seq<AccountId>>,
    pub issuer: Option<Seq<AccountId>>,
    pub regional_center: Option<Seq<AccountId>>,
    pub tittle: Seq<u8>,
    pub description: Seq<u8>,
    pub image: Seq<u8>,
    pub status: ProjectStatus,
    pub creation_date: u64,
    pub completition_date: u64,
    pub updated_date: u64,
}

pub open spec fn opt_bytes(o: Option<Vec<u8>>) -> Option<Seq<u8>> {
    match o {
        Some(v) => Some(v@),
        None => None,
    }
}

pub open spec fn opt_view(o: Option<Vec<AccountId>>) -> Option<Seq<AccountId>> {
    match o {
        Some(v) => Some(v@),
        None => None,
    }
}

impl View for ProjectData {
    type V = ProjectView;

    open spec fn view(&self) -> ProjectView {
        ProjectView {
            developer: opt_view(self.developer),
            investor: opt_view(self.investor),
            issuer: opt_view(self.issuer),
            regional_center: opt_view(self.regional_center),
            tittle: self.tittle@,
            description: self.description@,
            image: self.image@,
            status: self.status,
            creation_date: self.creation_date,
            completition_date: self.completition_date,
            updated_date: self.updated_date,
        }
    }
}

/// What the pallet stores for a user.
#[derive(Debug)]
pub struct UserData {
    pub name: Vec<u8>,
    pub role: Option<ProxyRole>,
    pub image: Vec<u8>,
    pub date_registered: u64,
    pub email: Vec<u8>,
    pub documents: Option<Vec<u8>>,
}

pub struct UserView {
    pub name: Seq<u8>,
    pub role: Option<ProxyRole>,
    pub image: Seq<u8>,
    pub date_registered: u64,
    pub email: Seq<u8>,
    pub documents: Option<Seq<u8>>,
}

impl View for UserData {
    type V = UserView;

    open spec fn view(&self) -> UserView {
        UserView {
            name: self.name@,
            role: self.role,
            image: self.image@,
            date_registered: self.date_registered,
            email: self.email@,
            documents: match self.documents {
                Some(d) => Some(d@),
                None => None,
            },
        }
    }
}

/// A call that the pallet makes on the role-based access control pallet.
#[derive(Debug)]
pub enum ProxyCall {
    /// Create a role of the pallet.
    CreateRole { role: ProxyRole },
    /// Give the administrator role, created with id `role`, its permissions.
    SetAdministratorPermissions { role: Id },
    /// Create a scope.
    CreateScope { scope: Id },
    /// Remove a scope.
    RemoveScope { scope: Id },
    /// Give a user a role in a scope.
    AssignRole { user: AccountId, scope: Id, role: ProxyRole },
    /// Take a role in a scope from a user.
    RemoveRole { user: AccountId, scope: Id, role: ProxyRole },
}

pub enum ProxyCallView {
    CreateRole { role: ProxyRole },
    SetAdministratorPermissions { role: Seq<u8> },
    CreateScope { scope: Seq<u8> },
    RemoveScope { scope: Seq<u8> },
    AssignRole { user: AccountId, scope: Seq<u8>, role: ProxyRole },
    RemoveRole { user: AccountId, scope: Seq<u8>, role: ProxyRole },
}

impl View for ProxyCall {
    type V = ProxyCallView;

    open spec fn view(&self) -> ProxyCallView {
        match self {
            ProxyCall::CreateRole { role } => ProxyCallView::CreateRole { role: *role },
            ProxyCall::SetAdministratorPermissions { role } => ProxyCallView::SetAdministratorPermissions {
                role: role@,
            },
            ProxyCall::CreateScope { scope } => ProxyCallView::CreateScope { scope: scope@ },
            ProxyCall::RemoveScope { scope } => ProxyCallView::RemoveScope { scope: scope@ },
            ProxyCall::AssignRole { user, scope, role } => ProxyCallView::AssignRole {
                user: *user,
                scope: scope@,
                role: *role,
            },
            ProxyCall::RemoveRole { user, scope, role } => ProxyCallView::RemoveRole {
                user: *user,
                scope: scope@,
                role: *role,
            },
        }
    }
}

pub open spec fn calls_view(calls: Seq<ProxyCall>) -> Seq<ProxyCallView> {
    calls.map_values(|c: ProxyCall| c@)
}

/// Events of the pallet.
#[derive(Clone, Copy, Debug, PartialEq, Eq)]
pub enum Event {
    ProxySetupCompleted,
    AdministratorAssigned(AccountId),
    AdministratorRemoved(AccountId),
    ProjectCreated(AccountId, Id),
    ProjectEdited(Id),
    ProjectDeleted(Id),
    UserAdded(AccountId),
    UserAssignedToProject(AccountId, Id),
    UserUnassignedFromProject(AccountId, Id),
    UserUpdated(AccountId),
    UserDeleted(AccountId),
}

pub enum EventView {
    ProxySetupCompleted,
    AdministratorAssigned(AccountId),
    AdministratorRemoved(AccountId),
    ProjectCreated(AccountId, Seq<u8>),
    ProjectEdited(Seq<u8>),
    ProjectDeleted(Seq<u8>),
    UserAdded(AccountId),
    UserAssignedToProject(AccountId, Seq<u8>),
    UserUnassignedFromProject(AccountId, Seq<u8>),
    UserUpdated(AccountId),
    UserDeleted(AccountId),
}

impl View for Event {
    type V = EventView;

    open spec fn view(&self) -> EventView {
        match self {
            Event::ProxySetupCompleted => EventView::ProxySetupCompleted,
            Event::AdministratorAssigned(a) => EventView::AdministratorAssigned(*a),
            Event::AdministratorRemoved(a) => EventView::AdministratorRemoved(*a),
            Event::ProjectCreated(a, p) => EventView::ProjectCreated(*a, p@),
            Event::ProjectEdited(p) => EventView::ProjectEdited(p@),
            Event::ProjectDeleted(p) => EventView::ProjectDeleted(p@),
            Event::UserAdded(a) => EventView::UserAdded(*a),
            Event::UserAssignedToProject(a, p) => EventView::UserAssignedToProject(*a, p@),
            Event::UserUnassignedFromProject(a, p) => EventView::UserUnassignedFromProject(*a, p@),
            Event::UserUpdated(a) => EventView::UserUpdated(*a),
            Event::UserDeleted(a) => EventView::UserDeleted(*a),
        }
    }
}

/// Errors of the pallet.
#[derive(Clone, Copy, Debug, PartialEq, Eq, Structural)]
pub enum Error {
    /// The global scope has not been set
    GlobalScopeNotSet,
    /// The access control pallet refused the caller or the role
    NotAuthorized,
    /// The completion date must be later than now
    CompletitionDateMustBeLater,
    /// The creation date must be earlier than now
    CreationDateMustBeInThePast,
    /// The project id is already in use
    ProjectIdAlreadyInUse,
    /// The project does not exist
    ProjectNotFound,
    /// A completed project cannot be edited
    CannotEditCompletedProject,
    /// A completed project cannot be deleted
    CannotDeleteCompletedProject,
    /// The user is already registered
    UserAlreadyRegistered,
    /// The user is not registered
    UserNotRegistered,
    /// The user is already assigned to the project
    UserAlreadyAssignedToProject,
    /// The user is not assigned to the project
    UserNotAssignedToProject,
    /// The user already has the role in the project
    UserAlreadyHasRole,
    /// The administrator role cannot be given within a project
    CannotRegisterAdminRole,
    /// The user has the largest number of projects allowed
    MaxProjectsPerUserReached,
    /// The project has the largest number of users allowed
    MaxUsersPerProjectReached,
    /// The project has the largest number of developers allowed
    MaxDevelopersPerProjectReached,
    /// The project has the largest number of investors allowed
    MaxInvestorsPerProjectReached,
    /// The project has the largest number of issuers allowed
    MaxIssuersPerProjectReached,
    /// The project has the largest number of regional centers allowed
    MaxRegionalCenterPerProjectReached,
    /// The access control pallet refused a call, with the index of its error
    AccessControl(u32),
}

/// The bounds of the pallet's lists.
#[derive(Clone, Copy, Debug)]
pub struct ProxyConfig {
    pub max_projects_per_user: u32,
    pub max_users_per_project: u32,
    pub max_developers_per_project: u32,
    pub max_investors_per_project: u32,
    pub max_issuers_per_project: u32,
    pub max_regional_center_per_project: u32,
}

/// The pallet's state as maps.
pub struct ProxyState {
    pub global_scope: Option<Seq<u8>>,
    pub projects: Map<Seq<u8>, ProjectView>,
    pub users: Map<AccountId, UserView>,
    pub users_by_project: Map<Seq<u8>, Seq<AccountId>>,
    pub projects_by_user: Map<AccountId, Seq<Id>>,
    pub events: Seq<EventView>,
    pub config: ProxyConfig,
}

/// The users assigned to a project (none when nothing is stored).
pub open spec fn users_of(s: ProxyState, project: Seq<u8>) -> Seq<AccountId> {
    if s.users_by_project.contains_key(project) {
        s.users_by_project[project]
    } else {
        Seq::empty()
    }
}

/// The projects a user is assigned to (none when nothing is stored).
pub open spec fn projects_of(s: ProxyState, user: AccountId) -> Seq<Id> {
    if s.projects_by_user.contains_key(user) {
        s.projects_by_user[user]
    } else {
        Seq::empty()
    }
}

/// Whether a list of ids holds one whose view is `id`.
pub open spec fn has_id(ids: Seq<Id>, id: Seq<u8>) -> bool {
    exists|i: int| 0 <= i < ids.len() && ids[i]@ == id
}

/// `s` without the occurrences of `x`.
pub open spec fn without_account(s: Seq<AccountId>, x: AccountId) -> Seq<AccountId>
    decreases s.len(),
{
    if s.len() == 0 {
        s
    } else {
        let sub = without_account(s.drop_last(), x);
        if s.last() != x {
            sub.push(s.last())
        } else {
            sub
        }
    }
}

/// `ids` without the ids whose view is `x`.
pub open spec fn without_id(ids: Seq<Id>, x: Seq<u8>) -> Seq<Id>
    decreases ids.len(),
{
    if ids.len() == 0 {
        ids
    } else {
        let sub = without_id(ids.drop_last(), x);
        if ids.last()@ != x {
            sub.push(ids.last())
        } else {
            sub
        }
    }
}

/// Every assignment is recorded on both sides.
pub open spec fn assignments_mirrored(s: ProxyState) -> bool {
    forall|p: Seq<u8>, u: AccountId| #[trigger] users_of(s, p).contains(u) <==> has_id(#[trigger] projects_of(s, u), p)
}

/// The project id of a title: the Blake2 digest of its SCALE encoding.
pub open spec fn spec_project_id(tittle: Seq<u8>) -> Seq<u8> {
    blake2_256_of(scale_bytes(tittle))
}

/// The SCALE encoding of the pallet id `IdOrVec::Vec(name)`.
pub open spec fn pallet_id_encoding(name: Seq<u8>) -> Seq<u8> {
    seq![1u8] + scale_bytes(name)
}

/// The global scope of a pallet named `name`.
pub open spec fn spec_global_scope(name: Seq<u8>) -> Seq<u8> {
    blake2_256_of(pallet_id_encoding(name))
}


/// A role list of a project after `user` is given the role: the list may already
/// hold at most `max` entries; `check` is the look-up that comes first.
pub enum RoleCheck {
    /// No look-up.
    NoCheck,
    /// The user must already be in the list.
    MustContain,
    /// Someone other than the user must be in the list.
    MustHoldOther,
}

pub open spec fn role_list_step(
    list: Option<Seq<AccountId>>,
    user: AccountId,
    max: u32,
    check: RoleCheck,
    full: Error,
) -> Result<Option<Seq<AccountId>>, Error> {
    match list {
        Some(l) => {
            let found = match check {
                RoleCheck::NoCheck => true,
                RoleCheck::MustContain => l.contains(user),
                RoleCheck::MustHoldOther => exists|i: int| 0 <= i < l.len() && l[i] != user,
            };
            if !found {
                Err(Error::UserAlreadyAssignedToProject)
            } else if l.len() >= max {
                Err(full)
            } else {
                Ok(Some(l))
            }
        },
        None => if max == 0 {
            Err(full)
        } else {
            Ok(Some(seq![user]))
        },
    }
}

/// The project after `user` is given `role` in it.
pub open spec fn update_project_role(p: ProjectView, user: AccountId, role: ProxyRole, c: ProxyConfig) -> Result<
    ProjectView,
    Error,
> {
    match role {
        ProxyRole::Administrator => Err(Error::CannotRegisterAdminRole),
        ProxyRole::Developer => match role_list_step(
            p.developer,
            user,
            c.max_developers_per_project,
            RoleCheck::NoCheck,
            Error::MaxDevelopersPerProjectReached,
        ) {
            Ok(l) => Ok(ProjectView { developer: l, ..p }),
            Err(e) => Err(e),
        },
        ProxyRole::Investor => match role_list_step(
            p.investor,
            user,
            c.max_investors_per_project,
            RoleCheck::MustContain,
            Error::MaxInvestorsPerProjectReached,
        ) {
            Ok(l) => Ok(ProjectView { investor: l, ..p }),
            Err(e) => Err(e),
        },
        ProxyRole::Issuer => match role_list_step(
            p.issuer,
            user,
            c.max_issuers_per_project,
            RoleCheck::MustContain,
            Error::MaxIssuersPerProjectReached,
        ) {
            Ok(l) => Ok(ProjectView { issuer: l, ..p }),
            Err(e) => Err(e),
        },
        ProxyRole::RegionalCenter => match role_list_step(
            p.regional_center,
            user,
            c.max_regional_center_per_project,
            RoleCheck::MustHoldOther,
            Error::MaxRegionalCenterPerProjectReached,
        ) {
            Ok(l) => Ok(ProjectView { regional_center: l, ..p }),
            Err(e) => Err(e),
        },
    }
}

/// The calls that the setup of a pallet named `name` makes, once the
/// administrator role was created with the id `admin_role`.
pub open spec fn setup_calls(name: Seq<u8>, admin_role: Seq<u8>) -> Seq<ProxyCallView> {
    seq![
        ProxyCallView::CreateRole { role: ProxyRole::Administrator },
        ProxyCallView::SetAdministratorPermissions { role: admin_role },
        ProxyCallView::CreateRole { role: ProxyRole::Developer },
        ProxyCallView::CreateRole { role: ProxyRole::Investor },
        ProxyCallView::CreateRole { role: ProxyRole::Issuer },
        ProxyCallView::CreateRole { role: ProxyRole::RegionalCenter },
        ProxyCallView::CreateScope { scope: spec_global_scope(name) },
    ]
}

/// Setup: the global scope is the digest of the pallet id.
pub open spec fn initial_setup(s: ProxyState, name: Seq<u8>) -> ProxyState {
    ProxyState {
        global_scope: Some(spec_global_scope(name)),
        events: s.events.push(EventView::ProxySetupCompleted),
        ..s
    }
}

/// How an operation that makes one call on the access control pallet ends:
/// `checked` is the state its own checks lead to, or their error; `answer` is
/// what the access control pallet answered. The state changes only when both
/// succeed.
pub open spec fn answered(checked: Result<ProxyState, Error>, answer: Result<(), Error>) -> Result<ProxyState, Error> {
    match checked {
        Ok(s) => match answer {
            Ok(_) => Ok(s),
            Err(e) => Err(e),
        },
        Err(e) => Err(e),
    }
}

/// Giving `admin` the administrator role in the global scope.
pub open spec fn add_administrator(s: ProxyState, admin: AccountId) -> Result<ProxyState, Error> {
    match s.global_scope {
        Some(_) => Ok(ProxyState { events: s.events.push(EventView::AdministratorAssigned(admin)), ..s }),
        None => Err(Error::GlobalScopeNotSet),
    }
}

/// Taking the administrator role in the global scope from `admin`.
pub open spec fn remove_administrator(s: ProxyState, admin: AccountId) -> Result<ProxyState, Error> {
    match s.global_scope {
        Some(_) => Ok(ProxyState { events: s.events.push(EventView::AdministratorRemoved(admin)), ..s }),
        None => Err(Error::GlobalScopeNotSet),
    }
}

/// The data of a new project.
pub open spec fn new_project(
    tittle: Seq<u8>,
    description: Seq<u8>,
    image: Seq<u8>,
    completition_date: u64,
    now: u64,
) -> ProjectView {
    ProjectView {
        developer: Some(Seq::empty()),
        investor: Some(Seq::empty()),
        issuer: Some(Seq::empty()),
        regional_center: Some(Seq::empty()),
        tittle,
        description,
        image,
        status: ProjectStatus::Started,
        creation_date: now,
        completition_date,
        updated_date: now,
    }
}

pub open spec fn create_project(
    s: ProxyState,
    admin: AccountId,
    authorized: bool,
    tittle: Seq<u8>,
    description: Seq<u8>,
    image: Seq<u8>,
    completition_date: u64,
    now: u64,
) -> Result<ProxyState, Error> {
    let pid = spec_project_id(tittle);
    if !authorized {
        Err(Error::NotAuthorized)
    } else if !(completition_date > now) {
        Err(Error::CompletitionDateMustBeLater)
    } else if s.projects.contains_key(pid) {
        Err(Error::ProjectIdAlreadyInUse)
    } else {
        Ok(
            ProxyState {
                projects: s.projects.insert(pid, new_project(tittle, description, image, completition_date, now)),
                events: s.events.push(EventView::ProjectCreated(admin, pid)),
                ..s
            },
        )
    }
}

pub open spec fn pick<T>(new: Option<T>, old: T) -> T {
    match new {
        Some(v) => v,
        None => old,
    }
}

pub open spec fn edit_project(
    s: ProxyState,
    authorized: bool,
    pid: Seq<u8>,
    tittle: Option<Seq<u8>>,
    description: Option<Seq<u8>>,
    image: Option<Seq<u8>>,
    creation_date: Option<u64>,
    completition_date: Option<u64>,
    now: u64,
) -> Result<ProxyState, Error> {
    if !authorized {
        Err(Error::NotAuthorized)
    } else if !s.projects.contains_key(pid) {
        Err(Error::ProjectNotFound)
    } else if s.projects[pid].status == ProjectStatus::Completed {
        Err(Error::CannotEditCompletedProject)
    } else if creation_date.is_some() && !(creation_date.unwrap() < now) {
        Err(Error::CreationDateMustBeInThePast)
    } else if completition_date.is_some() && !(completition_date.unwrap() > now) {
        Err(Error::CompletitionDateMustBeLater)
    } else {
        let p = s.projects[pid];
        Ok(
            ProxyState {
                projects: s.projects.insert(
                    pid,
                    ProjectView {
                        tittle: pick(tittle, p.tittle),
                        description: pick(description, p.description),
                        image: pick(image, p.image),
                        creation_date: pick(creation_date, p.creation_date),
                        completition_date: pick(completition_date, p.completition_date),
                        ..p
                    },
                ),
                events: s.events.push(EventView::ProjectEdited(pid)),
                ..s
            },
        )
    }
}

/// The projects of each user in `us`, in order, without `pid`.
pub open spec fn strip_project(m: Map<AccountId, Seq<Id>>, us: Seq<AccountId>, pid: Seq<u8>) -> Map<AccountId, Seq<Id>>
    decreases us.len(),
{
    if us.len() == 0 {
        m
    } else {
        let m1 = strip_project(m, us.drop_last(), pid);
        let u = us.last();
        let cur = if m1.contains_key(u) { m1[u] } else { Seq::empty() };
        m1.insert(u, without_id(cur, pid))
    }
}

/// The users of each project in `ps`, in order, without `user`.
pub open spec fn strip_user(m: Map<Seq<u8>, Seq<AccountId>>, ps: Seq<Id>, user: AccountId) -> Map<Seq<u8>, Seq<AccountId>>
    decreases ps.len(),
{
    if ps.len() == 0 {
        m
    } else {
        let m1 = strip_user(m, ps.drop_last(), user);
        let p = ps.last()@;
        let cur = if m1.contains_key(p) { m1[p] } else { Seq::empty() };
        m1.insert(p, without_account(cur, user))
    }
}

pub open spec fn delete_project(s: ProxyState, authorized: bool, pid: Seq<u8>) -> Result<ProxyState, Error> {
    if !authorized {
        Err(Error::NotAuthorized)
    } else if !s.projects.contains_key(pid) {
        Err(Error::ProjectNotFound)
    } else if s.projects[pid].status == ProjectStatus::Completed {
        Err(Error::CannotDeleteCompletedProject)
    } else {
        Ok(
            ProxyState {
                projects: s.projects.remove(pid),
                users_by_project: s.users_by_project.remove(pid),
                projects_by_user: strip_project(s.projects_by_user, users_of(s, pid), pid),
                events: s.events.push(EventView::ProjectDeleted(pid)),
                ..s
            },
        )
    }
}

pub open spec fn register_user(
    s: ProxyState,
    authorized: bool,
    user: AccountId,
    name: Seq<u8>,
    image: Seq<u8>,
    email: Seq<u8>,
    documents: Option<Seq<u8>>,
    now: u64,
) -> Result<ProxyState, Error> {
    if !authorized {
        Err(Error::NotAuthorized)
    } else if s.users.contains_key(user) {
        Err(Error::UserAlreadyRegistered)
    } else {
        Ok(
            ProxyState {
                users: s.users.insert(
                    user,
                    UserView { name, role: None, image, date_registered: now, email, documents },
                ),
                events: s.events.push(EventView::UserAdded(user)),
                ..s
            },
        )
    }
}

pub open spec fn assign_user(
    s: ProxyState,
    authorized: bool,
    user: AccountId,
    pid: Id,
    role: ProxyRole,
    user_has_role: bool,
) -> Result<ProxyState, Error> {
    let p = pid@;
    if !authorized {
        Err(Error::NotAuthorized)
    } else if !s.projects.contains_key(p) {
        Err(Error::ProjectNotFound)
    } else if s.projects[p].status == ProjectStatus::Completed {
        Err(Error::CannotEditCompletedProject)
    } else if !s.users.contains_key(user) {
        Err(Error::UserNotRegistered)
    } else if users_of(s, p).contains(user) || has_id(projects_of(s, user), p) {
        Err(Error::UserAlreadyAssignedToProject)
    } else if user_has_role {
        Err(Error::UserAlreadyHasRole)
    } else {
        match update_project_role(s.projects[p], user, role, s.config) {
            Err(e) => Err(e),
            Ok(project) => if projects_of(s, user).len() >= s.config.max_projects_per_user {
                Err(Error::MaxProjectsPerUserReached)
            } else if users_of(s, p).len() >= s.config.max_users_per_project {
                Err(Error::MaxUsersPerProjectReached)
            } else {
                Ok(
                    ProxyState {
                        projects: s.projects.insert(p, project),
                        projects_by_user: s.projects_by_user.insert(user, projects_of(s, user).push(pid)),
                        users_by_project: s.users_by_project.insert(p, users_of(s, p).push(user)),
                        events: s.events.push(EventView::UserAssignedToProject(user, p)),
                        ..s
                    },
                )
            },
        }
    }
}

pub open spec fn unassign_user(
    s: ProxyState,
    authorized: bool,
    user: AccountId,
    pid: Seq<u8>,
    user_has_role: bool,
) -> Result<ProxyState, Error> {
    if !authorized {
        Err(Error::NotAuthorized)
    } else if !s.projects.contains_key(pid) {
        Err(Error::ProjectNotFound)
    } else if s.projects[pid].status == ProjectStatus::Completed {
        Err(Error::CannotEditCompletedProject)
    } else if !s.users.contains_key(user) {
        Err(Error::UserNotRegistered)
    } else if !users_of(s, pid).contains(user) || !has_id(projects_of(s, user), pid) {
        Err(Error::UserNotAssignedToProject)
    } else if !user_has_role {
        Err(Error::NotAuthorized)
    } else {
        Ok(
            ProxyState {
                users_by_project: s.users_by_project.insert(pid, without_account(users_of(s, pid), user)),
                projects_by_user: s.projects_by_user.insert(user, without_id(projects_of(s, user), pid)),
                events: s.events.push(EventView::UserUnassignedFromProject(user, pid)),
                ..s
            },
        )
    }
}

pub open spec fn update_user(
    s: ProxyState,
    authorized: bool,
    user: AccountId,
    name: Option<Seq<u8>>,
    image: Option<Seq<u8>>,
    email: Option<Seq<u8>>,
    documents: Option<Seq<u8>>,
) -> Result<ProxyState, Error> {
    if !authorized {
        Err(Error::NotAuthorized)
    } else if !s.users.contains_key(user) {
        Err(Error::UserNotRegistered)
    } else {
        let u = s.users[user];
        Ok(
            ProxyState {
                users: s.users.insert(
                    user,
                    UserView {
                        name: pick(name, u.name),
                        image: pick(image, u.image),
                        email: pick(email, u.email),
                        documents: match documents {
                            Some(d) => Some(d),
                            None => u.documents,
                        },
                        ..u
                    },
                ),
                events: s.events.push(EventView::UserUpdated(user)),
                ..s
            },
        )
    }
}

pub open spec fn delete_user(s: ProxyState, authorized: bool, user: AccountId) -> Result<ProxyState, Error> {
    if !authorized {
        Err(Error::NotAuthorized)
    } else if !s.users.contains_key(user) {
        Err(Error::UserNotRegistered)
    } else {
        Ok(
            ProxyState {
                users: s.users.remove(user),
                users_by_project: strip_user(s.users_by_project, projects_of(s, user), user),
                projects_by_user: s.projects_by_user.remove(user),
                events: s.events.push(EventView::UserDeleted(user)),
                ..s
            },
        )
    }
}

pub open spec fn change_project_status(s: ProxyState, pid: Seq<u8>, status: ProjectStatus) -> Result<ProxyState, Error> {
    if !s.projects.contains_key(pid) {
        Err(Error::ProjectNotFound)
    } else {
        Ok(ProxyState { projects: s.projects.insert(pid, ProjectView { status, ..s.projects[pid] }), ..s })
    }
}


/// Whether `x` is in `v`.
fn contains_account(v: &Vec<AccountId>, x: AccountId) -> (r: bool)
    ensures
        r == v@.contains(x),
{
    let mut i: usize = 0;
    while i < v.len()
        invariant
            0 <= i <= v@.len(),
            forall|j: int| 0 <= j < i ==> v@[j] != x,
        decreases v@.len() - i,
    {
        if v[i] == x {
            assert(v@[i as int] == x);
            return true;
        }
        i = i + 1;
    }
    false
}

/// Whether some id in `v` equals `x`.
fn contains_id(v: &Vec<Id>, x: &Id) -> (r: bool)
    ensures
        r == has_id(v@, x@),
{
    let mut i: usize = 0;
    while i < v.len()
        invariant
            0 <= i <= v@.len(),
            forall|j: int| 0 <= j < i ==> v@[j]@ != x@,
        decreases v@.len() - i,
    {
        if id_eq(&v[i], x) {
            return true;
        }
        i = i + 1;
    }
    false
}

/// Whether someone other than `x` is in `v`.
fn holds_other(v: &Vec<AccountId>, x: AccountId) -> (r: bool)
    ensures
        r == exists|i: int| 0 <= i < v@.len() && v@[i] != x,
{
    let mut i: usize = 0;
    while i < v.len()
        invariant
            0 <= i <= v@.len(),
            forall|j: int| 0 <= j < i ==> v@[j] == x,
        decreases v@.len() - i,
    {
        if v[i] != x {
            return true;
        }
        i = i + 1;
    }
    false
}

/// `v` without the occurrences of `x`.
fn remove_account(v: &Vec<AccountId>, x: AccountId) -> (r: Vec<AccountId>)
    ensures
        r@ == without_account(v@, x),
{
    let mut r: Vec<AccountId> = Vec::new();
    let mut i: usize = 0;
    proof {
        assert(v@.subrange(0, 0) =~= Seq::<AccountId>::empty());
    }
    while i < v.len()
        invariant
            0 <= i <= v@.len(),
            r@ == without_account(v@.subrange(0, i as int), x),
        decreases v@.len() - i,
    {
        let ghost prefix = v@.subrange(0, i + 1);
        assert(prefix.drop_last() =~= v@.subrange(0, i as int));
        assert(prefix.last() == v@[i as int]);
        if v[i] != x {
            r.push(v[i]);
        }
        i = i + 1;
    }
    proof {
        assert(v@.subrange(0, v@.len() as int) =~= v@);
    }
    r
}

/// `v` without the ids equal to `x`.
fn remove_id(v: &Vec<Id>, x: &Id) -> (r: Vec<Id>)
    ensures
        r@ == without_id(v@, x@),
{
    let mut r: Vec<Id> = Vec::new();
    let mut i: usize = 0;
    proof {
        assert(v@.subrange(0, 0) =~= Seq::<Id>::empty());
    }
    while i < v.len()
        invariant
            0 <= i <= v@.len(),
            r@ == without_id(v@.subrange(0, i as int), x@),
        decreases v@.len() - i,
    {
        let ghost prefix = v@.subrange(0, i + 1);
        assert(prefix.drop_last() =~= v@.subrange(0, i as int));
        assert(prefix.last() == v@[i as int]);
        if !id_eq(&v[i], x) {
            r.push(v[i]);
        }
        i = i + 1;
    }
    proof {
        assert(v@.subrange(0, v@.len() as int) =~= v@);
    }
    r
}

/// A copy of a list of accounts.
fn copy_accounts(v: &Vec<AccountId>) -> (r: Vec<AccountId>)
    ensures
        r@ == v@,
{
    let mut r: Vec<AccountId> = Vec::new();
    let mut i: usize = 0;
    while i < v.len()
        invariant
            0 <= i <= v@.len(),
            r@ == v@.subrange(0, i as int),
        decreases v@.len() - i,
    {
        r.push(v[i]);
        i = i + 1;
        assert(r@ =~= v@.subrange(0, i as int));
    }
    assert(v@.subrange(0, v@.len() as int) =~= v@);
    r
}

/// A copy of a list of ids.
fn copy_ids(v: &Vec<Id>) -> (r: Vec<Id>)
    ensures
        r@ == v@,
{
    let mut r: Vec<Id> = Vec::new();
    let mut i: usize = 0;
    while i < v.len()
        invariant
            0 <= i <= v@.len(),
            r@ == v@.subrange(0, i as int),
        decreases v@.len() - i,
    {
        r.push(v[i]);
        i = i + 1;
        assert(r@ =~= v@.subrange(0, i as int));
    }
    assert(v@.subrange(0, v@.len() as int) =~= v@);
    r
}

fn copy_opt_accounts(v: &Option<Vec<AccountId>>) -> (r: Option<Vec<AccountId>>)
    ensures
        opt_view(r) == opt_view(*v),
{
    match v {
        Some(l) => Some(copy_accounts(l)),
        None => None,
    }
}

/// The role list after `user` is given the role.
fn role_list_step_exec(
    list: &Option<Vec<AccountId>>,
    user: AccountId,
    max: u32,
    check: RoleCheck,
    full: Error,
) -> (r: Result<Option<Vec<AccountId>>, Error>)
    ensures
        match role_list_step(opt_view(*list), user, max, check, full) {
            Ok(l) => r.is_ok() && opt_view(r.unwrap()) == l,
            Err(e) => r == Err::<Option<Vec<AccountId>>, Error>(e),
        },
{
    match list {
        Some(l) => {
            let found = match check {
                RoleCheck::NoCheck => true,
                RoleCheck::MustContain => contains_account(l, user),
                RoleCheck::MustHoldOther => holds_other(l, user),
            };
            if !found {
                Err(Error::UserAlreadyAssignedToProject)
            } else if l.len() as u64 >= max as u64 {
                Err(full)
            } else {
                Ok(Some(copy_accounts(l)))
            }
        },
        None => {
            if max == 0 {
                Err(full)
            } else {
                let mut v: Vec<AccountId> = Vec::new();
                v.push(user);
                assert(v@ =~= seq![user]);
                Ok(Some(v))
            }
        },
    }
}

fn copy_project(p: &ProjectData) -> (r: ProjectData)
    ensures
        r@ == p@,
{
    ProjectData {
        developer: copy_opt_accounts(&p.developer),
        investor: copy_opt_accounts(&p.investor),
        issuer: copy_opt_accounts(&p.issuer),
        regional_center: copy_opt_accounts(&p.regional_center),
        tittle: bytes_copy(&p.tittle),
        description: bytes_copy(&p.description),
        image: bytes_copy(&p.image),
        status: p.status,
        creation_date: p.creation_date,
        completition_date: p.completition_date,
        updated_date: p.updated_date,
    }
}


/// The project after `user` is given `role` in it.
fn update_project_role_exec(p: &ProjectData, user: AccountId, role: ProxyRole, c: ProxyConfig) -> (r: Result<
    ProjectData,
    Error,
>)
    ensures
        match update_project_role(p@, user, role, c) {
            Ok(q) => r.is_ok() && r.unwrap()@ == q,
            Err(e) => r.is_err() && r.unwrap_err() == e,
        },
{
    let mut q = copy_project(p);
    match role {
        ProxyRole::Administrator => Err(Error::CannotRegisterAdminRole),
        ProxyRole::Developer => {
            let l = role_list_step_exec(
                &p.developer,
                user,
                c.max_developers_per_project,
                RoleCheck::NoCheck,
                Error::MaxDevelopersPerProjectReached,
            )?;
            q.developer = l;
            Ok(q)
        },
        ProxyRole::Investor => {
            let l = role_list_step_exec(
                &p.investor,
                user,
                c.max_investors_per_project,
                RoleCheck::MustContain,
                Error::MaxInvestorsPerProjectReached,
            )?;
            q.investor = l;
            Ok(q)
        },
        ProxyRole::Issuer => {
            let l = role_list_step_exec(
                &p.issuer,
                user,
                c.max_issuers_per_project,
                RoleCheck::MustContain,
                Error::MaxIssuersPerProjectReached,
            )?;
            q.issuer = l;
            Ok(q)
        },
        ProxyRole::RegionalCenter => {
            let l = role_list_step_exec(
                &p.regional_center,
                user,
                c.max_regional_center_per_project,
                RoleCheck::MustHoldOther,
                Error::MaxRegionalCenterPerProjectReached,
            )?;
            q.regional_center = l;
            Ok(q)
        },
    }
}

/// The state of the proxy pallet.
pub struct Pallet {
    global_scope: Option<Id>,
    projects: AssocMap<Id, ProjectData>,
    users: AssocMap<AccountId, UserData>,
    users_by_project: AssocMap<Id, Vec<AccountId>>,
    projects_by_user: AssocMap<AccountId, Vec<Id>>,
    events: Vec<Event>,
    config: ProxyConfig,
}

impl View for Pallet {
    type V = ProxyState;

    closed spec fn view(&self) -> ProxyState {
        ProxyState {
            global_scope: match self.global_scope {
                Some(g) => Some(g@),
                None => None,
            },
            projects: self.projects@,
            users: self.users@,
            users_by_project: self.users_by_project@,
            projects_by_user: self.projects_by_user@,
            events: self.events@.map_values(|e: Event| e@),
            config: self.config,
        }
    }
}

impl Pallet {
    pub closed spec fn wf(&self) -> bool {
        &&& self.projects.wf()
        &&& self.users.wf()
        &&& self.users_by_project.wf()
        &&& self.projects_by_user.wf()
    }

    /// An empty pallet with the given bounds.
    pub fn new(config: ProxyConfig) -> (p: Pallet)
        ensures
            p.wf(),
            p@ == (ProxyState {
                global_scope: None,
                projects: Map::empty(),
                users: Map::empty(),
                users_by_project: Map::empty(),
                projects_by_user: Map::empty(),
                events: Seq::empty(),
                config,
            }),
            assignments_mirrored(p@),
    {
        let p = Pallet {
            global_scope: None,
            projects: AssocMap::new(),
            users: AssocMap::new(),
            users_by_project: AssocMap::new(),
            projects_by_user: AssocMap::new(),
            events: Vec::new(),
            config,
        };
        assert(p@.events =~= Seq::<EventView>::empty());
        p
    }

    fn deposit_event(&mut self, e: Event)
        ensures
            final(self)@ == (ProxyState { events: old(self)@.events.push(e@), ..old(self)@ }),
            final(self).wf() == old(self).wf(),
    {
        let ghost old_events = self@.events;
        self.events.push(e);
        assert(self@.events =~= old_events.push(e@));
    }

    /// The events deposited so far.
    pub fn events(&self) -> (r: &Vec<Event>)
        ensures
            r@.map_values(|e: Event| e@) == self@.events,
    {
        &self.events
    }

    /// The global scope, if set.
    pub fn global_scope(&self) -> (r: Option<Id>)
        ensures
            match r {
                Some(g) => self@.global_scope == Some(g@),
                None => self@.global_scope.is_none(),
            },
    {
        self.global_scope
    }

    /// The global scope; it must have been set.
    pub fn get_global_scope(&self) -> (r: Id)
        requires
            self@.global_scope.is_some(),
        ensures
            Some(r@) == self@.global_scope,
    {
        self.global_scope.unwrap()
    }

    /// The stored data of a project, if any.
    pub fn projects_info(&self, project_id: &Id) -> (r: Option<&ProjectData>)
        requires
            self.wf(),
        ensures
            match r {
                Some(d) => self@.projects.contains_key(project_id@) && d@ == self@.projects[project_id@],
                None => !self@.projects.contains_key(project_id@),
            },
    {
        self.projects.get(project_id)
    }

    /// The stored data of a user, if any.
    pub fn users_info(&self, user: AccountId) -> (r: Option<&UserData>)
        requires
            self.wf(),
        ensures
            match r {
                Some(d) => self@.users.contains_key(user) && d@ == self@.users[user],
                None => !self@.users.contains_key(user),
            },
    {
        self.users.get(&user)
    }

    /// The users assigned to a project.
    pub fn users_by_project(&self, project_id: &Id) -> (r: Vec<AccountId>)
        requires
            self.wf(),
        ensures
            r@ == users_of(self@, project_id@),
    {
        match self.users_by_project.get(project_id) {
            Some(v) => copy_accounts(v),
            None => Vec::new(),
        }
    }

    /// The projects a user is assigned to.
    pub fn projects_by_user(&self, user: AccountId) -> (r: Vec<Id>)
        requires
            self.wf(),
        ensures
            r@ == projects_of(self@, user),
    {
        match self.projects_by_user.get(&user) {
            Some(v) => copy_ids(v),
            None => Vec::new(),
        }
    }
}


impl Pallet {
    /// Sets up the pallet named `pallet_name`: its global scope is the digest of
    /// its pallet id. It makes the access control calls of `setup_calls` in
    /// order: create the administrator role, give it its permissions, create the
    /// other roles, create the global scope. `answers` are the answers to the
    /// calls made so far; the answer to the first call holds the ids of the
    /// roles created, the first of which gets the permissions (the other answers
    /// give back nothing that is read). The first failing call ends the setup
    /// with its error and no later call is made; the global scope is stored only
    /// once every call succeeded. Returns the calls made and how the setup ended
    /// (`None` while the last call waits for its answer).
    pub fn do_initial_setup(&mut self, pallet_name: &Vec<u8>, answers: &Vec<Result<Vec<Id>, Error>>) -> (r: (
        Vec<ProxyCall>,
        Option<Result<(), Error>>,
    ))
        requires
            old(self).wf(),
            pallet_name@.len() <= u32::MAX,
            answers@.len() > 0 && answers@[0] is Ok ==> answers@[0]->Ok_0@.len() > 0,
        ensures
            final(self).wf(),
            answers@.len() == 0 ==> calls_view(r.0@) == seq![
                ProxyCallView::CreateRole { role: ProxyRole::Administrator },
            ] && r.1 is None && final(self)@ == old(self)@,
            answers@.len() > 0 && answers@[0] is Err ==> calls_view(r.0@) == seq![
                ProxyCallView::CreateRole { role: ProxyRole::Administrator },
            ] && r.1 == Some(Err::<(), Error>(answers@[0]->Err_0)) && final(self)@ == old(self)@,
            answers@.len() > 0 && answers@[0] is Ok ==> calls_view(r.0@) == setup_calls(
                pallet_name@,
                answers@[0]->Ok_0@[0]@,
            ).take((steps_end(6, answers@.drop_first()).0 + 1) as int),
            answers@.len() > 0 && answers@[0] is Ok ==> r.1 == steps_end(6, answers@.drop_first()).1,
            r.1 matches Some(Ok(_)) ==> final(self)@ == initial_setup(old(self)@, pallet_name@),
            !(r.1 matches Some(Ok(_))) ==> final(self)@ == old(self)@,
    {
        let mut encoded: Vec<u8> = Vec::new();
        encoded.push(1u8);
        let mut rest = encode_bytes(pallet_name);
        encoded.append(&mut rest);
        proof {
            assert(encoded@ =~= pallet_id_encoding(pallet_name@));
        }
        let global_scope = blake2_256(&encoded);
        let mut calls: Vec<ProxyCall> = Vec::new();
        calls.push(ProxyCall::CreateRole { role: ProxyRole::Administrator });
        proof {
            assert(calls_view(calls@) =~= seq![ProxyCallView::CreateRole { role: ProxyRole::Administrator }]);
        }
        if answers.len() == 0 {
            return (calls, None);
        }
        let admin_role: Id = match &answers[0] {
            Err(e) => {
                return (calls, Some(Err(*e)));
            },
            Ok(ids) => ids[0],
        };
        calls.push(ProxyCall::SetAdministratorPermissions { role: admin_role });
        calls.push(ProxyCall::CreateRole { role: ProxyRole::Developer });
        calls.push(ProxyCall::CreateRole { role: ProxyRole::Investor });
        calls.push(ProxyCall::CreateRole { role: ProxyRole::Issuer });
        calls.push(ProxyCall::CreateRole { role: ProxyRole::RegionalCenter });
        calls.push(ProxyCall::CreateScope { scope: global_scope });
        let ghost full = calls_view(calls@);
        proof {
            assert(full =~= setup_calls(pallet_name@, admin_role@));
            assert(answers@.subrange(1, answers@.len() as int) =~= answers@.drop_first());
            lemma_steps_stop_at_first_failure(6, answers@.drop_first());
        }
        let (ran, end) = run_in_order_from(6, answers, 1);
        calls.truncate(ran + 1);
        proof {
            assert(calls_view(calls@) =~= full.take(ran + 1));
        }
        match end {
            Some(Ok(_)) => {
                self.global_scope = Some(global_scope);
                self.deposit_event(Event::ProxySetupCompleted);
            },
            _ => {},
        }
        (calls, end)
    }

    /// Makes `admin` an administrator in the global scope: one access control
    /// call, whose answer is `answer`; the event is recorded only when it succeeded.
    pub fn do_sudo_add_administrator(&mut self, admin: AccountId, answer: Result<(), Error>) -> (r: (Vec<ProxyCall>, Result<(), Error>))
        requires
            old(self).wf(),
        ensures
            final(self).wf(),
            match add_administrator(old(self)@, admin) {
                Ok(_) => calls_view(r.0@) == seq![ProxyCallView::AssignRole { user: admin, scope: old(self)@.global_scope.unwrap(), role: ProxyRole::Administrator }],
                Err(_) => r.0@.len() == 0,
            },
            match answered(add_administrator(old(self)@, admin), answer) {
                Ok(s) => r.1 == Ok::<(), Error>(()) && final(self)@ == s,
                Err(e) => r.1 == Err::<(), Error>(e) && final(self)@ == old(self)@,
            },
    {
        let global_scope = match self.global_scope {
            Some(g) => g,
            None => return (Vec::new(), Err(Error::GlobalScopeNotSet)),
        };
        let mut calls: Vec<ProxyCall> = Vec::new();
        calls.push(ProxyCall::AssignRole { user: admin, scope: global_scope, role: ProxyRole::Administrator });
        proof {
            assert(calls_view(calls@) =~= seq![
                ProxyCallView::AssignRole { user: admin, scope: global_scope@, role: ProxyRole::Administrator },
            ]);
        }
        if let Err(e) = answer {
            return (calls, Err(e));
        }
        self.deposit_event(Event::AdministratorAssigned(admin));
        (calls, Ok(()))
    }

    /// Takes the administrator role in the global scope from `admin`: one access
    /// control call, whose answer is `answer`; the event is recorded only when it
    /// succeeded.
    pub fn do_sudo_remove_administrator(&mut self, admin: AccountId, answer: Result<(), Error>) -> (r: (Vec<ProxyCall>, Result<(), Error>))
        requires
            old(self).wf(),
        ensures
            final(self).wf(),
            match remove_administrator(old(self)@, admin) {
                Ok(_) => calls_view(r.0@) == seq![ProxyCallView::RemoveRole { user: admin, scope: old(self)@.global_scope.unwrap(), role: ProxyRole::Administrator }],
                Err(_) => r.0@.len() == 0,
            },
            match answered(remove_administrator(old(self)@, admin), answer) {
                Ok(s) => r.1 == Ok::<(), Error>(()) && final(self)@ == s,
                Err(e) => r.1 == Err::<(), Error>(e) && final(self)@ == old(self)@,
            },
    {
        let global_scope = match self.global_scope {
            Some(g) => g,
            None => return (Vec::new(), Err(Error::GlobalScopeNotSet)),
        };
        let mut calls: Vec<ProxyCall> = Vec::new();
        calls.push(ProxyCall::RemoveRole { user: admin, scope: global_scope, role: ProxyRole::Administrator });
        proof {
            assert(calls_view(calls@) =~= seq![
                ProxyCallView::RemoveRole { user: admin, scope: global_scope@, role: ProxyRole::Administrator },
            ]);
        }
        if let Err(e) = answer {
            return (calls, Err(e));
        }
        self.deposit_event(Event::AdministratorRemoved(admin));
        (calls, Ok(()))
    }

    /// The id of the pallet in the access control pallet: the bytes of its
    /// module name.
    pub fn pallet_id(module_name: &Vec<u8>) -> (r: IdOrVec)
        ensures
            r matches IdOrVec::Vec(v) && v@ == module_name@,
    {
        IdOrVec::Vec(bytes_copy(module_name))
    }

    /// The id of the project with this title.
    pub fn project_id_of(tittle: &Vec<u8>) -> (r: Id)
        requires
            tittle@.len() <= u32::MAX,
        ensures
            r@ == spec_project_id(tittle@),
    {
        let encoded = encode_bytes(tittle);
        blake2_256(&encoded)
    }

    /// Creates a project whose id is the digest of its title; `authorized` is
    /// the access control pallet's answer whether `admin` is an administrator.
    /// Hands back the call that creates the project's scope; `answer` is the
    /// access control pallet's answer to it.
    pub fn do_create_project(
        &mut self,
        admin: AccountId,
        authorized: bool,
        tittle: Vec<u8>,
        description: Vec<u8>,
        image: Vec<u8>,
        completition_date: u64,
        now: u64,
        answer: Result<(), Error>,
    ) -> (r: (Vec<ProxyCall>, Result<(), Error>))
        requires
            old(self).wf(),
            old(self)@.global_scope.is_some(),
            tittle@.len() <= u32::MAX,
        ensures
            final(self).wf(),
            match create_project(old(self)@, admin, authorized, tittle@, description@, image@, completition_date, now) {
                Ok(_) => calls_view(r.0@) == seq![ProxyCallView::CreateScope { scope: spec_project_id(tittle@) }],
                Err(_) => r.0@.len() == 0,
            },
            match answered(create_project(old(self)@, admin, authorized, tittle@, description@, image@, completition_date, now), answer) {
                Ok(s) => r.1 == Ok::<(), Error>(()) && final(self)@ == s,
                Err(e) => r.1 == Err::<(), Error>(e) && final(self)@ == old(self)@,
            },
    {
        if !authorized {
            return (Vec::new(), Err(Error::NotAuthorized));
        }
        let timestamp = now;
        let project_id = Self::project_id_of(&tittle);
        if !(completition_date > timestamp) {
            return (Vec::new(), Err(Error::CompletitionDateMustBeLater));
        }
        let ghost t = tittle@;
        let ghost d = description@;
        let ghost im = image@;
        let project_data = ProjectData {
            developer: Some(Vec::new()),
            investor: Some(Vec::new()),
            issuer: Some(Vec::new()),
            regional_center: Some(Vec::new()),
            tittle,
            description,
            image,
            status: ProjectStatus::Started,
            creation_date: timestamp,
            completition_date,
            updated_date: timestamp,
        };
        if self.projects.contains_key(&project_id) {
            return (Vec::new(), Err(Error::ProjectIdAlreadyInUse));
        }
        proof {
            assert(project_data@ == new_project(t, d, im, completition_date, now));
        }
        let mut calls: Vec<ProxyCall> = Vec::new();
        calls.push(ProxyCall::CreateScope { scope: project_id });
        proof {
            assert(calls_view(calls@) =~= seq![ProxyCallView::CreateScope { scope: spec_project_id(t) }]);
        }
        if let Err(e) = answer {
            return (calls, Err(e));
        }
        self.projects.insert(project_id, project_data);
        self.deposit_event(Event::ProjectCreated(admin, project_id));
        proof {
            assert(calls_view(calls@) =~= seq![ProxyCallView::CreateScope { scope: spec_project_id(t) }]);
        }
        (calls, Ok(()))
    }

    /// Edits the given fields of a project that is not completed.
    pub fn do_edit_project(
        &mut self,
        admin: AccountId,
        authorized: bool,
        project_id: Id,
        tittle: Option<Vec<u8>>,
        description: Option<Vec<u8>>,
        image: Option<Vec<u8>>,
        creation_date: Option<u64>,
        completition_date: Option<u64>,
        now: u64,
    ) -> (r: Result<(), Error>)
        requires
            old(self).wf(),
            old(self)@.global_scope.is_some(),
        ensures
            final(self).wf(),
            match edit_project(
                old(self)@,
                authorized,
                project_id@,
                opt_bytes(tittle),
                opt_bytes(description),
                opt_bytes(image),
                creation_date,
                completition_date,
                now,
            ) {
                Ok(s) => r.is_ok() && final(self)@ == s,
                Err(e) => r.is_err() && r.unwrap_err() == e && final(self)@ == old(self)@,
            },
    {
        if !authorized {
            return Err(Error::NotAuthorized);
        }
        let status = match self.projects.get(&project_id) {
            Some(p) => p.status,
            None => return Err(Error::ProjectNotFound),
        };
        if status == ProjectStatus::Completed {
            return Err(Error::CannotEditCompletedProject);
        }
        let current_timestamp = now;
        if let Some(c) = creation_date {
            if !(c < current_timestamp) {
                return Err(Error::CreationDateMustBeInThePast);
            }
        }
        if let Some(c) = completition_date {
            if !(c > current_timestamp) {
                return Err(Error::CompletitionDateMustBeLater);
            }
        }
        let ghost s0 = self@;
        let ghost gt = opt_bytes(tittle);
        let ghost gd = opt_bytes(description);
        let ghost gi = opt_bytes(image);
        let mut project = self.projects.remove(&project_id).unwrap();
        if let Some(t) = tittle {
            project.tittle = t;
        }
        if let Some(d) = description {
            project.description = d;
        }
        if let Some(i) = image {
            project.image = i;
        }
        if let Some(c) = creation_date {
            project.creation_date = c;
        }
        if let Some(c) = completition_date {
            project.completition_date = c;
        }
        self.projects.insert(project_id, project);
        self.deposit_event(Event::ProjectEdited(project_id));
        proof {
            let s2 = edit_project(
                s0,
                authorized,
                project_id@,
                gt,
                gd,
                gi,
                creation_date,
                completition_date,
                now,
            ).unwrap();
            assert(self@.projects =~= s2.projects);
            assert(self@ =~= s2);
        }
        Ok(())
    }

    /// Changes the status of a project.
    pub fn change_project_status(&mut self, project_id: Id, status: ProjectStatus) -> (r: Result<(), Error>)
        requires
            old(self).wf(),
        ensures
            final(self).wf(),
            match change_project_status(old(self)@, project_id@, status) {
                Ok(s) => r.is_ok() && final(self)@ == s,
                Err(e) => r.is_err() && r.unwrap_err() == e && final(self)@ == old(self)@,
            },
    {
        let ghost s0 = self@;
        let mut project = match self.projects.remove(&project_id) {
            Some(p) => p,
            None => {
                proof {
                    assert(self.projects@ =~= s0.projects);
                    assert(self@ =~= s0);
                }
                return Err(Error::ProjectNotFound);
            },
        };
        project.status = status;
        self.projects.insert(project_id, project);
        proof {
            assert(self@.projects =~= change_project_status(s0, project_id@, status).unwrap().projects);
            assert(self@ =~= change_project_status(s0, project_id@, status).unwrap());
        }
        Ok(())
    }

    /// Registers a user.
    pub fn do_register_user(
        &mut self,
        admin: AccountId,
        authorized: bool,
        user: AccountId,
        name: Vec<u8>,
        image: Vec<u8>,
        email: Vec<u8>,
        documents: Option<Vec<u8>>,
        now: u64,
    ) -> (r: Result<(), Error>)
        requires
            old(self).wf(),
            old(self)@.global_scope.is_some(),
        ensures
            final(self).wf(),
            match register_user(
                old(self)@,
                authorized,
                user,
                name@,
                image@,
                email@,
                opt_bytes(documents),
                now,
            ) {
                Ok(s) => r.is_ok() && final(self)@ == s,
                Err(e) => r.is_err() && r.unwrap_err() == e && final(self)@ == old(self)@,
            },
    {
        if !authorized {
            return Err(Error::NotAuthorized);
        }
        if self.users.contains_key(&user) {
            return Err(Error::UserAlreadyRegistered);
        }
        let current_timestamp = now;
        let user_data = UserData { name, role: None, image, date_registered: current_timestamp, email, documents };
        self.users.insert(user, user_data);
        self.deposit_event(Event::UserAdded(user));
        Ok(())
    }

    /// Updates the given fields of a registered user.
    pub fn do_update_user(
        &mut self,
        admin: AccountId,
        authorized: bool,
        user: AccountId,
        name: Option<Vec<u8>>,
        image: Option<Vec<u8>>,
        email: Option<Vec<u8>>,
        documents: Option<Vec<u8>>,
    ) -> (r: Result<(), Error>)
        requires
            old(self).wf(),
            old(self)@.global_scope.is_some(),
        ensures
            final(self).wf(),
            match update_user(
                old(self)@,
                authorized,
                user,
                opt_bytes(name),
                opt_bytes(image),
                opt_bytes(email),
                opt_bytes(documents),
            ) {
                Ok(s) => r.is_ok() && final(self)@ == s,
                Err(e) => r.is_err() && r.unwrap_err() == e && final(self)@ == old(self)@,
            },
    {
        if !authorized {
            return Err(Error::NotAuthorized);
        }
        if !self.users.contains_key(&user) {
            return Err(Error::UserNotRegistered);
        }
        let ghost s0 = self@;
        let ghost ds = opt_bytes(documents);
        let ghost gn = opt_bytes(name);
        let ghost gi = opt_bytes(image);
        let ghost ge = opt_bytes(email);
        let mut user_info = self.users.remove(&user).unwrap();
        if let Some(n) = name {
            user_info.name = n;
        }
        if let Some(i) = image {
            user_info.image = i;
        }
        if let Some(e) = email {
            user_info.email = e;
        }
        if let Some(d) = documents {
            user_info.documents = Some(d);
        }
        self.users.insert(user, user_info);
        self.deposit_event(Event::UserUpdated(user));
        proof {
            let s2 = update_user(
                s0,
                authorized,
                user,
                gn,
                gi,
                ge,
                ds,
            ).unwrap();
            assert(self@.users =~= s2.users);
            assert(self@ =~= s2);
        }
        Ok(())
    }
}


impl Pallet {
    /// Assigns a registered user to a project under `role`; `authorized` is
    /// the access control pallet's answer whether `admin` is an administrator
    /// and `user_has_role` whether `user` already holds `role` in the project.
    /// Hands back the call that gives the user the role in the project's scope;
    /// `answer` is the access control pallet's answer to it.
    pub fn do_assign_user(
        &mut self,
        admin: AccountId,
        authorized: bool,
        user: AccountId,
        project_id: Id,
        role: ProxyRole,
        user_has_role: bool,
        answer: Result<(), Error>,
    ) -> (r: (Vec<ProxyCall>, Result<(), Error>))
        requires
            old(self).wf(),
            old(self)@.global_scope.is_some(),
        ensures
            final(self).wf(),
            match assign_user(old(self)@, authorized, user, project_id, role, user_has_role) {
                Ok(_) => calls_view(r.0@) == seq![ProxyCallView::AssignRole { user, scope: project_id@, role }],
                Err(_) => r.0@.len() == 0,
            },
            match answered(assign_user(old(self)@, authorized, user, project_id, role, user_has_role), answer) {
                Ok(s) => r.1 == Ok::<(), Error>(()) && final(self)@ == s,
                Err(e) => r.1 == Err::<(), Error>(e) && final(self)@ == old(self)@,
            },
    {
        if !authorized {
            return (Vec::new(), Err(Error::NotAuthorized));
        }
        let project = match self.projects.get(&project_id) {
            Some(p) => p,
            None => return (Vec::new(), Err(Error::ProjectNotFound)),
        };
        if project.status == ProjectStatus::Completed {
            return (Vec::new(), Err(Error::CannotEditCompletedProject));
        }
        if !self.users.contains_key(&user) {
            return (Vec::new(), Err(Error::UserNotRegistered));
        }
        let mut users = self.users_by_project(&project_id);
        let mut projects = self.projects_by_user(user);
        if contains_account(&users, user) || contains_id(&projects, &project_id) {
            return (Vec::new(), Err(Error::UserAlreadyAssignedToProject));
        }
        if user_has_role {
            return (Vec::new(), Err(Error::UserAlreadyHasRole));
        }
        let new_project = match update_project_role_exec(project, user, role, self.config) {
            Ok(q) => q,
            Err(e) => return (Vec::new(), Err(e)),
        };
        if projects.len() as u64 >= self.config.max_projects_per_user as u64 {
            return (Vec::new(), Err(Error::MaxProjectsPerUserReached));
        }
        if users.len() as u64 >= self.config.max_users_per_project as u64 {
            return (Vec::new(), Err(Error::MaxUsersPerProjectReached));
        }
        let mut calls: Vec<ProxyCall> = Vec::new();
        calls.push(ProxyCall::AssignRole { user, scope: project_id, role });
        proof {
            assert(calls_view(calls@) =~= seq![ProxyCallView::AssignRole { user, scope: project_id@, role }]);
        }
        if let Err(e) = answer {
            return (calls, Err(e));
        }
        self.projects.insert(project_id, new_project);
        projects.push(project_id);
        self.projects_by_user.insert(user, projects);
        users.push(user);
        self.users_by_project.insert(project_id, users);
        self.deposit_event(Event::UserAssignedToProject(user, project_id));
        proof {
            assert(calls_view(calls@) =~= seq![ProxyCallView::AssignRole { user, scope: project_id@, role }]);
        }
        (calls, Ok(()))
    }

    /// Removes the assignment of a user to a project; `user_has_role` is the
    /// access control pallet's answer whether the user holds `role` in the
    /// project. Hands back the call that takes the role from the user; `answer`
    /// is the access control pallet's answer to it.
    pub fn do_unassign_user(
        &mut self,
        admin: AccountId,
        authorized: bool,
        user: AccountId,
        project_id: Id,
        role: ProxyRole,
        user_has_role: bool,
        answer: Result<(), Error>,
    ) -> (r: (Vec<ProxyCall>, Result<(), Error>))
        requires
            old(self).wf(),
            old(self)@.global_scope.is_some(),
        ensures
            final(self).wf(),
            match unassign_user(old(self)@, authorized, user, project_id@, user_has_role) {
                Ok(_) => calls_view(r.0@) == seq![ProxyCallView::RemoveRole { user, scope: project_id@, role }],
                Err(_) => r.0@.len() == 0,
            },
            match answered(unassign_user(old(self)@, authorized, user, project_id@, user_has_role), answer) {
                Ok(s) => r.1 == Ok::<(), Error>(()) && final(self)@ == s,
                Err(e) => r.1 == Err::<(), Error>(e) && final(self)@ == old(self)@,
            },
    {
        if !authorized {
            return (Vec::new(), Err(Error::NotAuthorized));
        }
        let status = match self.projects.get(&project_id) {
            Some(p) => p.status,
            None => return (Vec::new(), Err(Error::ProjectNotFound)),
        };
        if status == ProjectStatus::Completed {
            return (Vec::new(), Err(Error::CannotEditCompletedProject));
        }
        if !self.users.contains_key(&user) {
            return (Vec::new(), Err(Error::UserNotRegistered));
        }
        let users = self.users_by_project(&project_id);
        let projects = self.projects_by_user(user);
        if !contains_account(&users, user) || !contains_id(&projects, &project_id) {
            return (Vec::new(), Err(Error::UserNotAssignedToProject));
        }
        if !user_has_role {
            return (Vec::new(), Err(Error::NotAuthorized));
        }
        let mut calls: Vec<ProxyCall> = Vec::new();
        calls.push(ProxyCall::RemoveRole { user, scope: project_id, role });
        proof {
            assert(calls_view(calls@) =~= seq![ProxyCallView::RemoveRole { user, scope: project_id@, role }]);
        }
        if let Err(e) = answer {
            return (calls, Err(e));
        }
        self.users_by_project.insert(project_id, remove_account(&users, user));
        self.projects_by_user.insert(user, remove_id(&projects, &project_id));
        self.deposit_event(Event::UserUnassignedFromProject(user, project_id));
        proof {
            assert(calls_view(calls@) =~= seq![ProxyCallView::RemoveRole { user, scope: project_id@, role }]);
        }
        (calls, Ok(()))
    }

    /// Deletes a project that is not completed, and removes it from the
    /// projects of its users. Hands back the call that removes its scope;
    /// `answer` is the access control pallet's answer to it.
    pub fn do_delete_project(&mut self, admin: AccountId, authorized: bool, project_id: Id, answer: Result<(), Error>) -> (r: (Vec<ProxyCall>, Result<(), Error>))
        requires
            old(self).wf(),
            old(self)@.global_scope.is_some(),
        ensures
            final(self).wf(),
            match delete_project(old(self)@, authorized, project_id@) {
                Ok(_) => calls_view(r.0@) == seq![ProxyCallView::RemoveScope { scope: project_id@ }],
                Err(_) => r.0@.len() == 0,
            },
            match answered(delete_project(old(self)@, authorized, project_id@), answer) {
                Ok(s) => r.1 == Ok::<(), Error>(()) && final(self)@ == s,
                Err(e) => r.1 == Err::<(), Error>(e) && final(self)@ == old(self)@,
            },
    {
        if !authorized {
            return (Vec::new(), Err(Error::NotAuthorized));
        }
        let status = match self.projects.get(&project_id) {
            Some(p) => p.status,
            None => return (Vec::new(), Err(Error::ProjectNotFound)),
        };
        if status == ProjectStatus::Completed {
            return (Vec::new(), Err(Error::CannotDeleteCompletedProject));
        }
        let ghost s0 = self@;
        let mut calls: Vec<ProxyCall> = Vec::new();
        calls.push(ProxyCall::RemoveScope { scope: project_id });
        proof {
            assert(calls_view(calls@) =~= seq![ProxyCallView::RemoveScope { scope: project_id@ }]);
        }
        if let Err(e) = answer {
            return (calls, Err(e));
        }
        let users = self.users_by_project(&project_id);
        let mut i: usize = 0;
        proof {
            assert(users@.subrange(0, 0) =~= Seq::<AccountId>::empty());
        }
        while i < users.len()
            invariant
                0 <= i <= users@.len(),
                self.wf(),
                users@ == users_of(s0, project_id@),
                self@ == (ProxyState {
                    projects_by_user: strip_project(s0.projects_by_user, users@.subrange(0, i as int), project_id@),
                    ..s0
                }),
            decreases users@.len() - i,
        {
            let u = users[i];
            let cur = self.projects_by_user(u);
            self.projects_by_user.insert(u, remove_id(&cur, &project_id));
            proof {
                let pre = users@.subrange(0, i + 1);
                assert(pre.drop_last() =~= users@.subrange(0, i as int));
                assert(pre.last() == u);
            }
            i = i + 1;
        }
        proof {
            assert(users@.subrange(0, users@.len() as int) =~= users@);
        }
        self.projects.remove(&project_id);
        self.users_by_project.remove(&project_id);
        self.deposit_event(Event::ProjectDeleted(project_id));
        proof {
            assert(self@ =~= delete_project(s0, authorized, project_id@).unwrap());
            assert(calls_view(calls@) =~= seq![ProxyCallView::RemoveScope { scope: project_id@ }]);
        }
        (calls, Ok(()))
    }

    /// Deletes a registered user and removes it from the users of its projects.
    pub fn do_delete_user(&mut self, admin: AccountId, authorized: bool, user: AccountId) -> (r: Result<(), Error>)
        requires
            old(self).wf(),
            old(self)@.global_scope.is_some(),
        ensures
            final(self).wf(),
            match delete_user(old(self)@, authorized, user) {
                Ok(s) => r.is_ok() && final(self)@ == s,
                Err(e) => r.is_err() && r.unwrap_err() == e && final(self)@ == old(self)@,
            },
    {
        if !authorized {
            return Err(Error::NotAuthorized);
        }
        if !self.users.contains_key(&user) {
            return Err(Error::UserNotRegistered);
        }
        let ghost s0 = self@;
        self.users.remove(&user);
        let projects = self.projects_by_user(user);
        let ghost s1 = self@;
        let mut i: usize = 0;
        proof {
            assert(projects@.subrange(0, 0) =~= Seq::<Id>::empty());
        }
        while i < projects.len()
            invariant
                0 <= i <= projects@.len(),
                self.wf(),
                projects@ == projects_of(s0, user),
                self@ == (ProxyState {
                    users_by_project: strip_user(s0.users_by_project, projects@.subrange(0, i as int), user),
                    ..s1
                }),
            decreases projects@.len() - i,
        {
            let p = projects[i];
            let cur = self.users_by_project(&p);
            self.users_by_project.insert(p, remove_account(&cur, user));
            proof {
                let pre = projects@.subrange(0, i + 1);
                assert(pre.drop_last() =~= projects@.subrange(0, i as int));
                assert(pre.last() == p);
            }
            i = i + 1;
        }
        proof {
            assert(projects@.subrange(0, projects@.len() as int) =~= projects@);
        }
        self.projects_by_user.remove(&user);
        self.deposit_event(Event::UserDeleted(user));
        proof {
            assert(self@ =~= delete_user(s0, authorized, user).unwrap());
        }
        Ok(())
    }
}

} // verus!
