use hashed_pallets::proxy::{Error, Event, Pallet, ProjectStatus, ProxyCall, ProxyConfig, ProxyRole};
use parity_scale_codec::Encode;

const ADMIN: u64 = 1;

/// The calls of an operation whose access control call succeeded, or its error.
fn done(r: (Vec<ProxyCall>, Result<(), Error>)) -> Result<Vec<ProxyCall>, Error> {
    match r.1 {
        Ok(()) => Ok(r.0),
        Err(e) => Err(e),
    }
}
const ALICE: u64 = 2;
const BOB: u64 = 3;

fn config() -> ProxyConfig {
    ProxyConfig {
        max_projects_per_user: 10,
        max_users_per_project: 10,
        max_developers_per_project: 10,
        max_investors_per_project: 10,
        max_issuers_per_project: 10,
        max_regional_center_per_project: 10,
    }
}

fn set_up(config: ProxyConfig) -> Pallet {
    let mut p = Pallet::new(config);
    let (_, end) = p.do_initial_setup(&b"proxy".to_vec(), &vec![Ok(vec![[7u8; 32]]); 7]);
    assert_eq!(end, Some(Ok(())));
    p
}

fn create(p: &mut Pallet, tittle: &[u8]) -> [u8; 32] {
    done(p.do_create_project(ADMIN, true, tittle.to_vec(), b"desc".to_vec(), b"img".to_vec(), 200, 100, Ok(())))
        .unwrap();
    Pallet::project_id_of(&tittle.to_vec())
}

fn register(p: &mut Pallet, user: u64) {
    p.do_register_user(ADMIN, true, user, b"name".to_vec(), b"img".to_vec(), b"mail".to_vec(), None, 100)
        .unwrap();
}

#[test]
fn initial_setup_sets_the_global_scope() {
    let mut p = Pallet::new(config());
    assert_eq!(p.global_scope(), None);
    let (calls, end) = p.do_initial_setup(&b"proxy".to_vec(), &vec![Ok(vec![[7u8; 32], [8u8; 32]]); 7]);
    assert_eq!(end, Some(Ok(())));
    let mut encoded = vec![1u8];
    encoded.extend(b"proxy".to_vec().encode());
    let expected = sp_io::hashing::blake2_256(&encoded);
    assert_eq!(p.global_scope(), Some(expected));
    assert_eq!(p.get_global_scope(), expected);
    assert_eq!(calls.len(), 7);
    assert!(matches!(calls[0], ProxyCall::CreateRole { role: ProxyRole::Administrator }));
    match calls[1] {
        ProxyCall::SetAdministratorPermissions { role } => assert_eq!(role, [7u8; 32]),
        _ => panic!("the second call sets the administrator's permissions"),
    }
    assert!(matches!(calls[5], ProxyCall::CreateRole { role: ProxyRole::RegionalCenter }));
    match calls[6] {
        ProxyCall::CreateScope { scope } => assert_eq!(scope, expected),
        _ => panic!("the last call creates the global scope"),
    }
    assert_eq!(p.events(), &vec![Event::ProxySetupCompleted]);
}

#[test]
fn administrators_need_the_global_scope() {
    let mut p = Pallet::new(config());
    assert_eq!(done(p.do_sudo_add_administrator(ADMIN, Ok(()))).unwrap_err(), Error::GlobalScopeNotSet);
    assert_eq!(done(p.do_sudo_remove_administrator(ADMIN, Ok(()))).unwrap_err(), Error::GlobalScopeNotSet);
    assert!(p.events().is_empty());
    let mut p = set_up(config());
    let scope = p.get_global_scope();
    let calls = done(p.do_sudo_add_administrator(ADMIN, Ok(()))).unwrap();
    assert_eq!(calls.len(), 1);
    match calls[0] {
        ProxyCall::AssignRole { user, scope: s, role } => {
            assert_eq!(user, ADMIN);
            assert_eq!(s, scope);
            assert_eq!(role, ProxyRole::Administrator);
        }
        _ => panic!("the administrator role is assigned"),
    }
    let calls = done(p.do_sudo_remove_administrator(ADMIN, Ok(()))).unwrap();
    assert!(matches!(calls[0], ProxyCall::RemoveRole { user: ADMIN, role: ProxyRole::Administrator, .. }));
    assert_eq!(
        p.events()[1..].to_vec(),
        vec![Event::AdministratorAssigned(ADMIN), Event::AdministratorRemoved(ADMIN)]
    );
}

#[test]
fn a_project_is_keyed_by_the_digest_of_its_title() {
    let mut p = set_up(config());
    let calls = done(p
        .do_create_project(ADMIN, true, b"tower".to_vec(), b"desc".to_vec(), b"img".to_vec(), 200, 100, Ok(())))
        .unwrap();
    let id = sp_io::hashing::blake2_256(&b"tower".to_vec().encode());
    assert_eq!(Pallet::project_id_of(&b"tower".to_vec()), id);
    match calls[0] {
        ProxyCall::CreateScope { scope } => assert_eq!(scope, id),
        _ => panic!("the project scope is created"),
    }
    let data = p.projects_info(&id).unwrap();
    assert_eq!(data.tittle, b"tower".to_vec());
    assert_eq!(data.status, ProjectStatus::Started);
    assert_eq!(data.creation_date, 100);
    assert_eq!(data.updated_date, 100);
    assert_eq!(data.completition_date, 200);
    assert_eq!(data.developer, Some(vec![]));
    assert_eq!(p.events().last(), Some(&Event::ProjectCreated(ADMIN, id)));
}

#[test]
fn creating_a_project_can_fail() {
    let mut p = set_up(config());
    let r = done(p.do_create_project(ADMIN, false, b"t".to_vec(), vec![], vec![], 200, 100, Ok(())));
    assert_eq!(r.unwrap_err(), Error::NotAuthorized);
    let r = done(p.do_create_project(ADMIN, true, b"t".to_vec(), vec![], vec![], 100, 100, Ok(())));
    assert_eq!(r.unwrap_err(), Error::CompletitionDateMustBeLater);
    create(&mut p, b"t");
    let r = done(p.do_create_project(ADMIN, true, b"t".to_vec(), vec![], vec![], 300, 100, Ok(())));
    assert_eq!(r.unwrap_err(), Error::ProjectIdAlreadyInUse);
}

#[test]
fn editing_a_project_changes_only_what_is_given() {
    let mut p = set_up(config());
    let id = create(&mut p, b"tower");
    p.do_edit_project(ADMIN, true, id, Some(b"new".to_vec()), None, None, Some(50), None, 120).unwrap();
    let data = p.projects_info(&id).unwrap();
    assert_eq!(data.tittle, b"new".to_vec());
    assert_eq!(data.description, b"desc".to_vec());
    assert_eq!(data.creation_date, 50);
    assert_eq!(data.completition_date, 200);
    assert_eq!(p.events().last(), Some(&Event::ProjectEdited(id)));
    let r = p.do_edit_project(ADMIN, true, id, None, None, None, Some(120), None, 120);
    assert_eq!(r.unwrap_err(), Error::CreationDateMustBeInThePast);
    let r = p.do_edit_project(ADMIN, true, id, None, None, None, None, Some(120), 120);
    assert_eq!(r.unwrap_err(), Error::CompletitionDateMustBeLater);
    let r = p.do_edit_project(ADMIN, true, [9u8; 32], None, None, None, None, None, 120);
    assert_eq!(r.unwrap_err(), Error::ProjectNotFound);
    p.change_project_status(id, ProjectStatus::Completed).unwrap();
    let r = p.do_edit_project(ADMIN, true, id, None, None, None, None, None, 120);
    assert_eq!(r.unwrap_err(), Error::CannotEditCompletedProject);
    assert_eq!(p.change_project_status([9u8; 32], ProjectStatus::Started).unwrap_err(), Error::ProjectNotFound);
}

#[test]
fn users_register_once_and_can_be_updated() {
    let mut p = set_up(config());
    register(&mut p, ALICE);
    let r = p.do_register_user(ADMIN, true, ALICE, vec![], vec![], vec![], None, 100);
    assert_eq!(r.unwrap_err(), Error::UserAlreadyRegistered);
    let r = p.do_register_user(ADMIN, false, BOB, vec![], vec![], vec![], None, 100);
    assert_eq!(r.unwrap_err(), Error::NotAuthorized);
    let user = p.users_info(ALICE).unwrap();
    assert_eq!(user.date_registered, 100);
    assert_eq!(user.role, None);
    p.do_update_user(ADMIN, true, ALICE, Some(b"alice".to_vec()), None, None, Some(b"doc".to_vec()))
        .unwrap();
    let user = p.users_info(ALICE).unwrap();
    assert_eq!(user.name, b"alice".to_vec());
    assert_eq!(user.email, b"mail".to_vec());
    assert_eq!(user.documents, Some(b"doc".to_vec()));
    assert_eq!(p.events().last(), Some(&Event::UserUpdated(ALICE)));
    let r = p.do_update_user(ADMIN, true, BOB, None, None, None, None);
    assert_eq!(r.unwrap_err(), Error::UserNotRegistered);
}

#[test]
fn assigning_a_developer_records_both_sides() {
    let mut p = set_up(config());
    let id = create(&mut p, b"tower");
    register(&mut p, ALICE);
    let calls = done(p.do_assign_user(ADMIN, true, ALICE, id, ProxyRole::Developer, false, Ok(()))).unwrap();
    assert!(matches!(calls[0], ProxyCall::AssignRole { user: ALICE, role: ProxyRole::Developer, .. }));
    assert_eq!(p.users_by_project(&id), vec![ALICE]);
    assert_eq!(p.projects_by_user(ALICE), vec![id]);
    // The developer list of the project is left as it was.
    assert_eq!(p.projects_info(&id).unwrap().developer, Some(vec![]));
    assert_eq!(p.events().last(), Some(&Event::UserAssignedToProject(ALICE, id)));
    let r = done(p.do_assign_user(ADMIN, true, ALICE, id, ProxyRole::Developer, false, Ok(())));
    assert_eq!(r.unwrap_err(), Error::UserAlreadyAssignedToProject);
}

#[test]
fn assigning_can_fail() {
    let mut p = set_up(config());
    let id = create(&mut p, b"tower");
    register(&mut p, ALICE);
    let r = done(p.do_assign_user(ADMIN, false, ALICE, id, ProxyRole::Developer, false, Ok(())));
    assert_eq!(r.unwrap_err(), Error::NotAuthorized);
    let r = done(p.do_assign_user(ADMIN, true, ALICE, [7u8; 32], ProxyRole::Developer, false, Ok(())));
    assert_eq!(r.unwrap_err(), Error::ProjectNotFound);
    let r = done(p.do_assign_user(ADMIN, true, BOB, id, ProxyRole::Developer, false, Ok(())));
    assert_eq!(r.unwrap_err(), Error::UserNotRegistered);
    let r = done(p.do_assign_user(ADMIN, true, ALICE, id, ProxyRole::Developer, true, Ok(())));
    assert_eq!(r.unwrap_err(), Error::UserAlreadyHasRole);
    let r = done(p.do_assign_user(ADMIN, true, ALICE, id, ProxyRole::Administrator, false, Ok(())));
    assert_eq!(r.unwrap_err(), Error::CannotRegisterAdminRole);
    // An empty list of investors, issuers or regional centers refuses every user.
    for role in [ProxyRole::Investor, ProxyRole::Issuer, ProxyRole::RegionalCenter] {
        let r = done(p.do_assign_user(ADMIN, true, ALICE, id, role, false, Ok(())));
        assert_eq!(r.unwrap_err(), Error::UserAlreadyAssignedToProject);
    }
    assert!(p.users_by_project(&id).is_empty());
    p.change_project_status(id, ProjectStatus::Completed).unwrap();
    let r = done(p.do_assign_user(ADMIN, true, ALICE, id, ProxyRole::Developer, false, Ok(())));
    assert_eq!(r.unwrap_err(), Error::CannotEditCompletedProject);
}

#[test]
fn assigning_respects_the_bounds() {
    let mut c = config();
    c.max_users_per_project = 1;
    c.max_projects_per_user = 1;
    let mut p = set_up(c);
    let tower = create(&mut p, b"tower");
    let bridge = create(&mut p, b"bridge");
    register(&mut p, ALICE);
    register(&mut p, BOB);
    done(p.do_assign_user(ADMIN, true, ALICE, tower, ProxyRole::Developer, false, Ok(()))).unwrap();
    let r = done(p.do_assign_user(ADMIN, true, BOB, tower, ProxyRole::Developer, false, Ok(())));
    assert_eq!(r.unwrap_err(), Error::MaxUsersPerProjectReached);
    let r = done(p.do_assign_user(ADMIN, true, ALICE, bridge, ProxyRole::Developer, false, Ok(())));
    assert_eq!(r.unwrap_err(), Error::MaxProjectsPerUserReached);
    let mut c = config();
    c.max_developers_per_project = 0;
    let mut p = set_up(c);
    let tower = create(&mut p, b"tower");
    register(&mut p, ALICE);
    let r = done(p.do_assign_user(ADMIN, true, ALICE, tower, ProxyRole::Developer, false, Ok(())));
    assert_eq!(r.unwrap_err(), Error::MaxDevelopersPerProjectReached);
}

#[test]
fn unassigning_undoes_an_assignment() {
    let mut p = set_up(config());
    let id = create(&mut p, b"tower");
    register(&mut p, ALICE);
    let r = done(p.do_unassign_user(ADMIN, true, ALICE, id, ProxyRole::Developer, true, Ok(())));
    assert_eq!(r.unwrap_err(), Error::UserNotAssignedToProject);
    done(p.do_assign_user(ADMIN, true, ALICE, id, ProxyRole::Developer, false, Ok(()))).unwrap();
    let r = done(p.do_unassign_user(ADMIN, true, ALICE, id, ProxyRole::Developer, false, Ok(())));
    assert_eq!(r.unwrap_err(), Error::NotAuthorized);
    let calls = done(p.do_unassign_user(ADMIN, true, ALICE, id, ProxyRole::Developer, true, Ok(()))).unwrap();
    assert!(matches!(calls[0], ProxyCall::RemoveRole { user: ALICE, role: ProxyRole::Developer, .. }));
    assert!(p.users_by_project(&id).is_empty());
    assert!(p.projects_by_user(ALICE).is_empty());
    assert_eq!(p.events().last(), Some(&Event::UserUnassignedFromProject(ALICE, id)));
}

#[test]
fn deleting_a_project_removes_it_from_its_users() {
    let mut p = set_up(config());
    let tower = create(&mut p, b"tower");
    let bridge = create(&mut p, b"bridge");
    register(&mut p, ALICE);
    done(p.do_assign_user(ADMIN, true, ALICE, tower, ProxyRole::Developer, false, Ok(()))).unwrap();
    done(p.do_assign_user(ADMIN, true, ALICE, bridge, ProxyRole::Developer, false, Ok(()))).unwrap();
    let calls = done(p.do_delete_project(ADMIN, true, tower, Ok(()))).unwrap();
    match calls[0] {
        ProxyCall::RemoveScope { scope } => assert_eq!(scope, tower),
        _ => panic!("the project scope is removed"),
    }
    assert!(p.projects_info(&tower).is_none());
    assert!(p.users_by_project(&tower).is_empty());
    assert_eq!(p.projects_by_user(ALICE), vec![bridge]);
    assert_eq!(p.events().last(), Some(&Event::ProjectDeleted(tower)));
    assert_eq!(done(p.do_delete_project(ADMIN, true, tower, Ok(()))).unwrap_err(), Error::ProjectNotFound);
    p.change_project_status(bridge, ProjectStatus::Completed).unwrap();
    assert_eq!(done(p.do_delete_project(ADMIN, true, bridge, Ok(()))).unwrap_err(), Error::CannotDeleteCompletedProject);
    assert_eq!(done(p.do_delete_project(ADMIN, false, bridge, Ok(()))).unwrap_err(), Error::NotAuthorized);
}

#[test]
fn deleting_a_user_removes_them_from_their_projects() {
    let mut p = set_up(config());
    let tower = create(&mut p, b"tower");
    register(&mut p, ALICE);
    register(&mut p, BOB);
    done(p.do_assign_user(ADMIN, true, ALICE, tower, ProxyRole::Developer, false, Ok(()))).unwrap();
    done(p.do_assign_user(ADMIN, true, BOB, tower, ProxyRole::Developer, false, Ok(()))).unwrap();
    p.do_delete_user(ADMIN, true, ALICE).unwrap();
    assert!(p.users_info(ALICE).is_none());
    assert!(p.projects_by_user(ALICE).is_empty());
    assert_eq!(p.users_by_project(&tower), vec![BOB]);
    assert_eq!(p.events().last(), Some(&Event::UserDeleted(ALICE)));
    assert_eq!(p.do_delete_user(ADMIN, true, ALICE).unwrap_err(), Error::UserNotRegistered);
    assert_eq!(p.do_delete_user(ADMIN, false, BOB).unwrap_err(), Error::NotAuthorized);
}

#[test]
fn proxy_pallet_id_is_the_module_name() {
    match Pallet::pallet_id(&b"Proxy".to_vec()) {
        hashed_pallets::rbac::IdOrVec::Vec(v) => assert_eq!(v, b"Proxy".to_vec()),
        hashed_pallets::rbac::IdOrVec::Id(_) => panic!("the pallet id is built from the name"),
    }
}

#[test]
fn a_refused_access_control_call_changes_nothing() {
    let mut p = Pallet::new(config());
    let (calls, r) = p.do_sudo_add_administrator(ADMIN, Ok(()));
    assert!(calls.is_empty());
    assert_eq!(r, Err(Error::GlobalScopeNotSet));
    let mut p = set_up(config());
    let events = p.events().len();
    let (calls, r) = p.do_sudo_add_administrator(ADMIN, Err(Error::AccessControl(3)));
    assert_eq!(calls.len(), 1);
    assert_eq!(r, Err(Error::AccessControl(3)));
    assert_eq!(p.events().len(), events);
    let (calls, r) =
        p.do_create_project(ADMIN, true, b"tower".to_vec(), vec![], vec![], 200, 100, Err(Error::AccessControl(1)));
    assert!(matches!(calls[0], ProxyCall::CreateScope { .. }));
    assert_eq!(r, Err(Error::AccessControl(1)));
    let id = Pallet::project_id_of(&b"tower".to_vec());
    assert!(p.projects_info(&id).is_none());
    let id = create(&mut p, b"tower");
    register(&mut p, ALICE);
    let (calls, r) = p.do_assign_user(ADMIN, true, ALICE, id, ProxyRole::Developer, false, Err(Error::AccessControl(2)));
    assert_eq!(calls.len(), 1);
    assert_eq!(r, Err(Error::AccessControl(2)));
    assert!(p.users_by_project(&id).is_empty());
    assert!(p.projects_by_user(ALICE).is_empty());
    assert_eq!(p.events().last(), Some(&Event::UserAdded(ALICE)));
    let (calls, r) = p.do_delete_project(ADMIN, true, id, Err(Error::AccessControl(5)));
    assert_eq!(calls.len(), 1);
    assert_eq!(r, Err(Error::AccessControl(5)));
    assert!(p.projects_info(&id).is_some());
}

#[test]
fn initial_setup_stops_at_the_first_refused_call() {
    let mut p = Pallet::new(config());
    let (calls, end) = p.do_initial_setup(&b"proxy".to_vec(), &vec![]);
    assert_eq!((calls.len(), end), (1, None));
    let (calls, end) = p.do_initial_setup(&b"proxy".to_vec(), &vec![Err(Error::AccessControl(1))]);
    assert_eq!((calls.len(), end), (1, Some(Err(Error::AccessControl(1)))));
    let answers = vec![Ok(vec![[7u8; 32]]), Ok(vec![]), Ok(vec![]), Err(Error::AccessControl(2)), Ok(vec![])];
    let (calls, end) = p.do_initial_setup(&b"proxy".to_vec(), &answers);
    assert_eq!(end, Some(Err(Error::AccessControl(2))));
    assert_eq!(calls.len(), 4);
    assert!(matches!(calls[3], ProxyCall::CreateRole { role: ProxyRole::Investor }));
    assert_eq!(p.global_scope(), None);
    assert!(p.events().is_empty());
}
