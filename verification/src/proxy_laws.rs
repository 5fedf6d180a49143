//! Laws of the proxy pallet: every operation, whatever the access control
//! pallet answers, keeps the users of each project and the projects of each
//! user mirror images and free of duplicates, and an assignment followed by its
//! removal leaves both lists as they were.

use crate::common::{AccountId, Id};
use crate::proxy::{add_administrator, remove_administrator, spec_project_id, Error};
use crate::proxy::{
    answered, assign_user, assignments_mirrored, change_project_status, create_project, delete_project, delete_user,
    edit_project, has_id, initial_setup, projects_of, register_user, setup_calls, spec_global_scope, strip_project,
    strip_user, unassign_user, update_user, users_of, without_account, without_id, EventView, ProjectStatus, ProxyCallView,
    ProxyConfig, ProxyRole, ProxyState,
};
use vstd::prelude::*;

verus! {

/// The users stored for a project in a map (none when nothing is stored).
pub open spec fn accounts_at(m: Map<Seq<u8>, Seq<AccountId>>, p: Seq<u8>) -> Seq<AccountId> {
    if m.contains_key(p) {
        m[p]
    } else {
        Seq::empty()
    }
}

/// The projects stored for a user in a map (none when nothing is stored).
pub open spec fn ids_at(m: Map<AccountId, Seq<Id>>, u: AccountId) -> Seq<Id> {
    if m.contains_key(u) {
        m[u]
    } else {
        Seq::empty()
    }
}

pub proof fn lemma_without_account_contains(s: Seq<AccountId>, x: AccountId, y: AccountId)
    ensures
        without_account(s, x).contains(y) <==> (s.contains(y) && y != x),
    decreases s.len(),
{
    if s.len() > 0 {
        let d = s.drop_last();
        lemma_without_account_contains(d, x, y);
        let w = without_account(s, x);
        let wd = without_account(d, x);
        if s.contains(y) && y != x {
            let i = choose|i: int| 0 <= i < s.len() && s[i] == y;
            if i < s.len() - 1 {
                assert(d[i] == y);
                let j = choose|j: int| 0 <= j < wd.len() && wd[j] == y;
                if s.last() != x {
                    assert(w[j] == wd[j]);
                }
                assert(w.contains(y));
            } else {
                assert(w[w.len() - 1] == y);
            }
        }
        if w.contains(y) {
            let j = choose|j: int| 0 <= j < w.len() && w[j] == y;
            if s.last() != x && j == w.len() - 1 {
                assert(s[s.len() - 1] == y);
            } else {
                assert(wd[j] == y);
                let i = choose|i: int| 0 <= i < d.len() && d[i] == y;
                assert(s[i] == y);
            }
        }
    }
}

pub proof fn lemma_without_id_has(ids: Seq<Id>, x: Seq<u8>, y: Seq<u8>)
    ensures
        has_id(without_id(ids, x), y) <==> (has_id(ids, y) && y != x),
    decreases ids.len(),
{
    if ids.len() > 0 {
        let d = ids.drop_last();
        lemma_without_id_has(d, x, y);
        let w = without_id(ids, x);
        let wd = without_id(d, x);
        if has_id(ids, y) && y != x {
            let i = choose|i: int| 0 <= i < ids.len() && ids[i]@ == y;
            if i < ids.len() - 1 {
                assert(d[i]@ == y);
                let j = choose|j: int| 0 <= j < wd.len() && wd[j]@ == y;
                if ids.last()@ != x {
                    assert(w[j] == wd[j]);
                }
            } else {
                assert(w[w.len() - 1]@ == y);
            }
        }
        if has_id(w, y) {
            let j = choose|j: int| 0 <= j < w.len() && w[j]@ == y;
            if ids.last()@ != x && j == w.len() - 1 {
                assert(ids[ids.len() - 1]@ == y);
            } else {
                assert(wd[j]@ == y);
                let i = choose|i: int| 0 <= i < d.len() && d[i]@ == y;
                assert(ids[i]@ == y);
            }
        }
    }
}

pub proof fn lemma_without_account_absent(s: Seq<AccountId>, x: AccountId)
    requires
        !s.contains(x),
    ensures
        without_account(s, x) == s,
    decreases s.len(),
{
    if s.len() > 0 {
        let d = s.drop_last();
        assert(!d.contains(x)) by {
            if d.contains(x) {
                let i = choose|i: int| 0 <= i < d.len() && d[i] == x;
                assert(s[i] == x);
            }
        }
        lemma_without_account_absent(d, x);
        assert(s.last() != x) by {
            assert(s[s.len() - 1] == s.last());
        }
        assert(d.push(s.last()) =~= s);
    }
}

pub proof fn lemma_without_id_absent(ids: Seq<Id>, x: Seq<u8>)
    requires
        !has_id(ids, x),
    ensures
        without_id(ids, x) == ids,
    decreases ids.len(),
{
    if ids.len() > 0 {
        let d = ids.drop_last();
        assert(!has_id(d, x)) by {
            if has_id(d, x) {
                let i = choose|i: int| 0 <= i < d.len() && d[i]@ == x;
                assert(ids[i]@ == x);
            }
        }
        lemma_without_id_absent(d, x);
        assert(ids.last()@ != x) by {
            assert(ids[ids.len() - 1] == ids.last());
        }
        assert(d.push(ids.last()) =~= ids);
    }
}

pub proof fn lemma_strip_project(m: Map<AccountId, Seq<Id>>, us: Seq<AccountId>, pid: Seq<u8>, u: AccountId, p: Seq<u8>)
    ensures
        has_id(ids_at(strip_project(m, us, pid), u), p) <==> (has_id(ids_at(m, u), p) && !(us.contains(u) && p == pid)),
    decreases us.len(),
{
    if us.len() > 0 {
        let d = us.drop_last();
        lemma_strip_project(m, d, pid, u, p);
        let m1 = strip_project(m, d, pid);
        let last = us.last();
        if u == last {
            lemma_without_id_has(ids_at(m1, u), pid, p);
            assert(us.contains(u)) by {
                assert(us[us.len() - 1] == u);
            }
        } else {
            assert(ids_at(strip_project(m, us, pid), u) == ids_at(m1, u));
            assert(us.contains(u) <==> d.contains(u)) by {
                if us.contains(u) {
                    let i = choose|i: int| 0 <= i < us.len() && us[i] == u;
                    assert(i < us.len() - 1);
                    assert(d[i] == u);
                }
                if d.contains(u) {
                    let i = choose|i: int| 0 <= i < d.len() && d[i] == u;
                    assert(us[i] == u);
                }
            }
        }
    }
}

pub proof fn lemma_strip_user(m: Map<Seq<u8>, Seq<AccountId>>, ps: Seq<Id>, user: AccountId, p: Seq<u8>, v: AccountId)
    ensures
        accounts_at(strip_user(m, ps, user), p).contains(v) <==> (accounts_at(m, p).contains(v) && !(has_id(ps, p)
            && v == user)),
    decreases ps.len(),
{
    if ps.len() > 0 {
        let d = ps.drop_last();
        lemma_strip_user(m, d, user, p, v);
        let m1 = strip_user(m, d, user);
        let last = ps.last()@;
        if p == last {
            lemma_without_account_contains(accounts_at(m1, p), user, v);
            assert(has_id(ps, p)) by {
                assert(ps[ps.len() - 1]@ == p);
            }
        } else {
            assert(accounts_at(strip_user(m, ps, user), p) == accounts_at(m1, p));
            assert(has_id(ps, p) <==> has_id(d, p)) by {
                if has_id(ps, p) {
                    let i = choose|i: int| 0 <= i < ps.len() && ps[i]@ == p;
                    assert(i < ps.len() - 1);
                    assert(d[i]@ == p);
                }
                if has_id(d, p) {
                    let i = choose|i: int| 0 <= i < d.len() && d[i]@ == p;
                    assert(ps[i]@ == p);
                }
            }
        }
    }
}

/// Assigning a user to a project records the assignment on both sides, and
/// keeps every other assignment mirrored.
pub proof fn lemma_assign_keeps_mirror(
    s: ProxyState,
    authorized: bool,
    user: AccountId,
    pid: Id,
    role: ProxyRole,
    user_has_role: bool,
)
    requires
        assignments_mirrored(s),
        assign_user(s, authorized, user, pid, role, user_has_role).is_ok(),
    ensures
        assignments_mirrored(assign_user(s, authorized, user, pid, role, user_has_role).unwrap()),
        users_of(assign_user(s, authorized, user, pid, role, user_has_role).unwrap(), pid@).contains(user),
{
    let s2 = assign_user(s, authorized, user, pid, role, user_has_role).unwrap();
    let pv = pid@;
    assert(users_of(s2, pv) == users_of(s, pv).push(user));
    assert(users_of(s2, pv)[users_of(s2, pv).len() - 1] == user);
    assert forall|p: Seq<u8>, u: AccountId| #[trigger] users_of(s2, p).contains(u) <==> has_id(#[trigger] projects_of(s2, u), p) by {
        let lu = users_of(s, p);
        let lp = projects_of(s, u);
        if p == pv {
            if users_of(s2, p).contains(u) && u != user {
                let i = choose|i: int| 0 <= i < users_of(s2, p).len() && users_of(s2, p)[i] == u;
                assert(lu[i] == u);
            }
            if u != user && lu.contains(u) {
                let i = choose|i: int| 0 <= i < lu.len() && lu[i] == u;
                assert(users_of(s2, p)[i] == u);
            }
        }
        if u == user {
            assert(projects_of(s2, u) == lp.push(pid));
            assert(projects_of(s2, u)[lp.len() as int]@ == pv);
            if has_id(projects_of(s2, u), p) && p != pv {
                let i = choose|i: int| 0 <= i < projects_of(s2, u).len() && projects_of(s2, u)[i]@ == p;
                assert(lp[i]@ == p);
            }
            if has_id(lp, p) {
                let i = choose|i: int| 0 <= i < lp.len() && lp[i]@ == p;
                assert(projects_of(s2, u)[i]@ == p);
            }
        }
    }
}

/// Removing an assignment removes it on both sides and keeps every other
/// assignment mirrored.
pub proof fn lemma_unassign_keeps_mirror(
    s: ProxyState,
    authorized: bool,
    user: AccountId,
    pid: Seq<u8>,
    user_has_role: bool,
)
    requires
        assignments_mirrored(s),
        unassign_user(s, authorized, user, pid, user_has_role).is_ok(),
    ensures
        assignments_mirrored(unassign_user(s, authorized, user, pid, user_has_role).unwrap()),
        !users_of(unassign_user(s, authorized, user, pid, user_has_role).unwrap(), pid).contains(user),
{
    let s2 = unassign_user(s, authorized, user, pid, user_has_role).unwrap();
    lemma_without_account_contains(users_of(s, pid), user, user);
    assert forall|p: Seq<u8>, u: AccountId| #[trigger] users_of(s2, p).contains(u) <==> has_id(#[trigger] projects_of(s2, u), p) by {
        if p == pid {
            lemma_without_account_contains(users_of(s, pid), user, u);
        }
        if u == user {
            lemma_without_id_has(projects_of(s, user), pid, p);
        }
        assert(users_of(s, p).contains(u) <==> has_id(projects_of(s, u), p));
    }
}

/// Deleting a user removes all of its assignments and keeps the others mirrored.
pub proof fn lemma_delete_user_keeps_mirror(s: ProxyState, authorized: bool, user: AccountId)
    requires
        assignments_mirrored(s),
        delete_user(s, authorized, user).is_ok(),
    ensures
        assignments_mirrored(delete_user(s, authorized, user).unwrap()),
        forall|p: Seq<u8>| !(#[trigger] users_of(delete_user(s, authorized, user).unwrap(), p)).contains(user),
{
    let s2 = delete_user(s, authorized, user).unwrap();
    assert forall|p: Seq<u8>, u: AccountId| #[trigger] users_of(s2, p).contains(u) <==> has_id(#[trigger] projects_of(s2, u), p) by {
        lemma_strip_user(s.users_by_project, projects_of(s, user), user, p, u);
        assert(users_of(s2, p) == accounts_at(strip_user(s.users_by_project, projects_of(s, user), user), p));
        assert(users_of(s, p) == accounts_at(s.users_by_project, p));
        assert(users_of(s, p).contains(u) <==> has_id(projects_of(s, u), p));
        if u == user {
            assert(projects_of(s2, u) =~= Seq::<Id>::empty());
        }
    }
    assert forall|p: Seq<u8>| !(#[trigger] users_of(s2, p)).contains(user) by {
        lemma_strip_user(s.users_by_project, projects_of(s, user), user, p, user);
        assert(users_of(s2, p) == accounts_at(strip_user(s.users_by_project, projects_of(s, user), user), p));
        assert(users_of(s, p).contains(user) <==> has_id(projects_of(s, user), p));
    }
}

/// Deleting a project removes all of its assignments and keeps the others mirrored.
pub proof fn lemma_delete_project_keeps_mirror(s: ProxyState, authorized: bool, pid: Seq<u8>)
    requires
        assignments_mirrored(s),
        delete_project(s, authorized, pid).is_ok(),
    ensures
        assignments_mirrored(delete_project(s, authorized, pid).unwrap()),
        forall|u: AccountId| !has_id(#[trigger] projects_of(delete_project(s, authorized, pid).unwrap(), u), pid),
{
    let s2 = delete_project(s, authorized, pid).unwrap();
    assert forall|p: Seq<u8>, u: AccountId| #[trigger] users_of(s2, p).contains(u) <==> has_id(#[trigger] projects_of(s2, u), p) by {
        lemma_strip_project(s.projects_by_user, users_of(s, pid), pid, u, p);
        assert(projects_of(s2, u) == ids_at(strip_project(s.projects_by_user, users_of(s, pid), pid), u));
        assert(projects_of(s, u) == ids_at(s.projects_by_user, u));
        assert(users_of(s, p).contains(u) <==> has_id(projects_of(s, u), p));
        if p == pid {
            assert(users_of(s2, p) =~= Seq::<AccountId>::empty());
        }
    }
    assert forall|u: AccountId| !has_id(#[trigger] projects_of(s2, u), pid) by {
        lemma_strip_project(s.projects_by_user, users_of(s, pid), pid, u, pid);
        assert(projects_of(s2, u) == ids_at(strip_project(s.projects_by_user, users_of(s, pid), pid), u));
        assert(users_of(s, pid).contains(u) <==> has_id(projects_of(s, u), pid));
    }
}

/// Assigning a user to a project and then removing the assignment leaves the
/// project's users and the user's projects as they were.
pub proof fn lemma_assign_then_unassign(s: ProxyState, user: AccountId, pid: Id, role: ProxyRole)
    requires
        assign_user(s, true, user, pid, role, false).is_ok(),
    ensures
        ({
            let s1 = assign_user(s, true, user, pid, role, false).unwrap();
            let s2 = unassign_user(s1, true, user, pid@, true);
            &&& s2.is_ok()
            &&& users_of(s2.unwrap(), pid@) == users_of(s, pid@)
            &&& projects_of(s2.unwrap(), user) == projects_of(s, user)
        }),
{
    let s1 = assign_user(s, true, user, pid, role, false).unwrap();
    let pv = pid@;
    let lu = users_of(s, pv);
    let lp = projects_of(s, user);
    assert(users_of(s1, pv) == lu.push(user));
    assert(projects_of(s1, user) == lp.push(pid));
    assert(lu.push(user).contains(user)) by {
        assert(lu.push(user)[lu.len() as int] == user);
    }
    assert(has_id(lp.push(pid), pv)) by {
        assert(lp.push(pid)[lp.len() as int]@ == pv);
    }
    assert(lu.push(user).drop_last() =~= lu);
    assert(lp.push(pid).drop_last() =~= lp);
    lemma_without_account_absent(lu, user);
    lemma_without_id_absent(lp, pv);
    assert(without_account(lu.push(user), user) == without_account(lu, user));
    assert(without_id(lp.push(pid), pv) == without_id(lp, pv));
}

/// The setup, creating or editing a project and changing its status change no
/// assignment, so they keep the assignments mirrored.
pub proof fn lemma_project_changes_keep_assignments(
    s: ProxyState,
    name: Seq<u8>,
    admin: AccountId,
    authorized: bool,
    tittle: Seq<u8>,
    description: Seq<u8>,
    image: Seq<u8>,
    completition_date: u64,
    now: u64,
    pid: Seq<u8>,
    new_tittle: Option<Seq<u8>>,
    new_description: Option<Seq<u8>>,
    new_image: Option<Seq<u8>>,
    new_creation_date: Option<u64>,
    new_completition_date: Option<u64>,
    status: ProjectStatus,
)
    requires
        assignments_mirrored(s),
    ensures
        assignments_mirrored(initial_setup(s, name)),
        create_project(s, admin, authorized, tittle, description, image, completition_date, now) matches Ok(s2)
            ==> same_assignments(s, s2) && assignments_mirrored(s2),
        edit_project(
            s,
            authorized,
            pid,
            new_tittle,
            new_description,
            new_image,
            new_creation_date,
            new_completition_date,
            now,
        ) matches Ok(s2) ==> same_assignments(s, s2) && assignments_mirrored(s2),
        change_project_status(s, pid, status) matches Ok(s2) ==> same_assignments(s, s2) && assignments_mirrored(s2),
{
    lemma_same_assignments_keep_mirror(s, initial_setup(s, name));
    if let Ok(s2) = create_project(s, admin, authorized, tittle, description, image, completition_date, now) {
        lemma_same_assignments_keep_mirror(s, s2);
    }
    if let Ok(s2) = edit_project(
        s,
        authorized,
        pid,
        new_tittle,
        new_description,
        new_image,
        new_creation_date,
        new_completition_date,
        now,
    ) {
        lemma_same_assignments_keep_mirror(s, s2);
    }
    if let Ok(s2) = change_project_status(s, pid, status) {
        lemma_same_assignments_keep_mirror(s, s2);
    }
}

/// Registering or updating a user changes no assignment, so it keeps the
/// assignments mirrored.
pub proof fn lemma_user_changes_keep_assignments(
    s: ProxyState,
    authorized: bool,
    user: AccountId,
    name: Seq<u8>,
    image: Seq<u8>,
    email: Seq<u8>,
    documents: Option<Seq<u8>>,
    now: u64,
    new_name: Option<Seq<u8>>,
    new_image: Option<Seq<u8>>,
    new_email: Option<Seq<u8>>,
    new_documents: Option<Seq<u8>>,
)
    requires
        assignments_mirrored(s),
    ensures
        register_user(s, authorized, user, name, image, email, documents, now) matches Ok(s2)
            ==> same_assignments(s, s2) && assignments_mirrored(s2),
        update_user(s, authorized, user, new_name, new_image, new_email, new_documents) matches Ok(s2)
            ==> same_assignments(s, s2) && assignments_mirrored(s2),
{
    if let Ok(s2) = register_user(s, authorized, user, name, image, email, documents, now) {
        lemma_same_assignments_keep_mirror(s, s2);
    }
    if let Ok(s2) = update_user(s, authorized, user, new_name, new_image, new_email, new_documents) {
        lemma_same_assignments_keep_mirror(s, s2);
    }
}

/// Two states with the same assignments, stored on both sides.
pub open spec fn same_assignments(s: ProxyState, s2: ProxyState) -> bool {
    s2.users_by_project == s.users_by_project && s2.projects_by_user == s.projects_by_user
}

proof fn lemma_same_assignments_keep_mirror(s: ProxyState, s2: ProxyState)
    requires
        assignments_mirrored(s),
        same_assignments(s, s2),
    ensures
        assignments_mirrored(s2),
{
    assert forall|p: Seq<u8>, u: AccountId| #[trigger] users_of(s2, p).contains(u) <==> has_id(#[trigger] projects_of(s2, u), p) by {
        assert(users_of(s, p).contains(u) <==> has_id(projects_of(s, u), p));
    }
}

/// The state an operation that makes one access control call leaves: the new
/// state when its checks and the call succeeded, the old one otherwise.
pub open spec fn after(s: ProxyState, checked: Result<ProxyState, Error>, answer: Result<(), Error>) -> ProxyState {
    match answered(checked, answer) {
        Ok(s2) => s2,
        Err(_) => s,
    }
}

/// Whatever the access control pallet answers, and whether the operation
/// succeeds or fails, assigning, unassigning, and deleting a user or a project
/// keep the assignments mirrored.
pub proof fn lemma_every_outcome_keeps_mirror(
    s: ProxyState,
    authorized: bool,
    user: AccountId,
    pid: Id,
    role: ProxyRole,
    user_has_role: bool,
    answer: Result<(), Error>,
)
    requires
        assignments_mirrored(s),
    ensures
        assignments_mirrored(after(s, assign_user(s, authorized, user, pid, role, user_has_role), answer)),
        assignments_mirrored(after(s, unassign_user(s, authorized, user, pid@, user_has_role), answer)),
        assignments_mirrored(after(s, delete_project(s, authorized, pid@), answer)),
        delete_user(s, authorized, user) matches Ok(s2) ==> assignments_mirrored(s2),
{
    if assign_user(s, authorized, user, pid, role, user_has_role).is_ok() {
        lemma_assign_keeps_mirror(s, authorized, user, pid, role, user_has_role);
    }
    if unassign_user(s, authorized, user, pid@, user_has_role).is_ok() {
        lemma_unassign_keeps_mirror(s, authorized, user, pid@, user_has_role);
    }
    if delete_project(s, authorized, pid@).is_ok() {
        lemma_delete_project_keeps_mirror(s, authorized, pid@);
    }
    if delete_user(s, authorized, user).is_ok() {
        lemma_delete_user_keeps_mirror(s, authorized, user);
    }
}

/// After the setup, the stored global scope is the digest of the encoded pallet
/// id, and it is the scope that the setup's last call creates.
pub proof fn lemma_setup_scope(s: ProxyState, name: Seq<u8>, admin_role: Seq<u8>)
    ensures
        initial_setup(s, name).global_scope == Some(spec_global_scope(name)),
        setup_calls(name, admin_role).last() == (ProxyCallView::CreateScope { scope: spec_global_scope(name) }),
{
}

/// Ids of which no two name the same thing.
pub open spec fn ids_distinct(ids: Seq<Id>) -> bool {
    forall|i: int, j: int| 0 <= i < j < ids.len() ==> (#[trigger] ids[i])@ != (#[trigger] ids[j])@
}

/// No project lists a user twice, and no user lists a project twice.
pub open spec fn lists_without_duplicates(s: ProxyState) -> bool {
    &&& forall|p: Seq<u8>| (#[trigger] users_of(s, p)).no_duplicates()
    &&& forall|u: AccountId| ids_distinct(#[trigger] projects_of(s, u))
}

proof fn lemma_push_account_no_dup(s: Seq<AccountId>, a: AccountId)
    requires
        s.no_duplicates(),
        !s.contains(a),
    ensures
        s.push(a).no_duplicates(),
{
    let t = s.push(a);
    assert forall|i: int, j: int| 0 <= i < t.len() && 0 <= j < t.len() && i != j implies t[i] != t[j] by {
        if i == s.len() {
            assert(s[j] == t[j]);
        } else if j == s.len() {
            assert(s[i] == t[i]);
        }
    }
}

proof fn lemma_push_id_distinct(ids: Seq<Id>, a: Id)
    requires
        ids_distinct(ids),
        !has_id(ids, a@),
    ensures
        ids_distinct(ids.push(a)),
{
    let t = ids.push(a);
    assert forall|i: int, j: int| 0 <= i < j < t.len() implies (#[trigger] t[i])@ != (#[trigger] t[j])@ by {
        if j == ids.len() {
            assert(t[i] == ids[i]);
        } else {
            assert(t[i] == ids[i] && t[j] == ids[j]);
        }
    }
}

proof fn lemma_without_account_no_dup(s: Seq<AccountId>, x: AccountId)
    requires
        s.no_duplicates(),
    ensures
        without_account(s, x).no_duplicates(),
    decreases s.len(),
{
    if s.len() > 0 {
        let d = s.drop_last();
        assert(d.no_duplicates()) by {
            assert forall|i: int, j: int| 0 <= i < d.len() && 0 <= j < d.len() && i != j implies d[i] != d[j] by {
                assert(d[i] == s[i] && d[j] == s[j]);
            }
        }
        lemma_without_account_no_dup(d, x);
        if s.last() != x {
            lemma_without_account_contains(d, x, s.last());
            assert(!d.contains(s.last())) by {
                if d.contains(s.last()) {
                    let i = choose|i: int| 0 <= i < d.len() && d[i] == s.last();
                    assert(s[i] == s[s.len() - 1]);
                }
            }
            lemma_push_account_no_dup(without_account(d, x), s.last());
        }
    }
}

proof fn lemma_without_id_distinct(ids: Seq<Id>, x: Seq<u8>)
    requires
        ids_distinct(ids),
    ensures
        ids_distinct(without_id(ids, x)),
    decreases ids.len(),
{
    if ids.len() > 0 {
        let d = ids.drop_last();
        assert(ids_distinct(d)) by {
            assert forall|i: int, j: int| 0 <= i < j < d.len() implies (#[trigger] d[i])@ != (#[trigger] d[j])@ by {
                assert(d[i] == ids[i] && d[j] == ids[j]);
            }
        }
        lemma_without_id_distinct(d, x);
        if ids.last()@ != x {
            lemma_without_id_has(d, x, ids.last()@);
            assert(!has_id(d, ids.last()@)) by {
                if has_id(d, ids.last()@) {
                    let i = choose|i: int| 0 <= i < d.len() && d[i]@ == ids.last()@;
                    assert(ids[i] == d[i]);
                    assert(ids[ids.len() - 1] == ids.last());
                }
            }
            lemma_push_id_distinct(without_id(d, x), ids.last());
        }
    }
}

proof fn lemma_strip_user_no_dup(m: Map<Seq<u8>, Seq<AccountId>>, ps: Seq<Id>, user: AccountId)
    requires
        forall|q: Seq<u8>| (#[trigger] accounts_at(m, q)).no_duplicates(),
    ensures
        forall|q: Seq<u8>| (#[trigger] accounts_at(strip_user(m, ps, user), q)).no_duplicates(),
    decreases ps.len(),
{
    if ps.len() > 0 {
        let d = ps.drop_last();
        lemma_strip_user_no_dup(m, d, user);
        let m1 = strip_user(m, d, user);
        let p = ps.last()@;
        assert(accounts_at(m1, p).no_duplicates());
        lemma_without_account_no_dup(accounts_at(m1, p), user);
        assert forall|q: Seq<u8>| (#[trigger] accounts_at(strip_user(m, ps, user), q)).no_duplicates() by {
            if q != p {
                assert(accounts_at(strip_user(m, ps, user), q) == accounts_at(m1, q));
            }
        }
    }
}

proof fn lemma_strip_project_distinct(m: Map<AccountId, Seq<Id>>, us: Seq<AccountId>, pid: Seq<u8>)
    requires
        forall|u: AccountId| ids_distinct(#[trigger] ids_at(m, u)),
    ensures
        forall|u: AccountId| ids_distinct(#[trigger] ids_at(strip_project(m, us, pid), u)),
    decreases us.len(),
{
    if us.len() > 0 {
        let d = us.drop_last();
        lemma_strip_project_distinct(m, d, pid);
        let m1 = strip_project(m, d, pid);
        let u0 = us.last();
        assert(ids_distinct(ids_at(m1, u0)));
        lemma_without_id_distinct(ids_at(m1, u0), pid);
        assert forall|u: AccountId| ids_distinct(#[trigger] ids_at(strip_project(m, us, pid), u)) by {
            if u != u0 {
                assert(ids_at(strip_project(m, us, pid), u) == ids_at(m1, u));
            }
        }
    }
}

/// Whatever the access control pallet answers, and whether the operation
/// succeeds or fails, assigning, unassigning, and deleting a user or a project
/// leave no project listing a user twice and no user listing a project twice.
pub proof fn lemma_every_outcome_keeps_lists_without_duplicates(
    s: ProxyState,
    authorized: bool,
    user: AccountId,
    pid: Id,
    role: ProxyRole,
    user_has_role: bool,
    answer: Result<(), Error>,
)
    requires
        lists_without_duplicates(s),
    ensures
        lists_without_duplicates(after(s, assign_user(s, authorized, user, pid, role, user_has_role), answer)),
        lists_without_duplicates(after(s, unassign_user(s, authorized, user, pid@, user_has_role), answer)),
        lists_without_duplicates(after(s, delete_project(s, authorized, pid@), answer)),
        delete_user(s, authorized, user) matches Ok(s2) ==> lists_without_duplicates(s2),
{
    if let Ok(s2) = assign_user(s, authorized, user, pid, role, user_has_role) {
        lemma_push_account_no_dup(users_of(s, pid@), user);
        lemma_push_id_distinct(projects_of(s, user), pid);
        assert forall|p: Seq<u8>| (#[trigger] users_of(s2, p)).no_duplicates() by {
            if p == pid@ {
                assert(users_of(s2, p) == users_of(s, pid@).push(user));
            } else {
                assert(users_of(s2, p) == users_of(s, p));
            }
        }
        assert forall|u: AccountId| ids_distinct(#[trigger] projects_of(s2, u)) by {
            if u == user {
                assert(projects_of(s2, u) == projects_of(s, user).push(pid));
            } else {
                assert(projects_of(s2, u) == projects_of(s, u));
            }
        }
    }
    if let Ok(s2) = unassign_user(s, authorized, user, pid@, user_has_role) {
        lemma_without_account_no_dup(users_of(s, pid@), user);
        lemma_without_id_distinct(projects_of(s, user), pid@);
        assert forall|p: Seq<u8>| (#[trigger] users_of(s2, p)).no_duplicates() by {
            if p != pid@ {
                assert(users_of(s2, p) == users_of(s, p));
            }
        }
        assert forall|u: AccountId| ids_distinct(#[trigger] projects_of(s2, u)) by {
            if u != user {
                assert(projects_of(s2, u) == projects_of(s, u));
            }
        }
    }
    if let Ok(s2) = delete_project(s, authorized, pid@) {
        assert forall|u: AccountId| ids_distinct(#[trigger] ids_at(s.projects_by_user, u)) by {
            assert(ids_at(s.projects_by_user, u) == projects_of(s, u));
        }
        lemma_strip_project_distinct(s.projects_by_user, users_of(s, pid@), pid@);
        assert forall|p: Seq<u8>| (#[trigger] users_of(s2, p)).no_duplicates() by {
            if p != pid@ {
                assert(users_of(s2, p) == users_of(s, p));
            }
        }
        assert forall|u: AccountId| ids_distinct(#[trigger] projects_of(s2, u)) by {
            assert(projects_of(s2, u) == ids_at(strip_project(s.projects_by_user, users_of(s, pid@), pid@), u));
        }
    }
    if let Ok(s2) = delete_user(s, authorized, user) {
        assert forall|q: Seq<u8>| (#[trigger] accounts_at(s.users_by_project, q)).no_duplicates() by {
            assert(accounts_at(s.users_by_project, q) == users_of(s, q));
        }
        lemma_strip_user_no_dup(s.users_by_project, projects_of(s, user), user);
        assert forall|p: Seq<u8>| (#[trigger] users_of(s2, p)).no_duplicates() by {
            assert(users_of(s2, p) == accounts_at(strip_user(s.users_by_project, projects_of(s, user), user), p));
        }
        assert forall|u: AccountId| ids_distinct(#[trigger] projects_of(s2, u)) by {
            if u != user {
                assert(projects_of(s2, u) == projects_of(s, u));
            } else {
                assert(projects_of(s2, u) =~= Seq::<Id>::empty());
            }
        }
    }
}

/// A new pallet's lists hold no duplicates and are mirrored.
pub proof fn lemma_new_pallet_lists(config: ProxyConfig)
    ensures
        ({
            let s = ProxyState {
                global_scope: None,
                projects: Map::empty(),
                users: Map::empty(),
                users_by_project: Map::empty(),
                projects_by_user: Map::empty(),
                events: Seq::empty(),
                config,
            };
            lists_without_duplicates(s) && assignments_mirrored(s)
        }),
{
}

/// Editing a project succeeds exactly when the caller is authorized, the
/// project exists and is not completed, a new creation date lies before `now`
/// and a new completion date after it. Then each field given is stored as
/// given, each field not given keeps its value, the project's role lists,
/// status and update date stay, no other project, user or assignment changes,
/// and the edit is recorded.
pub proof fn lemma_edit_project_fields(
    s: ProxyState,
    authorized: bool,
    pid: Seq<u8>,
    tittle: Option<Seq<u8>>,
    description: Option<Seq<u8>>,
    image: Option<Seq<u8>>,
    creation_date: Option<u64>,
    completition_date: Option<u64>,
    now: u64,
)
    ensures
        edit_project(s, authorized, pid, tittle, description, image, creation_date, completition_date, now) is Ok <==> (
        authorized && s.projects.contains_key(pid) && s.projects[pid].status != ProjectStatus::Completed && (
        creation_date matches Some(c) ==> c < now) && (completition_date matches Some(c) ==> c > now)),
        edit_project(s, authorized, pid, tittle, description, image, creation_date, completition_date, now) matches Ok(
            s2,
        ) ==> {
            let (old_p, new_p) = (s.projects[pid], s2.projects[pid]);
            &&& s2.projects.contains_key(pid)
            &&& (tittle matches Some(t) ==> new_p.tittle == t)
            &&& (tittle is None ==> new_p.tittle == old_p.tittle)
            &&& (description matches Some(d) ==> new_p.description == d)
            &&& (description is None ==> new_p.description == old_p.description)
            &&& (image matches Some(i) ==> new_p.image == i)
            &&& (image is None ==> new_p.image == old_p.image)
            &&& (creation_date matches Some(c) ==> new_p.creation_date == c)
            &&& (creation_date is None ==> new_p.creation_date == old_p.creation_date)
            &&& (completition_date matches Some(c) ==> new_p.completition_date == c)
            &&& (completition_date is None ==> new_p.completition_date == old_p.completition_date)
            &&& new_p.status == old_p.status
            &&& new_p.updated_date == old_p.updated_date
            &&& new_p.developer == old_p.developer && new_p.investor == old_p.investor
            &&& new_p.issuer == old_p.issuer && new_p.regional_center == old_p.regional_center
            &&& forall|q: Seq<u8>| q != pid ==> (#[trigger] s2.projects.contains_key(q)) == s.projects.contains_key(q)
                && (s.projects.contains_key(q) ==> s2.projects[q] == s.projects[q])
            &&& s2.users == s.users && same_assignments(s, s2)
            &&& s2.events == s.events.push(EventView::ProjectEdited(pid))
        },
{
}

/// Updating a user succeeds exactly when the caller is authorized and the user
/// is registered. Then each field given is stored as given (the documents as
/// `Some`), each field not given keeps its value, the role and registration
/// date stay, no other user, project or assignment changes, and the update is
/// recorded.
pub proof fn lemma_update_user_fields(
    s: ProxyState,
    authorized: bool,
    user: AccountId,
    name: Option<Seq<u8>>,
    image: Option<Seq<u8>>,
    email: Option<Seq<u8>>,
    documents: Option<Seq<u8>>,
)
    ensures
        update_user(s, authorized, user, name, image, email, documents) is Ok <==> (authorized
            && s.users.contains_key(user)),
        update_user(s, authorized, user, name, image, email, documents) matches Ok(s2) ==> {
            let (old_u, new_u) = (s.users[user], s2.users[user]);
            &&& s2.users.contains_key(user)
            &&& (name matches Some(n) ==> new_u.name == n)
            &&& (name is None ==> new_u.name == old_u.name)
            &&& (image matches Some(i) ==> new_u.image == i)
            &&& (image is None ==> new_u.image == old_u.image)
            &&& (email matches Some(e) ==> new_u.email == e)
            &&& (email is None ==> new_u.email == old_u.email)
            &&& (documents matches Some(d) ==> new_u.documents == Some(d))
            &&& (documents is None ==> new_u.documents == old_u.documents)
            &&& new_u.role == old_u.role && new_u.date_registered == old_u.date_registered
            &&& forall|v: AccountId| v != user ==> (#[trigger] s2.users.contains_key(v)) == s.users.contains_key(v)
                && (s.users.contains_key(v) ==> s2.users[v] == s.users[v])
            &&& s2.projects == s.projects && same_assignments(s, s2)
            &&& s2.events == s.events.push(EventView::UserUpdated(user))
        },
{
}

/// Creating a project succeeds exactly when the caller is authorized, the
/// completion date lies after `now` and no project has the title's id. Then
/// the project is stored under the digest of its encoded title with what was
/// given, started now, with empty role lists; nothing else of the registry
/// changes.
pub proof fn lemma_create_project_stores(
    s: ProxyState,
    admin: AccountId,
    authorized: bool,
    tittle: Seq<u8>,
    description: Seq<u8>,
    image: Seq<u8>,
    completition_date: u64,
    now: u64,
)
    ensures
        create_project(s, admin, authorized, tittle, description, image, completition_date, now) is Ok <==> (authorized
            && completition_date > now && !s.projects.contains_key(spec_project_id(tittle))),
        create_project(s, admin, authorized, tittle, description, image, completition_date, now) matches Ok(s2) ==> {
            let id = spec_project_id(tittle);
            let p = s2.projects[id];
            &&& s2.projects.contains_key(id)
            &&& p.tittle == tittle && p.description == description && p.image == image
            &&& p.status == ProjectStatus::Started
            &&& p.creation_date == now && p.updated_date == now && p.completition_date == completition_date
            &&& p.developer == Some(Seq::<AccountId>::empty()) && p.investor == Some(Seq::<AccountId>::empty())
            &&& p.issuer == Some(Seq::<AccountId>::empty()) && p.regional_center == Some(Seq::<AccountId>::empty())
            &&& forall|q: Seq<u8>| q != id ==> (#[trigger] s2.projects.contains_key(q)) == s.projects.contains_key(q)
                && (s.projects.contains_key(q) ==> s2.projects[q] == s.projects[q])
            &&& s2.users == s.users && same_assignments(s, s2)
            &&& s2.events == s.events.push(EventView::ProjectCreated(admin, id))
        },
{
}

/// Registering a user succeeds exactly when the caller is authorized and the
/// user is not registered yet. Then the user is stored with what was given,
/// registered now and without a role; nothing else of the registry changes.
pub proof fn lemma_register_user_stores(
    s: ProxyState,
    authorized: bool,
    user: AccountId,
    name: Seq<u8>,
    image: Seq<u8>,
    email: Seq<u8>,
    documents: Option<Seq<u8>>,
    now: u64,
)
    ensures
        register_user(s, authorized, user, name, image, email, documents, now) is Ok <==> (authorized
            && !s.users.contains_key(user)),
        register_user(s, authorized, user, name, image, email, documents, now) matches Ok(s2) ==> {
            let u = s2.users[user];
            &&& s2.users.contains_key(user)
            &&& u.name == name && u.image == image && u.email == email && u.documents == documents
            &&& u.role is None && u.date_registered == now
            &&& forall|v: AccountId| v != user ==> (#[trigger] s2.users.contains_key(v)) == s.users.contains_key(v)
                && (s.users.contains_key(v) ==> s2.users[v] == s.users[v])
            &&& s2.projects == s.projects && same_assignments(s, s2)
            &&& s2.events == s.events.push(EventView::UserAdded(user))
        },
{
}

/// Changing a project's status sets it and keeps the rest of the project and
/// of the registry; it fails only for a project that does not exist.
pub proof fn lemma_change_project_status_sets(s: ProxyState, pid: Seq<u8>, status: ProjectStatus)
    ensures
        change_project_status(s, pid, status) is Ok <==> s.projects.contains_key(pid),
        change_project_status(s, pid, status) matches Ok(s2) ==> {
            let (old_p, new_p) = (s.projects[pid], s2.projects[pid]);
            &&& s2.projects.contains_key(pid) && new_p.status == status
            &&& new_p.tittle == old_p.tittle && new_p.description == old_p.description && new_p.image == old_p.image
            &&& new_p.creation_date == old_p.creation_date && new_p.completition_date == old_p.completition_date
            &&& new_p.updated_date == old_p.updated_date && new_p.developer == old_p.developer
            &&& new_p.investor == old_p.investor && new_p.issuer == old_p.issuer
            &&& new_p.regional_center == old_p.regional_center
            &&& forall|q: Seq<u8>| q != pid ==> (#[trigger] s2.projects.contains_key(q)) == s.projects.contains_key(q)
                && (s.projects.contains_key(q) ==> s2.projects[q] == s.projects[q])
            &&& s2.users == s.users && same_assignments(s, s2) && s2.events == s.events
        },
{
}

/// A successful assignment needs an authorized caller, a registered user not
/// yet assigned to the project and without the role there, and a role other
/// than administrator. It appends the user to the project's users and the
/// project to the user's projects, and records the assignment. In the project,
/// only the list of the role can change: a missing list becomes the user alone,
/// a present one stays as it was (a regional center list must then hold someone
/// else, an investor or issuer list the user already).
pub proof fn lemma_assign_user_effects(
    s: ProxyState,
    authorized: bool,
    user: AccountId,
    pid: Id,
    role: ProxyRole,
    user_has_role: bool,
)
    ensures
        assign_user(s, authorized, user, pid, role, user_has_role) matches Ok(s2) ==> {
            let p = pid@;
            let (old_p, new_p) = (s.projects[p], s2.projects[p]);
            &&& authorized && s.users.contains_key(user) && !user_has_role && role != ProxyRole::Administrator
            &&& s.projects.contains_key(p) && old_p.status != ProjectStatus::Completed
            &&& !users_of(s, p).contains(user) && !has_id(projects_of(s, user), p)
            &&& users_of(s2, p) == users_of(s, p).push(user)
            &&& projects_of(s2, user) == projects_of(s, user).push(pid)
            &&& forall|q: Seq<u8>| q != p ==> #[trigger] users_of(s2, q) == users_of(s, q)
            &&& forall|v: AccountId| v != user ==> #[trigger] projects_of(s2, v) == projects_of(s, v)
            &&& new_p.tittle == old_p.tittle && new_p.description == old_p.description && new_p.image == old_p.image
            &&& new_p.status == old_p.status && new_p.creation_date == old_p.creation_date
            &&& new_p.completition_date == old_p.completition_date && new_p.updated_date == old_p.updated_date
            &&& role != ProxyRole::Developer ==> new_p.developer == old_p.developer
            &&& role != ProxyRole::Investor ==> new_p.investor == old_p.investor
            &&& role != ProxyRole::Issuer ==> new_p.issuer == old_p.issuer
            &&& role != ProxyRole::RegionalCenter ==> new_p.regional_center == old_p.regional_center
            &&& role == ProxyRole::Developer ==> new_p.developer == (match old_p.developer {
                Some(l) => Some(l),
                None => Some(seq![user]),
            })
            &&& role == ProxyRole::Investor ==> new_p.investor == (match old_p.investor {
                Some(l) => Some(l),
                None => Some(seq![user]),
            }) && (old_p.investor matches Some(l) ==> l.contains(user))
            &&& role == ProxyRole::Issuer ==> new_p.issuer == (match old_p.issuer {
                Some(l) => Some(l),
                None => Some(seq![user]),
            }) && (old_p.issuer matches Some(l) ==> l.contains(user))
            &&& role == ProxyRole::RegionalCenter ==> new_p.regional_center == (match old_p.regional_center {
                Some(l) => Some(l),
                None => Some(seq![user]),
            }) && (old_p.regional_center matches Some(l) ==> exists|i: int| 0 <= i < l.len() && l[i] != user)
            &&& s2.users == s.users
            &&& s2.events == s.events.push(EventView::UserAssignedToProject(user, p))
        },
{
}

/// A successful removal of an assignment takes the user out of the project's
/// users and the project out of the user's projects, keeps every other list,
/// the projects and the users, and records the removal.
pub proof fn lemma_unassign_user_effects(
    s: ProxyState,
    authorized: bool,
    user: AccountId,
    pid: Seq<u8>,
    user_has_role: bool,
)
    requires
        lists_without_duplicates(s),
    ensures
        unassign_user(s, authorized, user, pid, user_has_role) matches Ok(s2) ==> {
            &&& authorized && user_has_role && s.users.contains_key(user) && s.projects.contains_key(pid)
            &&& users_of(s, pid).contains(user) && !users_of(s2, pid).contains(user)
            &&& users_of(s2, pid).len() == users_of(s, pid).len() - 1
            &&& forall|v: AccountId| v != user ==> (#[trigger] users_of(s2, pid).contains(v) <==> users_of(s, pid).contains(v))
            &&& !has_id(projects_of(s2, user), pid)
            &&& forall|q: Seq<u8>| q != pid ==> (#[trigger] has_id(projects_of(s2, user), q) <==> has_id(projects_of(s, user), q))
            &&& forall|q: Seq<u8>| q != pid ==> #[trigger] users_of(s2, q) == users_of(s, q)
            &&& forall|v: AccountId| v != user ==> #[trigger] projects_of(s2, v) == projects_of(s, v)
            &&& s2.projects == s.projects && s2.users == s.users
            &&& s2.events == s.events.push(EventView::UserUnassignedFromProject(user, pid))
        },
{
    if let Ok(s2) = unassign_user(s, authorized, user, pid, user_has_role) {
        lemma_without_account_contains(users_of(s, pid), user, user);
        assert forall|v: AccountId| v != user implies (#[trigger] users_of(s2, pid).contains(v) <==> users_of(s, pid).contains(v)) by {
            lemma_without_account_contains(users_of(s, pid), user, v);
        }
        lemma_without_id_has(projects_of(s, user), pid, pid);
        assert forall|q: Seq<u8>| q != pid implies (#[trigger] has_id(projects_of(s2, user), q) <==> has_id(projects_of(s, user), q)) by {
            lemma_without_id_has(projects_of(s, user), pid, q);
        }
        lemma_without_account_once(users_of(s, pid), user);
    }
}

proof fn lemma_without_account_once(l: Seq<AccountId>, x: AccountId)
    requires
        l.no_duplicates(),
        l.contains(x),
    ensures
        without_account(l, x).len() == l.len() - 1,
    decreases l.len(),
{
    let d = l.drop_last();
    if l.last() == x {
        assert(!d.contains(x)) by {
            if d.contains(x) {
                let i = choose|i: int| 0 <= i < d.len() && d[i] == x;
                assert(l[i] == l[l.len() - 1]);
            }
        }
        lemma_without_account_absent(d, x);
    } else {
        assert(d.contains(x)) by {
            let i = choose|i: int| 0 <= i < l.len() && l[i] == x;
            assert(i != l.len() - 1);
            assert(d[i] == x);
        }
        assert(d.no_duplicates()) by {
            assert forall|i: int, j: int| 0 <= i < d.len() && 0 <= j < d.len() && i != j implies d[i] != d[j] by {
                assert(d[i] == l[i] && d[j] == l[j]);
            }
        }
        lemma_without_account_once(d, x);
    }
}

/// The administrator calls need the global scope; with it they only record
/// the change of administrator.
pub proof fn lemma_administrator_changes(s: ProxyState, admin: AccountId)
    ensures
        add_administrator(s, admin) is Ok <==> s.global_scope is Some,
        remove_administrator(s, admin) is Ok <==> s.global_scope is Some,
        add_administrator(s, admin) matches Ok(s2) ==> s2.events == s.events.push(EventView::AdministratorAssigned(admin))
            && s2.projects == s.projects && s2.users == s.users && same_assignments(s, s2)
            && s2.global_scope == s.global_scope,
        remove_administrator(s, admin) matches Ok(s2) ==> s2.events == s.events.push(
            EventView::AdministratorRemoved(admin),
        ) && s2.projects == s.projects && s2.users == s.users && same_assignments(s, s2) && s2.global_scope
            == s.global_scope,
        add_administrator(s, admin) is Err ==> add_administrator(s, admin) == Err::<ProxyState, Error>(Error::GlobalScopeNotSet),
{
}

/// The setup stores the digest of the encoded pallet id as the global scope,
/// records its completion and changes nothing else.
pub proof fn lemma_setup_effects(s: ProxyState, name: Seq<u8>)
    ensures
        initial_setup(s, name).global_scope == Some(spec_global_scope(name)),
        initial_setup(s, name).events == s.events.push(EventView::ProxySetupCompleted),
        initial_setup(s, name).projects == s.projects && initial_setup(s, name).users == s.users,
        same_assignments(s, initial_setup(s, name)),
{
}

/// Deleting a project needs an authorized caller and a project that exists
/// and is not completed. It removes the project and its users, takes it out of
/// every user's projects while keeping their other projects, keeps the users,
/// and records the deletion.
pub proof fn lemma_delete_project_effects(s: ProxyState, authorized: bool, pid: Seq<u8>)
    ensures
        delete_project(s, authorized, pid) is Ok <==> (authorized && s.projects.contains_key(pid)
            && s.projects[pid].status != ProjectStatus::Completed),
        delete_project(s, authorized, pid) matches Ok(s2) ==> {
            &&& !s2.projects.contains_key(pid) && users_of(s2, pid).len() == 0
            &&& forall|q: Seq<u8>| q != pid ==> (#[trigger] s2.projects.contains_key(q)) == s.projects.contains_key(q)
                && (s.projects.contains_key(q) ==> s2.projects[q] == s.projects[q])
            &&& forall|u: AccountId, q: Seq<u8>| #[trigger] has_id(projects_of(s2, u), q) <==> (has_id(projects_of(s, u), q)
                && !(users_of(s, pid).contains(u) && q == pid))
            &&& forall|q: Seq<u8>| q != pid ==> #[trigger] users_of(s2, q) == users_of(s, q)
            &&& s2.users == s.users
            &&& s2.events == s.events.push(EventView::ProjectDeleted(pid))
        },
{
    if let Ok(s2) = delete_project(s, authorized, pid) {
        assert forall|u: AccountId, q: Seq<u8>| #[trigger] has_id(projects_of(s2, u), q) <==> (has_id(projects_of(s, u), q)
            && !(users_of(s, pid).contains(u) && q == pid)) by {
            lemma_strip_project(s.projects_by_user, users_of(s, pid), pid, u, q);
            assert(projects_of(s2, u) == ids_at(strip_project(s.projects_by_user, users_of(s, pid), pid), u));
            assert(projects_of(s, u) == ids_at(s.projects_by_user, u));
        }
    }
}

/// Deleting a user needs an authorized caller and a registered user. It
/// removes the user and its projects, takes it out of every project's users
/// while keeping their other users, keeps the projects, and records the
/// deletion.
pub proof fn lemma_delete_user_effects(s: ProxyState, authorized: bool, user: AccountId)
    ensures
        delete_user(s, authorized, user) is Ok <==> (authorized && s.users.contains_key(user)),
        delete_user(s, authorized, user) matches Ok(s2) ==> {
            &&& !s2.users.contains_key(user) && projects_of(s2, user).len() == 0
            &&& forall|v: AccountId| v != user ==> (#[trigger] s2.users.contains_key(v)) == s.users.contains_key(v)
                && (s.users.contains_key(v) ==> s2.users[v] == s.users[v])
            &&& forall|q: Seq<u8>, v: AccountId| #[trigger] users_of(s2, q).contains(v) <==> (users_of(s, q).contains(v)
                && !(has_id(projects_of(s, user), q) && v == user))
            &&& forall|v: AccountId| v != user ==> #[trigger] projects_of(s2, v) == projects_of(s, v)
            &&& s2.projects == s.projects
            &&& s2.events == s.events.push(EventView::UserDeleted(user))
        },
{
    if let Ok(s2) = delete_user(s, authorized, user) {
        assert forall|q: Seq<u8>, v: AccountId| #[trigger] users_of(s2, q).contains(v) <==> (users_of(s, q).contains(v)
            && !(has_id(projects_of(s, user), q) && v == user)) by {
            lemma_strip_user(s.users_by_project, projects_of(s, user), user, q, v);
            assert(users_of(s2, q) == accounts_at(strip_user(s.users_by_project, projects_of(s, user), user), q));
            assert(users_of(s, q) == accounts_at(s.users_by_project, q));
        }
    }
}

} // verus!
