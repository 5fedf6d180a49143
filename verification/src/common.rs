//! Types shared by the pallets.

use vstd::prelude::*;

verus! {

/// Account identifiers.
pub type AccountId = u64;

/// 32-byte identifiers (record ids, project ids, scopes, roles).
pub type Id = [u8; 32];

/// The origin of a dispatched call.
#[derive(Clone, Copy, Debug, PartialEq, Eq, Structural)]
pub enum Origin {
    /// The root (sudo) origin.
    Root,
    /// A call signed by an account.
    Signed(AccountId),
    /// An unsigned call.
    Unsigned,
}

/// The account that signed the call, or `None` for a root or unsigned call.
pub fn ensure_signed(origin: Origin) -> (r: Option<AccountId>)
    ensures
        r == (match origin {
            Origin::Signed(who) => Some(who),
            _ => None::<AccountId>,
        }),
{
    match origin {
        Origin::Signed(who) => Some(who),
        _ => None,
    }
}

/// Whether the call comes from the root origin.
pub fn ensure_root(origin: Origin) -> (r: bool)
    ensures
        r == (origin == Origin::Root),
{
    match origin {
        Origin::Root => true,
        _ => false,
    }
}

/// Equality of two byte vectors.
pub fn bytes_eq(a: &Vec<u8>, b: &Vec<u8>) -> (r: bool)
    ensures
        r == (a@ == b@),
{
    if a.len() != b.len() {
        return false;
    }
    let mut i: usize = 0;
    while i < a.len()
        invariant
            0 <= i <= a@.len(),
            a@.len() == b@.len(),
            forall|j: int| 0 <= j < i ==> a@[j] == b@[j],
        decreases a@.len() - i,
    {
        if a[i] != b[i] {
            return false;
        }
        i = i + 1;
    }
    assert(a@ =~= b@);
    true
}

/// A copy of a byte vector.
pub fn bytes_copy(a: &Vec<u8>) -> (r: Vec<u8>)
    ensures
        r@ == a@,
{
    let mut r: Vec<u8> = Vec::new();
    let mut i: usize = 0;
    while i < a.len()
        invariant
            0 <= i <= a@.len(),
            r@ == a@.subrange(0, i as int),
        decreases a@.len() - i,
    {
        r.push(a[i]);
        i = i + 1;
        assert(r@ =~= a@.subrange(0, i as int));
    }
    assert(a@.subrange(0, a@.len() as int) =~= a@);
    r
}

/// How a call of `n` steps, run in order, goes given the outcomes of the steps
/// run so far: the number of steps started and how the call ended. The first
/// failing step ends the call with its error and no later step runs; the end is
/// `None` while a started step waits for its outcome. What a successful step
/// gave back (`T`) does not matter here.
pub open spec fn steps_end<T, E>(n: nat, outcomes: Seq<Result<T, E>>) -> (nat, Option<Result<(), E>>)
    decreases n,
{
    if n == 0 {
        (0, Some(Ok(())))
    } else if outcomes.len() == 0 {
        (1, None)
    } else {
        match outcomes[0] {
            Err(e) => (1, Some(Err(e))),
            Ok(_) => {
                let rest = steps_end::<T, E>((n - 1) as nat, outcomes.drop_first());
                (rest.0 + 1, rest.1)
            },
        }
    }
}

/// A call stops at its first failing step: it fails with that step's error
/// after every earlier step succeeded, it succeeds only once every step ran and
/// succeeded, and while it waits every step so far succeeded.
pub proof fn lemma_steps_stop_at_first_failure<T, E>(n: nat, outcomes: Seq<Result<T, E>>)
    ensures
        ({
            let (ran, end) = steps_end(n, outcomes);
            &&& ran <= n
            &&& end matches Some(Err(e)) ==> 1 <= ran <= outcomes.len() && outcomes[ran - 1]
                == Err::<T, E>(e) && forall|k: int| 0 <= k < ran - 1 ==> (#[trigger] outcomes[k]) is Ok
            &&& end == Some(Ok::<(), E>(())) ==> ran == n && n <= outcomes.len() && forall|k: int|
                0 <= k < n ==> (#[trigger] outcomes[k]) is Ok
            &&& end is None ==> ran == outcomes.len() + 1 && forall|k: int|
                0 <= k < outcomes.len() ==> (#[trigger] outcomes[k]) is Ok
        }),
    decreases n,
{
    if n > 0 && outcomes.len() > 0 {
        let rest = outcomes.drop_first();
        lemma_steps_stop_at_first_failure((n - 1) as nat, rest);
        assert forall|k: int| 0 < k < outcomes.len() implies outcomes[k] == rest[k - 1] by {}
    }
}

/// Runs `n` steps in order, given the outcomes of the steps run so far:
/// returns the number of steps started and how the run ended, as `steps_end`
/// says.
pub fn run_in_order<T, E: Copy>(n: usize, outcomes: &Vec<Result<T, E>>) -> (r: (usize, Option<Result<(), E>>))
    ensures
        r.0 == steps_end(n as nat, outcomes@).0,
        r.1 == steps_end(n as nat, outcomes@).1,
{
    proof {
        assert(outcomes@.subrange(0, outcomes@.len() as int) =~= outcomes@);
    }
    run_in_order_from(n, outcomes, 0)
}

/// Runs `n` steps in order, given the outcomes of the steps run so far, which
/// start at `outcomes[from]`.
pub fn run_in_order_from<T, E: Copy>(n: usize, outcomes: &Vec<Result<T, E>>, from: usize) -> (r: (
    usize,
    Option<Result<(), E>>,
))
    requires
        from <= outcomes@.len(),
    ensures
        r.0 == steps_end(n as nat, outcomes@.subrange(from as int, outcomes@.len() as int)).0,
        r.1 == steps_end(n as nat, outcomes@.subrange(from as int, outcomes@.len() as int)).1,
{
    let mut i: usize = 0;
    let ghost all = outcomes@.subrange(from as int, outcomes@.len() as int);
    proof {
        assert(all.subrange(0, all.len() as int) =~= all);
    }
    while i < n
        invariant
            from <= outcomes@.len(),
            all == outcomes@.subrange(from as int, outcomes@.len() as int),
            i <= n,
            i <= all.len(),
            steps_end(n as nat, all).0 == steps_end((n - i) as nat, all.subrange(i as int, all.len() as int)).0 + i,
            steps_end(n as nat, all).1 == steps_end((n - i) as nat, all.subrange(i as int, all.len() as int)).1,
        decreases n - i,
    {
        let ghost rest = all.subrange(i as int, all.len() as int);
        if i >= outcomes.len() - from {
            proof {
                assert(rest.len() == 0);
            }
            return (i + 1, None);
        }
        proof {
            assert(rest[0] == outcomes@[from + i]);
            assert(rest.drop_first() =~= all.subrange(i + 1, all.len() as int));
        }
        match &outcomes[from + i] {
            Err(e) => {
                return (i + 1, Some(Err(*e)));
            },
            Ok(_) => {},
        }
        i = i + 1;
    }
    (n, Some(Ok(())))
}

} // verus!
