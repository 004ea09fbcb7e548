use vstd::prelude::*;
use crate::error::AdminError;
use crate::manager::{add_admin_step, initialize_step, remove_admin_step};
use crate::principal::{well_formed, CallerView};
use crate::store::{admin_seq, is_admin_in, state_wf, RegistryState};

verus! {

/// The caller that acts for `p` after proving its identity.
pub open spec fn signed(p: Seq<char>) -> CallerView {
    CallerView { principal: p, authenticated: true }
}

/// A deployment before anything was written.
pub open spec fn fresh() -> RegistryState {
    RegistryState { initialized: false, admins: None }
}

/// Every operation keeps the registry's invariants: flag and registry
/// together, never empty, no principal twice.
pub proof fn lemma_steps_keep_wf(s: RegistryState, c: CallerView, p: Seq<char>)
    requires
        state_wf(s),
    ensures
        state_wf(initialize_step(s, p).0),
        state_wf(add_admin_step(s, c, p).0),
        state_wf(remove_admin_step(s, c, p).0),
{
    let a = admin_seq(s);
    if add_admin_step(s, c, p).1 is Ok {
        let b = a.push(p);
        assert forall|i: int, j: int| 0 <= i < b.len() && 0 <= j < b.len() && i != j implies b[i]
            != b[j] by {
            if i == a.len() as int {
                assert(a[j] == b[j]);
            } else if j == a.len() as int {
                assert(a[i] == b[i]);
            }
        }
    }
    if remove_admin_step(s, c, p).1 is Ok {
        a.index_of_first_ensures(p);
        let k = a.index_of_first(p).unwrap();
        let b = a.remove(k);
        assert forall|x: int, y: int| 0 <= x < b.len() && 0 <= y < b.len() && x != y implies b[x]
            != b[y] by {
            let xo = if x < k { x } else { x + 1 };
            let yo = if y < k { y } else { y + 1 };
            assert(b[x] == a[xo]);
            assert(b[y] == a[yo]);
        }
    }
}

/// Bootstrapping a fresh deployment succeeds and makes the bootstrap
/// principal an administrator; any second bootstrap then fails with
/// `AlreadyInitialized` and leaves the registry as it was.
pub proof fn lemma_bootstrap(a: Seq<char>, b: Seq<char>)
    ensures
        initialize_step(fresh(), a).1 == Ok::<(), AdminError>(()),
        is_admin_in(initialize_step(fresh(), a).0, a),
        initialize_step(initialize_step(fresh(), a).0, b) == (
            initialize_step(fresh(), a).0,
            Err::<(), AdminError>(AdminError::AlreadyInitialized),
        ),
{
    assert(seq![a][0] == a);
}

/// A caller that is not an administrator can neither add nor remove anyone,
/// and its attempts leave the registry unchanged.
pub proof fn lemma_authorization_gate(s: RegistryState, u: CallerView, x: Seq<char>)
    requires
        !is_admin_in(s, u.principal),
    ensures
        add_admin_step(s, u, x) == (s, Err::<(), AdminError>(AdminError::Unauthorized)),
        remove_admin_step(s, u, x) == (s, Err::<(), AdminError>(AdminError::Unauthorized)),
{
}

/// After bootstrapping with `a` and adding `b`, adding `b` again fails with
/// `AlreadyAdmin` and the registry keeps its two members.
pub proof fn lemma_no_duplicates(a: Seq<char>, b: Seq<char>)
    requires
        well_formed(b),
        b != a,
    ensures
        ({
            let s1 = initialize_step(fresh(), a).0;
            let s2 = add_admin_step(s1, signed(a), b).0;
            &&& add_admin_step(s2, signed(a), b) == (s2, Err::<(), AdminError>(
                AdminError::AlreadyAdmin,
            ))
            &&& admin_seq(s2).len() == 2
        }),
{
    let s1 = initialize_step(fresh(), a).0;
    assert(seq![a][0] == a);
    assert(!seq![a].contains(b));
    let s2 = add_admin_step(s1, signed(a), b).0;
    assert(admin_seq(s2)[0] == a);
    assert(admin_seq(s2)[1] == b);
}

/// The sole administrator cannot remove itself: the call fails with
/// `LastAdminRemoval` and it stays an administrator.
pub proof fn lemma_last_admin_kept(a: Seq<char>)
    ensures
        ({
            let s1 = initialize_step(fresh(), a).0;
            &&& remove_admin_step(s1, signed(a), a) == (s1, Err::<(), AdminError>(
                AdminError::LastAdminRemoval,
            ))
            &&& is_admin_in(s1, a)
        }),
{
    assert(seq![a][0] == a);
}

/// After bootstrapping with `a` and adding `b`, removing `b` succeeds, `b` is
/// no longer an administrator and one administrator remains.
pub proof fn lemma_removal(a: Seq<char>, b: Seq<char>)
    requires
        well_formed(b),
        b != a,
    ensures
        ({
            let s1 = initialize_step(fresh(), a).0;
            let s2 = add_admin_step(s1, signed(a), b).0;
            let s3 = remove_admin_step(s2, signed(a), b).0;
            &&& remove_admin_step(s2, signed(a), b).1 == Ok::<(), AdminError>(())
            &&& !is_admin_in(s3, b)
            &&& s3.admins is Some
            &&& admin_seq(s3).len() == 1
        }),
{
    let s1 = initialize_step(fresh(), a).0;
    assert(seq![a][0] == a);
    assert(!seq![a].contains(b));
    let s2 = add_admin_step(s1, signed(a), b).0;
    let l = admin_seq(s2);
    assert(l[0] == a);
    assert(l[1] == b);
    assert(l.contains(b));
    l.index_of_first_ensures(b);
    let k = l.index_of_first(b).unwrap();
    assert(k == 1);
    let s3 = remove_admin_step(s2, signed(a), b).0;
    assert(admin_seq(s3) =~= seq![a]);
}

/// In every reachable state the count and the listing agree, and everyone
/// listed is an administrator.
pub proof fn lemma_listing_consistent(s: RegistryState)
    requires
        state_wf(s),
        s.initialized,
    ensures
        s.admins == Some(admin_seq(s)),
        forall|i: int| 0 <= i < admin_seq(s).len() ==> is_admin_in(s, #[trigger] admin_seq(s)[i]),
{
}

} // verus!
