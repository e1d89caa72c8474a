//! Refreshing the account data from the server. A refresh covers a scope; at
//! most one refresh of a scope runs at a time, and requests that come while it
//! runs are folded into one more run after it.

use vstd::prelude::*;

use crate::models::UserData;
use crate::projections::FriendProjections;

verus! {

/// What a refresh covers.
#[derive(Debug, Clone, Copy, PartialEq, Eq, Hash, Structural)]
pub enum AppDataRefreshScope {
    All,
    User,
    Friends,
    Dolls,
}

/// A part of the account data fetched from the server.
#[derive(Debug, Clone, Copy, PartialEq, Eq, Structural)]
pub enum AppDataPart {
    User,
    Friends,
    Dolls,
}

/// The parts a refresh of a scope fetches, in the order they are fetched.
pub open spec fn parts_of(scope: AppDataRefreshScope) -> Seq<AppDataPart> {
    match scope {
        AppDataRefreshScope::All => seq![AppDataPart::User, AppDataPart::Friends, AppDataPart::Dolls],
        AppDataRefreshScope::User => seq![AppDataPart::User],
        AppDataRefreshScope::Friends => seq![AppDataPart::Friends],
        AppDataRefreshScope::Dolls => seq![AppDataPart::Dolls],
    }
}

/// The parts a refresh of `scope` fetches: the profile, then the friend list,
/// then the dolls, each only if the scope covers it.
pub fn refresh_parts(scope: AppDataRefreshScope) -> (res: Vec<AppDataPart>)
    ensures
        res@ == parts_of(scope),
{
    let mut parts: Vec<AppDataPart> = Vec::new();
    if matches!(scope, AppDataRefreshScope::All | AppDataRefreshScope::User) {
        parts.push(AppDataPart::User);
    }
    if matches!(scope, AppDataRefreshScope::All | AppDataRefreshScope::Friends) {
        parts.push(AppDataPart::Friends);
    }
    if matches!(scope, AppDataRefreshScope::All | AppDataRefreshScope::Dolls) {
        parts.push(AppDataPart::Dolls);
    }
    assert(parts@ =~= parts_of(scope));
    parts
}

/// Whether a refresh of the scope changes what the user's active doll sprite
/// depends on (the profile or the dolls), so that the sprite is sent again.
pub fn refreshes_active_doll_sprite(scope: AppDataRefreshScope) -> (res: bool)
    ensures
        res == (parts_of(scope).contains(AppDataPart::User) || parts_of(scope).contains(
            AppDataPart::Dolls,
        )),
{
    proof {
        assert(parts_of(scope).contains(AppDataPart::User) <==> (scope == AppDataRefreshScope::All
            || scope == AppDataRefreshScope::User)) by {
            if scope == AppDataRefreshScope::All {
                assert(parts_of(scope)[0] == AppDataPart::User);
            }
            if scope == AppDataRefreshScope::User {
                assert(parts_of(scope)[0] == AppDataPart::User);
            }
        }
        assert(parts_of(scope).contains(AppDataPart::Dolls) <==> (scope == AppDataRefreshScope::All
            || scope == AppDataRefreshScope::Dolls)) by {
            if scope == AppDataRefreshScope::All {
                assert(parts_of(scope)[2] == AppDataPart::Dolls);
            }
            if scope == AppDataRefreshScope::Dolls {
                assert(parts_of(scope)[0] == AppDataPart::Dolls);
            }
        }
    }
    matches!(
        scope,
        AppDataRefreshScope::All | AppDataRefreshScope::User | AppDataRefreshScope::Dolls
    )
}

/// The title of the dialog shown when a fetch fails.
pub const REFRESH_ERROR_TITLE: &'static str = "Network Error";

/// The message of the dialog shown when fetching a part fails.
pub fn refresh_error_message(part: AppDataPart) -> (res: &'static str)
    ensures
        res@ == (match part {
            AppDataPart::User => "Failed to fetch user profile. You may be offline."@,
            AppDataPart::Friends => "Failed to fetch friends list. You may be offline."@,
            AppDataPart::Dolls => "Failed to fetch dolls list. You may be offline."@,
        }),
{
    match part {
        AppDataPart::User => "Failed to fetch user profile. You may be offline.",
        AppDataPart::Friends => "Failed to fetch friends list. You may be offline.",
        AppDataPart::Dolls => "Failed to fetch dolls list. You may be offline.",
    }
}

/// What a refresh run does next.
#[derive(Debug, Clone, Copy, PartialEq, Eq, Structural)]
pub enum RefreshAction {
    /// Fetch this part and store it.
    Fetch(AppDataPart),
    /// Show the error dialog for this part (`REFRESH_ERROR_TITLE`,
    /// `refresh_error_message`); the run ends without sending anything.
    ReportFailure(AppDataPart),
    /// Send the refreshed data to the windows, with the user's active doll
    /// sprite when the flag is set; the run ends.
    EmitRefreshed(bool),
}

/// The next step of a refresh run of `scope` once its first `fetched` parts
/// were fetched and stored: a fetch that just failed ends the run with its
/// error (later parts are not fetched); otherwise the next part is fetched,
/// and after the last one the refreshed data is sent.
pub open spec fn refresh_action_spec(scope: AppDataRefreshScope, fetched: nat, failed: bool) -> RefreshAction {
    if failed {
        RefreshAction::ReportFailure(parts_of(scope)[fetched as int])
    } else if fetched < parts_of(scope).len() {
        RefreshAction::Fetch(parts_of(scope)[fetched as int])
    } else {
        RefreshAction::EmitRefreshed(
            parts_of(scope).contains(AppDataPart::User) || parts_of(scope).contains(AppDataPart::Dolls),
        )
    }
}

/// Decides the next step of a refresh run of `scope`: `fetched` parts were
/// fetched and stored, and `failed` tells whether the fetch of the part after
/// them just failed.
pub fn next_refresh_action(scope: AppDataRefreshScope, fetched: usize, failed: bool) -> (res: RefreshAction)
    requires
        fetched <= parts_of(scope).len(),
        failed ==> fetched < parts_of(scope).len(),
    ensures
        res == refresh_action_spec(scope, fetched as nat, failed),
{
    let parts = refresh_parts(scope);
    if failed {
        RefreshAction::ReportFailure(parts[fetched])
    } else if fetched < parts.len() {
        RefreshAction::Fetch(parts[fetched])
    } else {
        RefreshAction::EmitRefreshed(refreshes_active_doll_sprite(scope))
    }
}

/// A set of scopes.
#[derive(Debug, Clone, Copy, PartialEq, Eq, Structural)]
pub struct ScopeSet {
    all: bool,
    user: bool,
    friends: bool,
    dolls: bool,
}

/// Whether the set holds the scope.
pub closed spec fn scope_flag(s: ScopeSet, scope: AppDataRefreshScope) -> bool {
    match scope {
        AppDataRefreshScope::All => s.all,
        AppDataRefreshScope::User => s.user,
        AppDataRefreshScope::Friends => s.friends,
        AppDataRefreshScope::Dolls => s.dolls,
    }
}

impl View for ScopeSet {
    type V = Set<AppDataRefreshScope>;

    open spec fn view(&self) -> Set<AppDataRefreshScope> {
        Set::new(|scope: AppDataRefreshScope| scope_flag(*self, scope))
    }
}

impl ScopeSet {
    /// The empty set.
    pub fn new() -> (res: Self)
        ensures
            res@ == Set::<AppDataRefreshScope>::empty(),
    {
        let res = ScopeSet { all: false, user: false, friends: false, dolls: false };
        assert(res@ =~= Set::<AppDataRefreshScope>::empty());
        res
    }

    /// Whether the scope is in the set.
    pub fn contains(&self, scope: AppDataRefreshScope) -> (res: bool)
        ensures
            res == self@.contains(scope),
    {
        match scope {
            AppDataRefreshScope::All => self.all,
            AppDataRefreshScope::User => self.user,
            AppDataRefreshScope::Friends => self.friends,
            AppDataRefreshScope::Dolls => self.dolls,
        }
    }

    fn set(&mut self, scope: AppDataRefreshScope, value: bool)
        ensures
            final(self)@ == if value {
                old(self)@.insert(scope)
            } else {
                old(self)@.remove(scope)
            },
    {
        match scope {
            AppDataRefreshScope::All => self.all = value,
            AppDataRefreshScope::User => self.user = value,
            AppDataRefreshScope::Friends => self.friends = value,
            AppDataRefreshScope::Dolls => self.dolls = value,
        }
        if value {
            assert(self@ =~= old(self)@.insert(scope));
        } else {
            assert(self@ =~= old(self)@.remove(scope));
        }
    }

    /// Adds the scope.
    pub fn insert(&mut self, scope: AppDataRefreshScope)
        ensures
            final(self)@ == old(self)@.insert(scope),
    {
        self.set(scope, true);
    }

    /// Removes the scope; says whether it was there.
    pub fn remove(&mut self, scope: AppDataRefreshScope) -> (res: bool)
        ensures
            final(self)@ == old(self)@.remove(scope),
            res == old(self)@.contains(scope),
    {
        let was = self.contains(scope);
        self.set(scope, false);
        was
    }
}

/// The refreshes under way (`in_flight`) and the scopes asked for again while
/// their refresh runs (`pending`).
pub struct RefreshState {
    pub in_flight: Set<AppDataRefreshScope>,
    pub pending: Set<AppDataRefreshScope>,
}

/// A scope is pending only while a refresh of it runs.
pub open spec fn pending_only_in_flight(s: RefreshState) -> bool {
    s.pending.subset_of(s.in_flight)
}

/// Asking for a refresh of `scope`: it starts (`true`) unless one runs; then
/// the scope is marked pending instead.
pub open spec fn begin_spec(s: RefreshState, scope: AppDataRefreshScope) -> (RefreshState, bool) {
    if s.in_flight.contains(scope) {
        (RefreshState { in_flight: s.in_flight, pending: s.pending.insert(scope) }, false)
    } else {
        (RefreshState { in_flight: s.in_flight.insert(scope), pending: s.pending }, true)
    }
}

/// A refresh of `scope` ended: it is no longer under way, and it runs again
/// (`true`) if it was asked for meanwhile.
pub open spec fn finish_spec(s: RefreshState, scope: AppDataRefreshScope) -> (RefreshState, bool) {
    (
        RefreshState { in_flight: s.in_flight.remove(scope), pending: s.pending.remove(scope) },
        s.pending.contains(scope),
    )
}

/// Which refreshes run and which are asked for again.
pub struct RefreshRegistry {
    in_flight: ScopeSet,
    pending: ScopeSet,
}

impl View for RefreshRegistry {
    type V = RefreshState;

    closed spec fn view(&self) -> RefreshState {
        RefreshState { in_flight: self.in_flight@, pending: self.pending@ }
    }
}

impl RefreshRegistry {
    #[verifier::type_invariant]
    closed spec fn wf(&self) -> bool {
        pending_only_in_flight(self@)
    }

    /// No refresh under way.
    pub fn new() -> (res: Self)
        ensures
            res@.in_flight == Set::<AppDataRefreshScope>::empty(),
            res@.pending == Set::<AppDataRefreshScope>::empty(),
    {
        RefreshRegistry { in_flight: ScopeSet::new(), pending: ScopeSet::new() }
    }

    /// Asks for a refresh of `scope`: `true` when it is to run now; `false`
    /// when one is already under way, which is then to run once more after it.
    pub fn begin(&mut self, scope: AppDataRefreshScope) -> (start: bool)
        ensures
            (final(self)@, start) == begin_spec(old(self)@, scope),
            pending_only_in_flight(final(self)@),
    {
        proof {
            use_type_invariant(&*self);
        }
        if self.in_flight.contains(scope) {
            let mut pending = self.pending;
            pending.insert(scope);
            self.pending = pending;
            false
        } else {
            let mut in_flight = self.in_flight;
            in_flight.insert(scope);
            self.in_flight = in_flight;
            true
        }
    }

    /// A refresh of `scope` ended: `true` when it is to run once more.
    pub fn finish(&mut self, scope: AppDataRefreshScope) -> (rerun: bool)
        ensures
            (final(self)@, rerun) == finish_spec(old(self)@, scope),
            pending_only_in_flight(final(self)@),
    {
        proof {
            use_type_invariant(&*self);
        }
        let mut in_flight = self.in_flight;
        let mut pending = self.pending;
        in_flight.remove(scope);
        let rerun = pending.remove(scope);
        *self = RefreshRegistry { in_flight, pending };
        rerun
    }

    /// Whether a refresh of `scope` is under way.
    pub fn is_in_flight(&self, scope: AppDataRefreshScope) -> (res: bool)
        ensures
            res == self@.in_flight.contains(scope),
    {
        self.in_flight.contains(scope)
    }
}

/// Asking again while a refresh runs changes nothing more: the requests fold
/// into one.
pub proof fn lemma_requests_fold(s: RefreshState, scope: AppDataRefreshScope)
    requires
        s.in_flight.contains(scope),
    ensures
        begin_spec(s, scope).1 == false,
        begin_spec(begin_spec(s, scope).0, scope) == begin_spec(s, scope),
{
    assert(s.pending.insert(scope).insert(scope) =~= s.pending.insert(scope));
}

/// A refresh asked for while one of the same scope runs leads to exactly one
/// more run: the running one ends with a rerun, the rerun starts, and when it
/// ends with no new request nothing more runs and nothing of the scope is left
/// behind.
pub proof fn lemma_one_more_run(s: RefreshState, scope: AppDataRefreshScope)
    requires
        pending_only_in_flight(s),
        s.in_flight.contains(scope),
    ensures
        ({
            let asked = begin_spec(s, scope).0;
            let ended = finish_spec(asked, scope);
            let restarted = begin_spec(ended.0, scope);
            let done = finish_spec(restarted.0, scope);
            &&& ended.1
            &&& restarted.1
            &&& !done.1
            &&& !done.0.in_flight.contains(scope)
            &&& !done.0.pending.contains(scope)
        }),
{
}

/// A refresh asked for while none of its scope runs starts, and ends without
/// a rerun when nothing was asked for meanwhile, leaving the state as it was.
pub proof fn lemma_single_run(s: RefreshState, scope: AppDataRefreshScope)
    requires
        pending_only_in_flight(s),
        !s.in_flight.contains(scope),
    ensures
        begin_spec(s, scope).1,
        !finish_spec(begin_spec(s, scope).0, scope).1,
        finish_spec(begin_spec(s, scope).0, scope).0 == s,
{
    assert(!s.pending.contains(scope));
    assert(s.in_flight.insert(scope).remove(scope) =~= s.in_flight);
    assert(s.pending.remove(scope) =~= s.pending);
}

/// Refreshes of different scopes do not affect each other.
pub proof fn lemma_scopes_independent(
    s: RefreshState,
    scope: AppDataRefreshScope,
    other: AppDataRefreshScope,
)
    requires
        scope != other,
    ensures
        begin_spec(s, scope).0.in_flight.contains(other) == s.in_flight.contains(other),
        begin_spec(s, scope).0.pending.contains(other) == s.pending.contains(other),
        finish_spec(s, scope).0.in_flight.contains(other) == s.in_flight.contains(other),
        finish_spec(s, scope).0.pending.contains(other) == s.pending.contains(other),
{
}

/// Forgets the account data and the friend projections (on sign-out).
pub fn clear_app_data<P: Copy>(data: &mut UserData, friends: &mut FriendProjections<P>)
    ensures
        final(data).user is None,
        final(data).friends is None,
        final(data).dolls is None,
        final(friends).sprites@ == Map::<Seq<char>, Seq<char>>::empty(),
        final(friends).nekos@.self_cursor is None,
        final(friends).nekos@.active_dolls == Map::<Seq<char>, bool>::empty(),
        final(friends).nekos@.friend_cursors == Map::<Seq<char>, P>::empty(),
{
    data.dolls = None;
    data.user = None;
    data.friends = None;
    friends.clear();
}

} // verus!
