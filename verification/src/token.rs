//! The cached access token and the rule that says how long it may be used.
//!
//! Time is what the caller reads off a monotonic clock: a `u64` count of
//! nanoseconds since an origin of the caller's choosing. The instant at which a
//! token expires is such a reading plus the token's lifetime, and is kept in a
//! `u128`, in which that sum always fits.

use vstd::prelude::*;

verus! {

/// The margin, in seconds, by which a token has to outlive the moment it is
/// asked for. A token closer to its expiry than this is fetched anew, so that
/// none runs out while the request that carries it is under way.
pub const EXPIRY_BUFFER_SECS: u64 = 300;

/// Nanoseconds in a second.
pub const NANOS_PER_SEC: u64 = 1_000_000_000;

/// The instant at which a token expires that was received at `now` with a
/// lifetime of `expires_in` seconds.
pub open spec fn expiry(now: u64, expires_in: u64) -> nat {
    (now + expires_in * NANOS_PER_SEC) as nat
}

/// Whether a token that expires at `expires_at` may still be handed out at
/// `now`: whether it expires later than the buffer after `now`.
pub open spec fn fresh_at(expires_at: nat, now: u64) -> bool {
    expires_at > now + EXPIRY_BUFFER_SECS * NANOS_PER_SEC
}

/// What a token state holds: the token and the instant of its expiry.
pub ghost struct TokenStateView {
    pub access_token: Seq<char>,
    pub expires_at: nat,
}

/// The states of a token cache, as seen at one instant.
pub ghost enum CacheState {
    /// No token is held.
    Empty,
    /// A token is held that may be handed out.
    Valid,
    /// A token is held that has expired or is about to.
    StaleOrExpiring,
}

/// The state that a cache holding `token` is in at `now`.
pub open spec fn cache_state(token: Option<TokenStateView>, now: u64) -> CacheState {
    match token {
        None => CacheState::Empty,
        Some(state) => if fresh_at(state.expires_at, now) {
            CacheState::Valid
        } else {
            CacheState::StaleOrExpiring
        },
    }
}

/// The token that a cache holding `token` hands out at `now` without a
/// refresh, if it hands out any.
pub open spec fn usable_token(token: Option<TokenStateView>, now: u64) -> Option<Seq<char>> {
    match token {
        Some(state) if fresh_at(state.expires_at, now) => Some(state.access_token),
        _ => None,
    }
}

/// What a cache holds after one refresh: the token that the refresh
/// brought, if it brought one, and else what the cache held before.
pub open spec fn after_refresh(
    held: Option<TokenStateView>,
    granted: Option<TokenStateView>,
) -> Option<TokenStateView> {
    match granted {
        Some(state) => Some(state),
        None => held,
    }
}

/// What a cache holds after a series of refreshes, applied in the order in
/// which they completed.
pub open spec fn after_refreshes(
    held: Option<TokenStateView>,
    granted: Seq<Option<TokenStateView>>,
) -> Option<TokenStateView>
    decreases granted.len(),
{
    if granted.len() == 0 {
        held
    } else {
        after_refresh(after_refreshes(held, granted.drop_last()), granted.last())
    }
}

/// OAuth token state.
pub struct TokenState {
    access_token: String,
    expires_at: u128,
}

impl View for TokenState {
    type V = TokenStateView;

    closed spec fn view(&self) -> TokenStateView {
        TokenStateView { access_token: self.access_token@, expires_at: self.expires_at as nat }
    }
}

impl TokenState {
    /// The state for a token received at `now` that lives `expires_in` seconds.
    pub fn issued(access_token: String, expires_in: u64, now: u64) -> (state: TokenState)
        ensures
            state@ == (TokenStateView {
                access_token: access_token@,
                expires_at: expiry(now, expires_in),
            }),
    {
        assert(expires_in * NANOS_PER_SEC <= u64::MAX * NANOS_PER_SEC) by (nonlinear_arith)
            requires
                expires_in <= u64::MAX,
        ;
        let lifetime: u128 = (expires_in as u128) * (NANOS_PER_SEC as u128);
        TokenState { access_token, expires_at: now as u128 + lifetime }
    }

    /// The access token.
    pub fn access_token(&self) -> (token: &str)
        ensures
            token@ == self@.access_token,
    {
        self.access_token.as_str()
    }

    /// The instant at which the token expires.
    pub fn expires_at(&self) -> (instant: u128)
        ensures
            instant == self@.expires_at,
    {
        self.expires_at
    }

    /// Whether the token may still be handed out at `now`.
    pub fn is_fresh(&self, now: u64) -> (fresh: bool)
        ensures
            fresh == fresh_at(self@.expires_at, now),
    {
        let buffer: u128 = (EXPIRY_BUFFER_SECS as u128) * (NANOS_PER_SEC as u128);
        assert(buffer == EXPIRY_BUFFER_SECS * NANOS_PER_SEC);
        self.expires_at > now as u128 + buffer
    }
}

/// A token that may not be handed out at one instant may not be handed out at
/// any later one: to the cache, time only makes a token worse.
pub proof fn lemma_freshness_wears_off(expires_at: nat, earlier: u64, later: u64)
    requires
        earlier <= later,
    ensures
        fresh_at(expires_at, later) ==> fresh_at(expires_at, earlier),
        !fresh_at(expires_at, earlier) ==> !fresh_at(expires_at, later),
{
}

/// A token is fresh at the instant it was received exactly if it lives
/// longer than the expiry buffer.
pub proof fn lemma_issued_token_fresh(now: u64, expires_in: u64)
    ensures
        fresh_at(expiry(now, expires_in), now) <==> expires_in > EXPIRY_BUFFER_SECS,
{
    assert(expires_in > EXPIRY_BUFFER_SECS <==> expires_in * NANOS_PER_SEC > EXPIRY_BUFFER_SECS
        * NANOS_PER_SEC) by (nonlinear_arith);
}

/// A token is fresh at `now` exactly if more than the buffer's length of time
/// is left until it expires.
pub proof fn lemma_fresh_iff_time_left(expires_at: nat, now: u64)
    ensures
        fresh_at(expires_at, now) <==> expires_at - now > 300_000_000_000,
{
}

/// A cache hands out a token without a refresh exactly in the state `Valid`,
/// and then it is the token it holds.
pub proof fn lemma_usable_iff_valid(token: Option<TokenStateView>, now: u64)
    ensures
        usable_token(token, now) is Some <==> cache_state(token, now) == CacheState::Valid,
        usable_token(token, now) matches Some(access_token) ==> token matches Some(state)
            && state.access_token == access_token,
{
}

/// As time passes, a cache that holds nothing stays `Empty`, and one that
/// holds a token goes from `Valid` to `StaleOrExpiring` and never back.
pub proof fn lemma_state_over_time(token: Option<TokenStateView>, earlier: u64, later: u64)
    requires
        earlier <= later,
    ensures
        cache_state(token, earlier) == CacheState::Empty <==> cache_state(token, later)
            == CacheState::Empty,
        cache_state(token, earlier) == CacheState::StaleOrExpiring ==> cache_state(token, later)
            == CacheState::StaleOrExpiring,
        cache_state(token, later) == CacheState::Valid ==> cache_state(token, earlier)
            == CacheState::Valid,
{
}

/// A refresh that brings a token living longer than the expiry buffer leaves
/// the cache `Valid`, whatever it held before: asked at the same instant, it
/// hands out the new token.
pub proof fn lemma_refresh_makes_valid(
    held: Option<TokenStateView>,
    access_token: Seq<char>,
    expires_in: u64,
    now: u64,
)
    requires
        expires_in > EXPIRY_BUFFER_SECS,
    ensures
        usable_token(
            after_refresh(
                held,
                Some(TokenStateView { access_token, expires_at: expiry(now, expires_in) }),
            ),
            now,
        ) == Some(access_token),
{
    lemma_issued_token_fresh(now, expires_in);
}

/// A refresh that fails leaves no token to hand out: if the cache had none to
/// hand out when the refresh began, it has none at any later instant after the
/// refresh has failed.
pub proof fn lemma_failed_refresh_leaves_none(
    held: Option<TokenStateView>,
    begun: u64,
    later: u64,
)
    requires
        begun <= later,
        usable_token(held, begun) is None,
    ensures
        usable_token(after_refresh(held, None), later) is None,
{
}

/// After any series of refreshes the cache holds one whole token state: the
/// one of the last refresh that brought a token, or, if none did, what it held
/// at the start. Nothing is ever put together from two of them.
pub proof fn lemma_last_grant_stays(
    held: Option<TokenStateView>,
    granted: Seq<Option<TokenStateView>>,
)
    ensures
        (forall|i: int| 0 <= i < granted.len() ==> granted[i] is None) ==> after_refreshes(
            held,
            granted,
        ) == held,
        forall|i: int|
            0 <= i < granted.len() && granted[i] is Some && (forall|j: int|
                i < j < granted.len() ==> granted[j] is None) ==> after_refreshes(held, granted)
                == granted[i],
    decreases granted.len(),
{
    if granted.len() > 0 {
        let earlier = granted.drop_last();
        lemma_last_grant_stays(held, earlier);
        assert forall|i: int|
            0 <= i < granted.len() && granted[i] is Some && (forall|j: int|
                i < j < granted.len() ==> granted[j] is None) implies after_refreshes(
            held,
            granted,
        ) == granted[i] by {
            if i < granted.len() - 1 {
                assert(granted.last() is None);
                assert(earlier[i] == granted[i]);
                assert forall|j: int| i < j < earlier.len() implies earlier[j] is None by {
                    assert(earlier[j] == granted[j]);
                }
            }
        }
        if forall|i: int| 0 <= i < granted.len() ==> granted[i] is None {
            assert forall|i: int| 0 <= i < earlier.len() implies earlier[i] is None by {
                assert(earlier[i] == granted[i]);
            }
        }
    }
}

} // verus!
