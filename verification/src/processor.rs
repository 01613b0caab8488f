//! The admission and visibility policy.
//!
//! Every inbound message is evaluated against the connection's bound scope
//! and the static configuration: the tenant allow-list, the authentication
//! gates, the per-connection rate limit, the strict-subdomain switch, and the
//! message's own declared location. The outcome is either a store directive
//! naming the target scope, or a rejection carrying a distinguishable kind
//! and a human-readable reason. On the read side, the same allow-list and
//! authentication gates decide visibility and query admissibility.

use vstd::prelude::*;

use crate::config::RelayConfig;
use crate::decimal::{dec_rep, u32_to_string};
use crate::geohash_utils::{
    extract_geohash_tags, extracted_geohashes, is_geohash_subdomain, strict_valid_geohash,
};
use crate::scope::Scope;

verus! {

/// Length of the rate-limit window, in seconds.
pub const RATE_WINDOW_SECS: u64 = 60;

/// Per-connection rate-limit counters: how many events arrived in the
/// current window, and when the window began (in seconds).
#[derive(Clone, Copy, Debug, PartialEq, Eq, Structural)]
pub struct RateLimitInfo {
    pub events_received: u32,
    pub window_start: u64,
}

impl RateLimitInfo {
    /// Fresh counters for a window beginning at `now`.
    pub fn new(now: u64) -> (info: RateLimitInfo)
        ensures
            info.events_received == 0,
            info.window_start == now,
    {
        RateLimitInfo { events_received: 0, window_start: now }
    }
}

/// Per-connection state: the scope bound at connect time (immutable for the
/// connection's lifetime), the optional authenticated identity, a cumulative
/// counter of accepted events, and the rate-limit counters.
#[derive(Debug)]
pub struct ConnectionState {
    pub scope: Scope,
    pub authed_pubkey: Option<String>,
    pub events_sent: u64,
    pub rate_limit_info: RateLimitInfo,
}

impl ConnectionState {
    /// State for a connection accepted at time `now`, bound to `scope`, with
    /// `authed_pubkey` as its authenticated identity if any.
    pub fn new(scope: Scope, authed_pubkey: Option<String>, now: u64) -> (st: ConnectionState)
        ensures
            st.scope == scope,
            st.authed_pubkey == authed_pubkey,
            st.events_sent == 0,
            st.rate_limit_info == (RateLimitInfo { events_received: 0, window_start: now }),
    {
        ConnectionState {
            scope,
            authed_pubkey,
            events_sent: 0,
            rate_limit_info: RateLimitInfo::new(now),
        }
    }
}

/// An inbound message as this policy sees it: an identity, an author, and an
/// ordered list of generic tags, each an ordered list of string fields. Only
/// the tags are inspected.
#[derive(Debug)]
pub struct Message {
    pub id: String,
    pub author: String,
    pub tags: Vec<Vec<String>>,
}

/// A directive to store `message` into the partition `target`.
#[derive(Debug)]
pub struct StoreDirective {
    pub message: Message,
    pub target: Scope,
}

/// The machine-distinguishable kinds of rejection.
#[derive(Clone, Copy, Debug, PartialEq, Eq, Structural)]
pub enum RejectKind {
    /// The bound scope is excluded by the tenant allow-list.
    TenantNotAllowed,
    /// The operation requires an authenticated identity that is absent.
    AuthRequired,
    /// The sliding-window quota is exceeded for the connection.
    RateLimited,
    /// Strict mode: the bound scope is a non-geohash named partition.
    InvalidTenantScope,
    /// The message declares a location that does not match the bound scope.
    WrongScope,
}

/// A rejection: its kind, and a human-readable reason fit to surface to the
/// remote client, naming the correct endpoint where determinable.
#[derive(Debug)]
pub struct Rejection {
    pub kind: RejectKind,
    pub message: String,
}

/// The outcome the policy assigns to a message, at the specification level:
/// accept into a target scope, or reject with a kind and a reason.
pub enum Decision {
    Accept { target: Scope },
    Reject { kind: RejectKind, reason: Seq<char> },
}

/// The multi-tenant event processor: the static policy configuration,
/// evaluated fresh against each inbound message.
#[derive(Debug)]
pub struct GeohashedEventProcessor {
    pub config: RelayConfig,
}

// ---------------------------------------------------------------------------
// Policy specification
// ---------------------------------------------------------------------------
/// Membership of `name` in the allow-list.
pub open spec fn allow_list_contains(list: Vec<String>, name: Seq<char>) -> bool {
    exists|i: int| 0 <= i < list@.len() && #[trigger] list@[i]@ == name
}

/// Whether a connection bound to `scope` is reachable at all. The root scope
/// always is; a named scope is when the allow-list is empty, when its name is
/// a strictly valid geohash (geographic partitions are self-authorizing), or
/// when its name appears in the allow-list.
pub open spec fn tenant_allowed(cfg: RelayConfig, scope: Scope) -> bool {
    match scope {
        Scope::Root => true,
        Scope::Named(name) => cfg.allowed_subdomains@.len() == 0 || strict_valid_geohash(name@)
            || allow_list_contains(cfg.allowed_subdomains, name@),
    }
}

/// Whether the write-side authentication gate passes.
pub open spec fn write_auth_ok(cfg: RelayConfig, st: ConnectionState) -> bool {
    !cfg.require_auth_for_write || st.authed_pubkey is Some
}

/// Whether the read-side authentication gate passes.
pub open spec fn read_auth_ok(cfg: RelayConfig, st: ConnectionState) -> bool {
    !cfg.require_auth_for_read || st.authed_pubkey is Some
}

/// Whether the rate-limit window that began at `info.window_start` has
/// expired at time `now`.
pub open spec fn window_expired(info: RateLimitInfo, now: u64) -> bool {
    now > info.window_start + RATE_WINDOW_SECS
}

/// The event count after the arriving message is counted: 1 in a fresh
/// window, otherwise one more than before (saturating at the counter's
/// maximum).
pub open spec fn counted_events(info: RateLimitInfo, now: u64) -> u32 {
    if window_expired(info, now) {
        1
    } else if info.events_received == u32::MAX {
        u32::MAX
    } else {
        (info.events_received + 1) as u32
    }
}

/// Whether the arriving message exceeds the quota: the post-increment count
/// is compared against the configured limit, so the triggering message
/// itself counts.
pub open spec fn rate_limited(cfg: RelayConfig, info: RateLimitInfo, now: u64) -> bool {
    counted_events(info, now) > cfg.events_per_minute
}

/// Whether the bound scope survives strict-subdomain mode: when the mode is
/// on, a named scope must be a strictly valid geohash to accept any write.
pub open spec fn scope_strict_ok(cfg: RelayConfig, scope: Scope) -> bool {
    !cfg.strict_subdomain_mode || match scope {
        Scope::Root => true,
        Scope::Named(name) => strict_valid_geohash(name@),
    }
}

/// The message's effective declared location: the first normalized geohash
/// among its location tags, if any. Later tags are never consulted.
pub open spec fn effective_location(tags: Seq<Seq<Seq<char>>>) -> Option<Seq<char>> {
    if extracted_geohashes(tags).len() == 0 {
        None
    } else {
        Some(extracted_geohashes(tags)[0])
    }
}

/// Reason text for a tenant excluded by the allow-list.
pub open spec fn tenant_not_allowed_reason(name: Seq<char>) -> Seq<char> {
    "restricted: tenant '"@ + name + "' is not allowed on this relay"@
}

/// Reason text for an unauthenticated write.
pub open spec fn auth_required_reason() -> Seq<char> {
    "restricted: authentication required to publish events"@
}

/// Reason text for an unauthenticated read.
pub open spec fn read_auth_required_reason() -> Seq<char> {
    "restricted: authentication required to read events"@
}

/// Reason text for an exceeded quota, quoting the observed count and the
/// configured limit.
pub open spec fn rate_limited_reason(count: u32, limit: u32) -> Seq<char> {
    "restricted: rate limit exceeded: "@ + dec_rep(count as nat)
        + " events in the current window (max "@ + dec_rep(limit as nat)
        + " events per minute)"@
}

/// Reason text for a write to a non-geohash partition in strict mode.
pub open spec fn invalid_scope_reason(name: Seq<char>) -> Seq<char> {
    "restricted: '"@ + name + "' is not a valid geohash subdomain"@
}

/// Reason text for a geotagged message on the root relay, naming the correct
/// endpoint.
pub open spec fn root_wrong_scope_reason(gh: Seq<char>) -> Seq<char> {
    "restricted: root relay does not accept geotagged events; use wss://"@ + gh
        + ".hashstr.com"@
}

/// Reason text for a geotagged message on a mismatched partition, naming the
/// correct endpoint.
pub open spec fn wrong_scope_reason(gh: Seq<char>) -> Seq<char> {
    "restricted: events with geohash '"@ + gh + "' must be posted to wss://"@ + gh
        + ".hashstr.com"@
}

/// The admission decision for `event`, arriving at time `now` on a
/// connection in state `st`, under configuration `cfg`. The checks apply in
/// order: allow-list, write authentication, rate limit, strict-subdomain
/// mode, then the declared location against the bound scope. An untagged
/// message lands in the bound scope, and a message whose location tags are
/// all malformed counts as untagged; a tagged one is confirmed only where
/// the bound scope names exactly the first declared location.
pub open spec fn admission_decision(
    cfg: RelayConfig,
    st: ConnectionState,
    event: Message,
    now: u64,
) -> Decision {
    if !tenant_allowed(cfg, st.scope) {
        Decision::Reject {
            kind: RejectKind::TenantNotAllowed,
            reason: tenant_not_allowed_reason(st.scope.label()),
        }
    } else if !write_auth_ok(cfg, st) {
        Decision::Reject { kind: RejectKind::AuthRequired, reason: auth_required_reason() }
    } else if rate_limited(cfg, st.rate_limit_info, now) {
        Decision::Reject {
            kind: RejectKind::RateLimited,
            reason: rate_limited_reason(
                counted_events(st.rate_limit_info, now),
                cfg.events_per_minute,
            ),
        }
    } else if !scope_strict_ok(cfg, st.scope) {
        Decision::Reject {
            kind: RejectKind::InvalidTenantScope,
            reason: invalid_scope_reason(st.scope.label()),
        }
    } else {
        match effective_location(event.tags.deep_view()) {
            None => Decision::Accept { target: st.scope },
            Some(gh) => match st.scope {
                Scope::Root => Decision::Reject {
                    kind: RejectKind::WrongScope,
                    reason: root_wrong_scope_reason(gh),
                },
                Scope::Named(name) => if name@ == gh {
                    Decision::Accept { target: st.scope }
                } else {
                    Decision::Reject {
                        kind: RejectKind::WrongScope,
                        reason: wrong_scope_reason(gh),
                    }
                },
            },
        }
    }
}

/// The connection state after one message is evaluated. The rate-limit
/// counters advance exactly when the message reaches the rate-limit check;
/// the cumulative counter advances exactly when the message passes it. The
/// bound scope and the authenticated identity never change.
pub open spec fn state_after(cfg: RelayConfig, st: ConnectionState, now: u64) -> ConnectionState {
    if !tenant_allowed(cfg, st.scope) || !write_auth_ok(cfg, st) {
        st
    } else {
        let c = counted_events(st.rate_limit_info, now);
        ConnectionState {
            rate_limit_info: RateLimitInfo {
                events_received: c,
                window_start: if window_expired(st.rate_limit_info, now) {
                    now
                } else {
                    st.rate_limit_info.window_start
                },
            },
            events_sent: if c > cfg.events_per_minute || st.events_sent == u64::MAX {
                st.events_sent
            } else {
                (st.events_sent + 1) as u64
            },
            ..st
        }
    }
}

// ---------------------------------------------------------------------------
// Executable policy
// ---------------------------------------------------------------------------
fn allow_list_contains_exec(list: &Vec<String>, name: &String) -> (r: bool)
    ensures
        r == allow_list_contains(*list, name@),
{
    let mut i: usize = 0;
    while i < list.len()
        invariant
            i <= list@.len(),
            forall|j: int| 0 <= j < i ==> #[trigger] list@[j]@ != name@,
        decreases list@.len() - i,
    {
        if list[i] == *name {
            return true;
        }
        i += 1;
    }
    false
}

fn tenant_allowed_exec(cfg: &RelayConfig, scope: &Scope) -> (r: bool)
    ensures
        r == tenant_allowed(*cfg, *scope),
{
    match scope {
        Scope::Root => true,
        Scope::Named(name) => {
            if cfg.allowed_subdomains.len() == 0 {
                true
            } else if is_geohash_subdomain(name.as_str()) {
                true
            } else {
                allow_list_contains_exec(&cfg.allowed_subdomains, name)
            }
        },
    }
}

fn tenant_not_allowed_message(name: &str) -> (r: String)
    ensures
        r@ == tenant_not_allowed_reason(name@),
{
    let mut s = String::from_str("restricted: tenant '");
    s.append(name);
    s.append("' is not allowed on this relay");
    s
}

fn auth_required_message() -> (r: String)
    ensures
        r@ == auth_required_reason(),
{
    String::from_str("restricted: authentication required to publish events")
}

fn read_auth_required_message() -> (r: String)
    ensures
        r@ == read_auth_required_reason(),
{
    String::from_str("restricted: authentication required to read events")
}

fn rate_limited_message(count: u32, limit: u32) -> (r: String)
    ensures
        r@ == rate_limited_reason(count, limit),
{
    let mut s = String::from_str("restricted: rate limit exceeded: ");
    let count_str = u32_to_string(count);
    s.append(count_str.as_str());
    s.append(" events in the current window (max ");
    let limit_str = u32_to_string(limit);
    s.append(limit_str.as_str());
    s.append(" events per minute)");
    s
}

fn invalid_scope_message(name: &str) -> (r: String)
    ensures
        r@ == invalid_scope_reason(name@),
{
    let mut s = String::from_str("restricted: '");
    s.append(name);
    s.append("' is not a valid geohash subdomain");
    s
}

fn root_wrong_scope_message(gh: &str) -> (r: String)
    ensures
        r@ == root_wrong_scope_reason(gh@),
{
    let mut s = String::from_str(
        "restricted: root relay does not accept geotagged events; use wss://",
    );
    s.append(gh);
    s.append(".hashstr.com");
    s
}

fn wrong_scope_message(gh: &str) -> (r: String)
    ensures
        r@ == wrong_scope_reason(gh@),
{
    let mut s = String::from_str("restricted: events with geohash '");
    s.append(gh);
    s.append("' must be posted to wss://");
    s.append(gh);
    s.append(".hashstr.com");
    s
}

impl GeohashedEventProcessor {
    /// A processor with the default configuration and the given write quota.
    pub fn new(events_per_minute: u32) -> (p: GeohashedEventProcessor)
        ensures
            p.config.events_per_minute == events_per_minute,
            p.config.allowed_subdomains@.len() == 0,
            p.config.require_auth_for_write == false,
            p.config.require_auth_for_read == false,
            p.config.strict_subdomain_mode == false,
    {
        let mut config = RelayConfig::default();
        config.events_per_minute = events_per_minute;
        GeohashedEventProcessor { config }
    }

    /// A processor with the given configuration.
    pub fn with_config(config: RelayConfig) -> (p: GeohashedEventProcessor)
        ensures
            p.config == config,
    {
        GeohashedEventProcessor { config }
    }

    /// The write quota applying to a connection bound to `scope`; the quota
    /// is uniform across scopes.
    fn get_rate_limit(&self, _scope: &Scope) -> (r: u32)
        ensures
            r == self.config.events_per_minute,
    {
        self.config.events_per_minute
    }

    /// Evaluates one inbound message. Returns the store directives on
    /// acceptance (exactly one, targeting the scope `admission_decision`
    /// names), or the rejection `admission_decision` names; the connection
    /// state advances to `state_after` in every case.
    pub fn handle_event(
        &self,
        event: Message,
        state: &mut ConnectionState,
        now: u64,
    ) -> (r: Result<Vec<StoreDirective>, Rejection>)
        ensures
            *final(state) == state_after(self.config, *old(state), now),
            match admission_decision(self.config, *old(state), event, now) {
                Decision::Accept { target } => r matches Ok(ds) && ds@.len() == 1
                    && ds@[0].message == event && ds@[0].target == target,
                Decision::Reject { kind, reason } => r matches Err(rej) && rej.kind == kind
                    && rej.message@ == reason,
            },
    {
        // Allow-list: a named, non-geographic scope must be listed.
        if !tenant_allowed_exec(&self.config, &state.scope) {
            let msg = match &state.scope {
                Scope::Named(name) => tenant_not_allowed_message(name.as_str()),
                Scope::Root => String::new(),  // unreachable: root is always allowed
            };
            return Err(Rejection { kind: RejectKind::TenantNotAllowed, message: msg });
        }
        // Write-side authentication gate.
        if self.config.require_auth_for_write && state.authed_pubkey.is_none() {
            return Err(Rejection {
                kind: RejectKind::AuthRequired,
                message: auth_required_message(),
            });
        }
        // Rate limiting: reset the window if expired, count the message, and
        // compare the post-increment count against the quota.
        let info = state.rate_limit_info;
        let expired = if now >= info.window_start {
            now - info.window_start > RATE_WINDOW_SECS
        } else {
            false
        };
        let new_count: u32 = if expired {
            1
        } else if info.events_received == u32::MAX {
            u32::MAX
        } else {
            info.events_received + 1
        };
        state.rate_limit_info = RateLimitInfo {
            events_received: new_count,
            window_start: if expired {
                now
            } else {
                info.window_start
            },
        };
        let limit = self.get_rate_limit(&state.scope);
        if new_count > limit {
            return Err(Rejection {
                kind: RejectKind::RateLimited,
                message: rate_limited_message(new_count, limit),
            });
        }
        state.events_sent = if state.events_sent == u64::MAX {
            u64::MAX
        } else {
            state.events_sent + 1
        };
        // Strict-subdomain mode: a non-geohash named partition accepts
        // nothing at all.
        if self.config.strict_subdomain_mode {
            let strict_violation = match &state.scope {
                Scope::Named(name) => !is_geohash_subdomain(name.as_str()),
                Scope::Root => false,
            };
            if strict_violation {
                let msg = match &state.scope {
                    Scope::Named(name) => invalid_scope_message(name.as_str()),
                    Scope::Root => String::new(),  // unreachable: checked above
                };
                return Err(Rejection { kind: RejectKind::InvalidTenantScope, message: msg });
            }
        }
        // Declared location against the bound scope: first tag wins, later
        // tags and malformed tags are never consulted.
        let geohash_tags = extract_geohash_tags(&event.tags);
        if geohash_tags.len() == 0 {
            let target = state.scope.clone();
            let mut directives: Vec<StoreDirective> = Vec::new();
            directives.push(StoreDirective { message: event, target });
            return Ok(directives);
        }
        let first = &geohash_tags[0];
        match &state.scope {
            Scope::Root => Err(Rejection {
                kind: RejectKind::WrongScope,
                message: root_wrong_scope_message(first.as_str()),
            }),
            Scope::Named(name) => {
                if *name == *first {
                    let target = state.scope.clone();
                    let mut directives: Vec<StoreDirective> = Vec::new();
                    directives.push(StoreDirective { message: event, target });
                    Ok(directives)
                } else {
                    Err(Rejection {
                        kind: RejectKind::WrongScope,
                        message: wrong_scope_message(first.as_str()),
                    })
                }
            },
        }
    }

    /// Whether a stored message may be delivered to a reader in state
    /// `state`: the reader's scope must pass the allow-list and the read
    /// authentication gate. The message itself is never inspected — the
    /// storage layer already confines a reader to its own partition.
    pub fn can_see_event(&self, _event: &Message, state: &ConnectionState) -> (r: bool)
        ensures
            r == (tenant_allowed(self.config, state.scope) && read_auth_ok(self.config, *state)),
    {
        tenant_allowed_exec(&self.config, &state.scope) && (!self.config.require_auth_for_read
            || state.authed_pubkey.is_some())
    }

    /// Whether a subscription query may execute for a reader in state
    /// `state`: the same allow-list and read-authentication gating as
    /// `can_see_event`. Structural validation of the filters themselves is
    /// delegated to the storage and query layer.
    pub fn verify_filters(&self, state: &ConnectionState) -> (r: Result<(), Rejection>)
        ensures
            r is Ok <==> (tenant_allowed(self.config, state.scope) && read_auth_ok(
                self.config,
                *state,
            )),
            !tenant_allowed(self.config, state.scope) ==> (r matches Err(rej) && rej.kind
                == RejectKind::TenantNotAllowed && rej.message@ == tenant_not_allowed_reason(
                state.scope.label(),
            )),
            tenant_allowed(self.config, state.scope) && !read_auth_ok(self.config, *state)
                ==> (r matches Err(rej) && rej.kind == RejectKind::AuthRequired && rej.message@
                == read_auth_required_reason()),
    {
        if !tenant_allowed_exec(&self.config, &state.scope) {
            let msg = match &state.scope {
                Scope::Named(name) => tenant_not_allowed_message(name.as_str()),
                Scope::Root => String::new(),  // unreachable: root is always allowed
            };
            return Err(Rejection { kind: RejectKind::TenantNotAllowed, message: msg });
        }
        if self.config.require_auth_for_read && state.authed_pubkey.is_none() {
            return Err(Rejection {
                kind: RejectKind::AuthRequired,
                message: read_auth_required_message(),
            });
        }
        Ok(())
    }
}

} // verus!
