//! One tick of the poll loop: fetch, compare against the cache, and decide
//! whether to fan the update out and whether to commit it. The loop itself —
//! timers, cancellation, the concurrent provider tasks — runs outside; it
//! feeds each tick's observations in as plain values and obeys the plan and
//! the commit decision computed here.
//!
//! A tick moves through fetch, compare, update and commit strictly in that
//! order. The compare step yields a [`TickPlan`]; only a `Publish` plan
//! dispatches providers, and the new record is committed to the cache if and
//! only if every dispatched provider ran to completion and succeeded.

use vstd::prelude::*;

use crate::codec::CacheError;
use crate::record::IpUpdate;

verus! {

/// What the compare step learned from the cache.
#[derive(Clone, Copy, Debug, PartialEq, Eq, Structural)]
pub enum CacheLookup {
    /// The cache holds a record.
    Hit(IpUpdate),
    /// The cache file is absent.
    Miss,
    /// The cache file exists but failed its integrity checks; treated as a
    /// miss, but reported distinctly so it can be logged.
    Unreadable(CacheError),
}

/// The decision a tick reaches before any provider is contacted.
#[derive(Clone, Copy, Debug, PartialEq, Eq, Structural)]
pub enum TickPlan {
    /// No version yielded an address; nothing to publish.
    NoAddress,
    /// The fetched record equals the cached one; nothing to do.
    NoChange,
    /// An update is due but dry-run mode suppresses it.
    DryRun,
    /// Dispatch the record to every configured provider.
    Publish,
}

/// How one dispatched provider task ended.
#[derive(Clone, Copy, Debug, PartialEq, Eq, Structural)]
pub enum ProviderOutcome {
    /// The provider ran and succeeded; the flag tells whether it changed
    /// anything, used only for logging.
    Applied(bool),
    /// The provider ran and returned an error.
    Failed,
    /// The task did not run to completion.
    Incomplete,
}

/// The plan a tick reaches from the fetched record, the cache lookup and the
/// dry-run flag, in the fixed order: an empty fetch ends the tick; a cache
/// hit equal to the fetched record ends it; dry-run suppresses the update; a
/// differing or unknown cached record is published.
pub open spec fn spec_plan_tick(fetched: IpUpdate, lookup: CacheLookup, dry_run: bool) -> TickPlan {
    if fetched.spec_is_empty() {
        TickPlan::NoAddress
    } else if lookup matches CacheLookup::Hit(cached) && cached == fetched {
        TickPlan::NoChange
    } else if dry_run {
        TickPlan::DryRun
    } else {
        TickPlan::Publish
    }
}

/// Whether a plan dispatches any provider.
pub open spec fn spec_dispatches(plan: TickPlan) -> bool {
    plan is Publish
}

/// Every dispatched task ran to completion and succeeded.
pub open spec fn spec_all_applied(outcomes: Seq<ProviderOutcome>) -> bool {
    forall|i: int| 0 <= i < outcomes.len() ==> outcomes[i] is Applied
}

/// A tick commits its record iff it published, every configured provider was
/// dispatched and joined, and every one succeeded.
pub open spec fn spec_tick_commits(
    plan: TickPlan,
    outcomes: Seq<ProviderOutcome>,
    provider_count: nat,
) -> bool {
    &&& spec_dispatches(plan)
    &&& outcomes.len() == provider_count
    &&& spec_all_applied(outcomes)
}

/// The cache after a tick: the fetched record if the tick committed, the
/// pre-tick contents otherwise.
pub open spec fn spec_cache_after_tick(
    pre: Option<IpUpdate>,
    fetched: IpUpdate,
    plan: TickPlan,
    outcomes: Seq<ProviderOutcome>,
    provider_count: nat,
) -> Option<IpUpdate> {
    if spec_tick_commits(plan, outcomes, provider_count) {
        Option::Some(fetched)
    } else {
        pre
    }
}

/// Computes the plan of a tick.
pub fn plan_tick(fetched: &IpUpdate, lookup: &CacheLookup, dry_run: bool) -> (plan: TickPlan)
    ensures
        plan == spec_plan_tick(*fetched, *lookup, dry_run),
{
    if fetched.is_empty() {
        TickPlan::NoAddress
    } else {
        let hit_equal = match lookup {
            CacheLookup::Hit(cached) => *cached == *fetched,
            _ => false,
        };
        if hit_equal {
            TickPlan::NoChange
        } else if dry_run {
            TickPlan::DryRun
        } else {
            TickPlan::Publish
        }
    }
}

/// Decides the commit after the fan-out barrier: true iff every one of the
/// configured providers was joined and succeeded.
pub fn decide_commit(outcomes: &Vec<ProviderOutcome>, provider_count: usize) -> (commit: bool)
    ensures
        commit == (outcomes@.len() == provider_count && spec_all_applied(outcomes@)),
{
    if outcomes.len() != provider_count {
        return false;
    }
    let mut i: usize = 0;
    while i < outcomes.len()
        invariant
            0 <= i <= outcomes@.len(),
            forall|j: int| 0 <= j < i ==> outcomes@[j] is Applied,
        decreases outcomes@.len() - i,
    {
        match outcomes[i] {
            ProviderOutcome::Applied(_) => {},
            _ => {
                return false;
            },
        }
        i += 1;
    }
    true
}

/// The outcome of one whole tick, as a value.
#[derive(Clone, Copy, Debug, PartialEq, Eq, Structural)]
pub struct TickOutcome {
    /// The plan the compare step reached.
    pub plan: TickPlan,
    /// Whether the record was committed to the cache.
    pub committed: bool,
    /// The cache contents after the tick.
    pub cache: Option<IpUpdate>,
}

/// The whole tick as one transition: from the fetched record, the cache
/// lookup, the dry-run flag, the pre-tick cache contents and the outcomes of
/// the dispatched tasks (empty when nothing was dispatched) to the plan, the
/// commit decision and the cache contents after the tick.
pub fn tick_transition(
    fetched: &IpUpdate,
    lookup: &CacheLookup,
    dry_run: bool,
    pre: &Option<IpUpdate>,
    outcomes: &Vec<ProviderOutcome>,
    provider_count: usize,
) -> (t: TickOutcome)
    ensures
        t.plan == spec_plan_tick(*fetched, *lookup, dry_run),
        t.committed == spec_tick_commits(t.plan, outcomes@, provider_count as nat),
        t.cache == spec_cache_after_tick(
            *pre,
            *fetched,
            t.plan,
            outcomes@,
            provider_count as nat,
        ),
{
    let plan = plan_tick(fetched, lookup, dry_run);
    let committed = match plan {
        TickPlan::Publish => decide_commit(outcomes, provider_count),
        _ => false,
    };
    let cache = if committed {
        Some(*fetched)
    } else {
        *pre
    };
    TickOutcome { plan, committed, cache }
}

/// Idempotent no-op: when the fetched record equals the cached one, the tick
/// plans no update, dispatches no provider, and leaves the cache unchanged,
/// whatever the dry-run flag and whatever outcomes are supplied.
pub proof fn lemma_idempotent_no_op(
    fetched: IpUpdate,
    dry_run: bool,
    pre: Option<IpUpdate>,
    outcomes: Seq<ProviderOutcome>,
    provider_count: nat,
)
    ensures
        !spec_dispatches(spec_plan_tick(fetched, CacheLookup::Hit(fetched), dry_run)),
        spec_cache_after_tick(
            pre,
            fetched,
            spec_plan_tick(fetched, CacheLookup::Hit(fetched), dry_run),
            outcomes,
            provider_count,
        ) == pre,
{
}

/// All-or-nothing commit: when a tick publishes and any one of the joined
/// provider tasks did not succeed, the tick does not commit and the cache
/// keeps its pre-tick value; and a next tick computed from the same fetched
/// record and the same cache state publishes again, to every provider.
pub proof fn lemma_all_or_nothing(
    fetched: IpUpdate,
    lookup: CacheLookup,
    pre: Option<IpUpdate>,
    outcomes: Seq<ProviderOutcome>,
    provider_count: nat,
    failing: int,
)
    requires
        spec_plan_tick(fetched, lookup, false) == TickPlan::Publish,
        outcomes.len() == provider_count,
        0 <= failing < outcomes.len(),
        !(outcomes[failing] is Applied),
    ensures
        !spec_tick_commits(TickPlan::Publish, outcomes, provider_count),
        spec_cache_after_tick(pre, fetched, TickPlan::Publish, outcomes, provider_count) == pre,
        spec_plan_tick(fetched, lookup, false) == TickPlan::Publish,
{
}

/// Dry run: with dry-run enabled and the fetched record differing from the
/// cached state (or that state unknown), the tick plans a dry run only: no
/// provider is dispatched and the cache is not written.
pub proof fn lemma_dry_run(
    fetched: IpUpdate,
    lookup: CacheLookup,
    pre: Option<IpUpdate>,
    outcomes: Seq<ProviderOutcome>,
    provider_count: nat,
)
    requires
        !fetched.spec_is_empty(),
        !(lookup matches CacheLookup::Hit(cached) && cached == fetched),
    ensures
        spec_plan_tick(fetched, lookup, true) == TickPlan::DryRun,
        !spec_dispatches(spec_plan_tick(fetched, lookup, true)),
        spec_cache_after_tick(
            pre,
            fetched,
            spec_plan_tick(fetched, lookup, true),
            outcomes,
            provider_count,
        ) == pre,
{
}

} // verus!
