//! The race: each provider's transaction variant, and the outcome drawn from
//! every provider's outcome.
use crate::assembler::{assemble_instructions, assembled, views, Instruction, Pubkey, PriorityFee};
use crate::error::{ProviderError, ProviderFailure, RaceError};
use crate::provider::{picked_account, ProviderDescriptor, ProviderKind};
use crate::tip_cache::TipCache;
use vstd::prelude::*;

verus! {

/// A 64-byte transaction signature.
#[derive(Debug, Clone, Copy, PartialEq, Eq)]
pub struct Signature {
    pub bytes: [u8; 64],
}

/// The tip for the provider at `index`: its entry of the caller's override
/// list when there is one, else the cached tip.
pub open spec fn slot_tip(index: usize, overrides: Seq<u64>, cached: u64) -> u64 {
    if (index as int) < overrides.len() {
        overrides[index as int]
    } else {
        cached
    }
}

/// The account that receives the tip of a slot; with an empty pool (plain
/// RPC only) no transfer is built, and the payer stands in.
pub open spec fn slot_account(pool: Seq<Pubkey>, draw: Option<usize>, payer: Pubkey) -> Pubkey {
    if pool.len() > 0 {
        picked_account(pool, draw)
    } else {
        payer
    }
}

/// Whether a provider cannot take part: a tip relay without tip accounts.
pub open spec fn misconfigured(p: ProviderDescriptor) -> bool {
    p.kind.spec_requires_tip() && p.tip_accounts@.len() == 0
}

/// The tip for the provider at `index`.
pub fn tip_for_slot(index: usize, overrides: &Vec<u64>, cache: &TipCache) -> (r: u64)
    ensures
        r == slot_tip(index, overrides@, cache.tip_lamports),
{
    if index < overrides.len() {
        overrides[index]
    } else {
        cache.get_tip()
    }
}

/// Builds the instruction list for the provider at `index` from a given
/// random draw for its tip account.
pub fn prepare_slot_with_draw(
    index: usize,
    provider: &ProviderDescriptor,
    fee: PriorityFee,
    payer: Pubkey,
    trade: &Vec<Instruction>,
    overrides: &Vec<u64>,
    cache: &TipCache,
    draw: Option<usize>,
) -> (r: Result<Vec<Instruction>, ProviderError>)
    ensures
        misconfigured(*provider) <==> r is Err,
        r matches Err(e) ==> e is Configuration,
        r matches Ok(v) ==> views(v@) == assembled(
            provider.kind,
            fee,
            payer,
            slot_account(provider.tip_accounts@, draw, payer),
            slot_tip(index, overrides@, cache.tip_lamports),
            views(trade@),
        ),
{
    let account = match provider.pick_tip_account(draw) {
        Err(e) => {
            return Err(e);
        },
        Ok(Some(a)) => a,
        Ok(None) => payer,
    };
    let lamports = tip_for_slot(index, overrides, cache);
    Ok(assemble_instructions(provider.kind, fee, payer, account, lamports, trade))
}

/// Builds the instruction list for the provider at `index`, drawing its tip
/// account at random from its pool.
pub fn prepare_slot(
    index: usize,
    provider: &ProviderDescriptor,
    fee: PriorityFee,
    payer: Pubkey,
    trade: &Vec<Instruction>,
    overrides: &Vec<u64>,
    cache: &TipCache,
) -> (r: Result<Vec<Instruction>, ProviderError>)
    ensures
        misconfigured(*provider) <==> r is Err,
        r matches Err(e) ==> e is Configuration,
        r matches Ok(v) ==> exists|a: Pubkey|
            (provider.tip_accounts@.contains(a) || (provider.tip_accounts@.len() == 0 && a == payer))
                && views(v@) == #[trigger] assembled(
                provider.kind,
                fee,
                payer,
                a,
                slot_tip(index, overrides@, cache.tip_lamports),
                views(trade@),
            ),
{
    let account = match provider.tip_account() {
        Err(e) => {
            return Err(e);
        },
        Ok(Some(a)) => a,
        Ok(None) => payer,
    };
    let lamports = tip_for_slot(index, overrides, cache);
    let v = assemble_instructions(provider.kind, fee, payer, account, lamports, trade);
    Ok(v)
}

/// The logical core the task of slot `index` is pinned to, cycling through
/// the `core_count` cores; `None` (default scheduling) where no core is known.
pub fn core_for_slot(index: usize, core_count: usize) -> (r: Option<usize>)
    ensures
        core_count == 0 ==> r is None,
        core_count > 0 ==> r == Some((index % core_count) as usize),
{
    if core_count == 0 {
        None
    } else {
        Some(index % core_count)
    }
}

/// What one provider's slot of a race came to.
#[derive(Debug, PartialEq, Eq)]
pub struct SlotOutcome {
    pub provider: usize,
    pub kind: ProviderKind,
    pub result: Result<Signature, ProviderError>,
}

/// A race in which at least one provider succeeded: every provider's outcome,
/// in provider order.
#[derive(Debug, PartialEq, Eq)]
pub struct RaceReport {
    pub outcomes: Vec<SlotOutcome>,
}

/// Whether some provider's attempt succeeded.
pub open spec fn any_success(results: Seq<Result<Signature, ProviderError>>) -> bool {
    exists|i: int| 0 <= i < results.len() && (#[trigger] results[i]) is Ok
}

/// Draws the outcome of a race from each provider's result (`results[i]`
/// belongs to the provider of kind `kinds[i]`): success with every outcome
/// when at least one provider succeeded, else an aggregate failure that holds
/// every provider's error. Either way there is one entry per provider.
pub fn settle_race(kinds: &Vec<ProviderKind>, results: Vec<Result<Signature, ProviderError>>) -> (r:
    Result<RaceReport, RaceError>)
    requires
        kinds@.len() == results@.len(),
    ensures
        r is Ok <==> any_success(results@),
        r matches Ok(report) ==> report.outcomes@.len() == results@.len() && forall|i: int|
            0 <= i < results@.len() ==> #[trigger] report.outcomes@[i] == (SlotOutcome {
                provider: i as usize,
                kind: kinds@[i],
                result: results@[i],
            }),
        r matches Err(RaceError::AggregateFailure(failures)) ==> failures@.len() == results@.len()
            && forall|i: int|
            0 <= i < results@.len() ==> #[trigger] failures@[i] == (ProviderFailure {
                provider: i as usize,
                kind: kinds@[i],
                error: results@[i]->Err_0,
            }),
{
    let n = results.len();
    let mut found = false;
    let mut i: usize = 0;
    while i < n
        invariant
            n == results@.len(),
            i <= n,
            found <==> exists|j: int| 0 <= j < i && (#[trigger] results@[j]) is Ok,
        decreases n - i,
    {
        if results[i].is_ok() {
            found = true;
        }
        i = i + 1;
    }
    let ghost orig = results@;
    let mut rest = results;
    if found {
        let mut outcomes: Vec<SlotOutcome> = Vec::new();
        let mut k: usize = 0;
        while k < n
            invariant
                n == orig.len(),
                n == kinds@.len(),
                k <= n,
                rest@ == orig.subrange(k as int, n as int),
                outcomes@.len() == k,
                forall|j: int|
                    0 <= j < k ==> #[trigger] outcomes@[j] == (SlotOutcome {
                        provider: j as usize,
                        kind: kinds@[j],
                        result: orig[j],
                    }),
            decreases n - k,
        {
            let result = rest.remove(0);
            outcomes.push(SlotOutcome { provider: k, kind: kinds[k], result });
            k = k + 1;
            assert(rest@ =~= orig.subrange(k as int, n as int));
        }
        Ok(RaceReport { outcomes })
    } else {
        let mut failures: Vec<ProviderFailure> = Vec::new();
        let mut k: usize = 0;
        while k < n
            invariant
                n == orig.len(),
                n == kinds@.len(),
                k <= n,
                !any_success(orig),
                rest@ == orig.subrange(k as int, n as int),
                failures@.len() == k,
                forall|j: int|
                    0 <= j < k ==> #[trigger] failures@[j] == (ProviderFailure {
                        provider: j as usize,
                        kind: kinds@[j],
                        error: orig[j]->Err_0,
                    }),
            decreases n - k,
        {
            let result = rest.remove(0);
            assert(result == orig[k as int]);
            assert(!(orig[k as int] is Ok));
            match result {
                Err(error) => {
                    failures.push(ProviderFailure { provider: k, kind: kinds[k], error });
                },
                Ok(_) => {},
            }
            k = k + 1;
            assert(rest@ =~= orig.subrange(k as int, n as int));
        }
        Err(RaceError::AggregateFailure(failures))
    }
}

} // verus!
