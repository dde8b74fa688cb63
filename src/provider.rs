//! Provider descriptions, tip-account selection and each provider's wire format.
use crate::assembler::Pubkey;
use crate::codec::{base58_decoded, parse_pubkey, string_of};
use crate::error::ProviderError;
use vstd::prelude::*;

verus! {

/// The broadcast channel a provider speaks: plain RPC, or one of the tip relays.
#[derive(Debug, Clone, Copy, PartialEq, Eq, Structural)]
pub enum ProviderKind {
    Rpc,
    Nozomi,
    Node1,
}

impl ProviderKind {
    /// Tip relays want a tip transfer in every transaction; plain RPC does not.
    pub open spec fn spec_requires_tip(self) -> bool {
        self != ProviderKind::Rpc
    }

    #[verifier::when_used_as_spec(spec_requires_tip)]
    pub fn requires_tip(self) -> (r: bool)
        ensures
            r == self.spec_requires_tip(),
    {
        !matches!(self, ProviderKind::Rpc)
    }
}

/// What a trade does; providers log it, nothing else depends on it.
#[derive(Debug, Clone, Copy, PartialEq, Eq, Structural)]
pub enum TradeType {
    Create,
    CreateAndBuy,
    Buy,
    Sell,
}

impl TradeType {
    pub open spec fn spec_name(self) -> Seq<char> {
        match self {
            TradeType::Create => "Create"@,
            TradeType::CreateAndBuy => "CreateAndBuy"@,
            TradeType::Buy => "Buy"@,
            TradeType::Sell => "Sell"@,
        }
    }

    /// The trade type's display name.
    pub fn name(self) -> (r: String)
        ensures
            r@ == self.spec_name(),
    {
        match self {
            TradeType::Create => string_of("Create"),
            TradeType::CreateAndBuy => string_of("CreateAndBuy"),
            TradeType::Buy => string_of("Buy"),
            TradeType::Sell => string_of("Sell"),
        }
    }
}

/// One broadcast channel: where to send, how to authenticate, which wire
/// format to speak and which accounts may receive its tip.
pub struct ProviderDescriptor {
    pub endpoint: String,
    pub auth_token: String,
    pub kind: ProviderKind,
    pub tip_accounts: Vec<Pubkey>,
}

/// The account that a selection picks from `pool` given a random draw: the
/// drawn entry when the draw lies in the pool, else the first entry.
pub open spec fn picked_account(pool: Seq<Pubkey>, draw: Option<usize>) -> Pubkey
    recommends
        pool.len() > 0,
{
    match draw {
        Some(d) if (d as int) < pool.len() => pool[d as int],
        _ => pool[0],
    }
}

/// Relies on rand's `random_range`: a uniformly drawn index below `n`.
#[verifier::external_body]
fn random_below(n: usize) -> (r: usize)
    requires
        n > 0,
    ensures
        r < n,
{
    rand::random_range(0..n)
}

impl ProviderDescriptor {
    pub fn new(endpoint: String, auth_token: String, kind: ProviderKind, tip_accounts: Vec<Pubkey>) -> (r: Self)
        ensures
            r.endpoint == endpoint,
            r.auth_token == auth_token,
            r.kind == kind,
            r.tip_accounts == tip_accounts,
    {
        ProviderDescriptor { endpoint, auth_token, kind, tip_accounts }
    }

    /// Describes a provider whose tip accounts are given as base58 texts; a
    /// text that is not an address is a configuration error.
    pub fn from_text(endpoint: String, auth_token: String, kind: ProviderKind, tip_accounts: &Vec<String>) -> (r:
        Result<Self, ProviderError>)
        ensures
            r is Ok <==> forall|i: int|
                0 <= i < tip_accounts@.len() ==> (#[trigger] base58_decoded(tip_accounts@[i]@)) is Some,
            r matches Err(e) ==> e is Configuration,
            r matches Ok(d) ==> {
                &&& d.endpoint == endpoint
                &&& d.auth_token == auth_token
                &&& d.kind == kind
                &&& d.tip_accounts@.len() == tip_accounts@.len()
                &&& forall|i: int|
                    0 <= i < tip_accounts@.len() ==> base58_decoded(#[trigger] tip_accounts@[i]@) == Some(
                        d.tip_accounts@[i].bytes@,
                    )
            },
    {
        let mut pool: Vec<Pubkey> = Vec::new();
        let mut i: usize = 0;
        while i < tip_accounts.len()
            invariant
                i <= tip_accounts@.len(),
                pool@.len() == i,
                forall|j: int|
                    0 <= j < i ==> base58_decoded(#[trigger] tip_accounts@[j]@) == Some(pool@[j].bytes@),
            decreases tip_accounts@.len() - i,
        {
            match parse_pubkey(tip_accounts[i].as_str()) {
                Some(k) => pool.push(k),
                None => {
                    return Err(ProviderError::Configuration(string_of("tip account is not an address")));
                },
            }
            i = i + 1;
        }
        Ok(ProviderDescriptor { endpoint, auth_token, kind, tip_accounts: pool })
    }

    pub fn kind(&self) -> (r: ProviderKind)
        ensures
            r == self.kind,
    {
        self.kind
    }

    /// Picks the tip account for one transaction from a random draw (`None`
    /// where no random source is available). Plain RPC takes no tip and gets
    /// `None` when its pool is empty; a tip relay with an empty pool is
    /// misconfigured.
    pub fn pick_tip_account(&self, draw: Option<usize>) -> (r: Result<Option<Pubkey>, ProviderError>)
        ensures
            self.tip_accounts@.len() > 0 ==> r == Ok::<Option<Pubkey>, ProviderError>(
                Some(picked_account(self.tip_accounts@, draw)),
            ),
            self.tip_accounts@.len() == 0 && !self.kind.spec_requires_tip() ==> r
                == Ok::<Option<Pubkey>, ProviderError>(None),
            self.tip_accounts@.len() == 0 && self.kind.spec_requires_tip() ==> r is Err && r->Err_0 is Configuration,
    {
        let n = self.tip_accounts.len();
        if n == 0 {
            if self.kind.requires_tip() {
                return Err(ProviderError::Configuration(string_of("tip account pool is empty")));
            }
            return Ok(None);
        }
        match draw {
            Some(d) if d < n => Ok(Some(self.tip_accounts[d])),
            _ => Ok(Some(self.tip_accounts[0])),
        }
    }

    /// Picks the tip account for one transaction uniformly at random.
    pub fn tip_account(&self) -> (r: Result<Option<Pubkey>, ProviderError>)
        ensures
            self.tip_accounts@.len() > 0 ==> (r matches Ok(Some(a)) && self.tip_accounts@.contains(a)),
            self.tip_accounts@.len() == 0 && !self.kind.spec_requires_tip() ==> r
                == Ok::<Option<Pubkey>, ProviderError>(None),
            self.tip_accounts@.len() == 0 && self.kind.spec_requires_tip() ==> r is Err && r->Err_0 is Configuration,
    {
        let n = self.tip_accounts.len();
        let draw = if n > 0 {
            Some(random_below(n))
        } else {
            None
        };
        let r = self.pick_tip_account(draw);
        proof {
            if n > 0 {
                assert(self.tip_accounts@[draw.unwrap() as int] == picked_account(self.tip_accounts@, draw));
            }
        }
        r
    }
}

} // verus!
