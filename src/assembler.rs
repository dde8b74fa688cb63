//! Per-provider transaction assembly: compute-budget instructions, the tip
//! transfer for tip relays, then the caller's trade instructions.
use crate::codec::{lemma_pow256_monotone, pow256};
use crate::provider::ProviderKind;
use vstd::arithmetic::div_mod::lemma_div_denominator;
use vstd::prelude::*;

verus! {

/// A 32-byte account address.
#[derive(Debug, Clone, Copy, PartialEq, Eq)]
pub struct Pubkey {
    pub bytes: [u8; 32],
}

/// One account an instruction touches, with its access flags.
#[derive(Debug, Clone, Copy, PartialEq, Eq)]
pub struct AccountMeta {
    pub pubkey: Pubkey,
    pub is_signer: bool,
    pub is_writable: bool,
}

/// One on-chain instruction: the program to run, its accounts and its data.
#[derive(Debug, Clone, PartialEq, Eq)]
pub struct Instruction {
    pub program_id: Pubkey,
    pub accounts: Vec<AccountMeta>,
    pub data: Vec<u8>,
}

/// An instruction as a value.
pub struct InstructionView {
    pub program_id: Pubkey,
    pub accounts: Seq<AccountMeta>,
    pub data: Seq<u8>,
}

impl View for Instruction {
    type V = InstructionView;

    open spec fn view(&self) -> InstructionView {
        InstructionView { program_id: self.program_id, accounts: self.accounts@, data: self.data@ }
    }
}

/// The values of a list of instructions.
pub open spec fn views(s: Seq<Instruction>) -> Seq<InstructionView> {
    s.map_values(|i: Instruction| i@)
}

/// Caller's compute-budget settings; an absent value adds no instruction.
#[derive(Debug, Clone, Copy, PartialEq, Eq)]
pub struct PriorityFee {
    /// Maximum compute units the transaction may consume.
    pub limit: Option<u32>,
    /// Price in micro-lamports per compute unit.
    pub price: Option<u64>,
}

/// How a provider's transaction is compiled and signed.
#[derive(Debug, Clone, Copy, PartialEq, Eq, Structural)]
pub enum MessageFormat {
    /// A legacy message with a recent blockhash.
    Legacy,
    /// A versioned message, which may use an address lookup table.
    Versioned,
}

/// Plain RPC takes the legacy path; tip relays the versioned one.
pub open spec fn format_for(kind: ProviderKind) -> MessageFormat {
    if kind.spec_requires_tip() {
        MessageFormat::Versioned
    } else {
        MessageFormat::Legacy
    }
}

/// The message format a provider of `kind` is sent.
pub fn message_format(kind: ProviderKind) -> (r: MessageFormat)
    ensures
        r == format_for(kind),
{
    if kind.requires_tip() {
        MessageFormat::Versioned
    } else {
        MessageFormat::Legacy
    }
}

/// The `n` little-endian bytes of `v`.
pub open spec fn le_bytes(v: nat, n: nat) -> Seq<u8> {
    Seq::new(n, |i: int| ((v / pow256(i as nat)) % 256) as u8)
}

/// Appends the `n` little-endian bytes of `v`.
fn push_le(out: &mut Vec<u8>, v: u64, n: usize)
    requires
        n <= 8,
    ensures
        final(out)@ == old(out)@ + le_bytes(v as nat, n as nat),
{
    let ghost start = out@;
    let mut cur: u64 = v;
    let mut i: usize = 0;
    assert(pow256(0) == 1);
    assert(out@ =~= start + le_bytes(v as nat, 0));
    while i < n
        invariant
            i <= n,
            out@ == start + le_bytes(v as nat, i as nat),
            cur as nat == v as nat / pow256(i as nat),
        decreases n - i,
    {
        proof {
            lemma_pow256_monotone(0, i as nat);
            lemma_div_denominator(v as int, pow256(i as nat) as int, 256);
            assert(pow256((i + 1) as nat) == 256 * pow256(i as nat));
            assert(pow256(i as nat) * 256 == 256 * pow256(i as nat)) by (nonlinear_arith);
        }
        out.push((cur % 256) as u8);
        cur = cur / 256;
        i = i + 1;
        assert(out@ =~= start + le_bytes(v as nat, i as nat));
    }
}

/// The compute-budget program's address.
pub open spec fn compute_budget_program() -> Pubkey {
    Pubkey {
        bytes: [
            3, 6, 70, 111, 229, 33, 23, 50, 255, 236, 173, 186, 114, 195, 155, 231, 188, 140,
            229, 187, 197, 247, 18, 107, 44, 67, 155, 58, 64, 0, 0, 0,
        ],
    }
}

/// The system program's address (all zero bytes).
pub open spec fn system_program() -> Pubkey {
    Pubkey {
        bytes: [
            0u8, 0, 0, 0, 0, 0, 0, 0, 0, 0, 0, 0, 0, 0, 0, 0, 0, 0, 0, 0, 0, 0, 0, 0, 0, 0, 0, 0, 0,
            0, 0, 0,
        ],
    }
}

/// The instruction that sets the compute-unit limit.
pub open spec fn unit_limit_view(limit: u32) -> InstructionView {
    InstructionView {
        program_id: compute_budget_program(),
        accounts: Seq::empty(),
        data: seq![2u8] + le_bytes(limit as nat, 4),
    }
}

/// The instruction that sets the compute-unit price.
pub open spec fn unit_price_view(price: u64) -> InstructionView {
    InstructionView {
        program_id: compute_budget_program(),
        accounts: Seq::empty(),
        data: seq![3u8] + le_bytes(price as nat, 8),
    }
}

/// The system transfer of `lamports` from `from` to `to`.
pub open spec fn transfer_view(from: Pubkey, to: Pubkey, lamports: u64) -> InstructionView {
    InstructionView {
        program_id: system_program(),
        accounts: seq![
            AccountMeta { pubkey: from, is_signer: true, is_writable: true },
            AccountMeta { pubkey: to, is_signer: false, is_writable: true },
        ],
        data: seq![2u8, 0u8, 0u8, 0u8] + le_bytes(lamports as nat, 8),
    }
}

/// The compute-budget instructions of a fee setting: limit first, then price.
pub open spec fn budget_prefix(fee: PriorityFee) -> Seq<InstructionView> {
    (match fee.limit {
        Some(l) => seq![unit_limit_view(l)],
        None => Seq::empty(),
    }) + (match fee.price {
        Some(p) => seq![unit_price_view(p)],
        None => Seq::empty(),
    })
}

/// The tip transfer that a provider of `kind` needs: one for tip relays,
/// none for plain RPC.
pub open spec fn tip_part(kind: ProviderKind, payer: Pubkey, tip_account: Pubkey, lamports: u64) -> Seq<
    InstructionView,
> {
    if kind.spec_requires_tip() {
        seq![transfer_view(payer, tip_account, lamports)]
    } else {
        Seq::empty()
    }
}

/// The instruction list of a provider's transaction variant.
pub open spec fn assembled(
    kind: ProviderKind,
    fee: PriorityFee,
    payer: Pubkey,
    tip_account: Pubkey,
    lamports: u64,
    trade: Seq<InstructionView>,
) -> Seq<InstructionView> {
    budget_prefix(fee) + tip_part(kind, payer, tip_account, lamports) + trade
}

/// Whether an instruction belongs to the compute-budget program.
pub open spec fn is_budget(i: InstructionView) -> bool {
    i.program_id == compute_budget_program()
}

/// Whether an instruction is a system transfer.
pub open spec fn is_transfer(i: InstructionView) -> bool {
    i.program_id == system_program() && i.data.len() == 12 && i.data[0] == 2u8 && i.data[1] == 0u8
        && i.data[2] == 0u8 && i.data[3] == 0u8
}

/// Builds the instruction that sets the compute-unit limit.
pub fn set_compute_unit_limit(limit: u32) -> (r: Instruction)
    ensures
        r@ == unit_limit_view(limit),
{
    let mut data: Vec<u8> = Vec::new();
    data.push(2u8);
    push_le(&mut data, limit as u64, 4);
    let r = Instruction { program_id: compute_budget_id(), accounts: Vec::new(), data };
    assert(r@.accounts =~= Seq::<AccountMeta>::empty());
    assert(r@.data =~= seq![2u8] + le_bytes(limit as nat, 4));
    r
}

/// Builds the instruction that sets the compute-unit price.
pub fn set_compute_unit_price(price: u64) -> (r: Instruction)
    ensures
        r@ == unit_price_view(price),
{
    let mut data: Vec<u8> = Vec::new();
    data.push(3u8);
    push_le(&mut data, price, 8);
    let r = Instruction { program_id: compute_budget_id(), accounts: Vec::new(), data };
    assert(r@.accounts =~= Seq::<AccountMeta>::empty());
    assert(r@.data =~= seq![3u8] + le_bytes(price as nat, 8));
    r
}

/// Builds the system transfer of `lamports` from `from` to `to`.
pub fn transfer(from: Pubkey, to: Pubkey, lamports: u64) -> (r: Instruction)
    ensures
        r@ == transfer_view(from, to, lamports),
{
    let mut data: Vec<u8> = Vec::new();
    data.push(2u8);
    data.push(0u8);
    data.push(0u8);
    data.push(0u8);
    push_le(&mut data, lamports, 8);
    let mut accounts: Vec<AccountMeta> = Vec::new();
    accounts.push(AccountMeta { pubkey: from, is_signer: true, is_writable: true });
    accounts.push(AccountMeta { pubkey: to, is_signer: false, is_writable: true });
    let r = Instruction { program_id: system_program_id(), accounts, data };
    assert(r@.data =~= seq![2u8, 0u8, 0u8, 0u8] + le_bytes(lamports as nat, 8));
    assert(r@.accounts =~= transfer_view(from, to, lamports).accounts);
    r
}

fn compute_budget_id() -> (r: Pubkey)
    ensures
        r == compute_budget_program(),
{
    let r = Pubkey {
        bytes: [
            3, 6, 70, 111, 229, 33, 23, 50, 255, 236, 173, 186, 114, 195, 155, 231, 188, 140,
            229, 187, 197, 247, 18, 107, 44, 67, 155, 58, 64, 0, 0, 0,
        ],
    };
    assert(r.bytes@ =~= compute_budget_program().bytes@);
    r
}

fn system_program_id() -> (r: Pubkey)
    ensures
        r == system_program(),
{
    let r = Pubkey {
        bytes: [
            0u8, 0, 0, 0, 0, 0, 0, 0, 0, 0, 0, 0, 0, 0, 0, 0, 0, 0, 0, 0, 0, 0, 0, 0, 0, 0, 0, 0, 0,
            0, 0, 0,
        ],
    };
    assert(r.bytes@ =~= system_program().bytes@);
    r
}

/// An owned copy of an instruction.
pub fn copy_instruction(i: &Instruction) -> (r: Instruction)
    ensures
        r@ == i@,
{
    let mut accounts: Vec<AccountMeta> = Vec::new();
    let mut k: usize = 0;
    while k < i.accounts.len()
        invariant
            k <= i.accounts@.len(),
            accounts@ =~= i.accounts@.subrange(0, k as int),
        decreases i.accounts@.len() - k,
    {
        accounts.push(i.accounts[k]);
        k = k + 1;
    }
    let mut data: Vec<u8> = Vec::new();
    let mut k: usize = 0;
    while k < i.data.len()
        invariant
            k <= i.data@.len(),
            data@ =~= i.data@.subrange(0, k as int),
        decreases i.data@.len() - k,
    {
        data.push(i.data[k]);
        k = k + 1;
    }
    assert(accounts@ =~= i.accounts@);
    assert(data@ =~= i.data@);
    Instruction { program_id: i.program_id, accounts, data }
}

/// Builds the compute-budget instructions of a fee setting.
pub fn budget_instructions(fee: PriorityFee) -> (r: Vec<Instruction>)
    ensures
        views(r@) == budget_prefix(fee),
{
    let mut r: Vec<Instruction> = Vec::new();
    if let Some(l) = fee.limit {
        r.push(set_compute_unit_limit(l));
    }
    if let Some(p) = fee.price {
        r.push(set_compute_unit_price(p));
    }
    assert(views(r@) =~= budget_prefix(fee));
    r
}

/// Builds a provider's instruction list from an owned copy of the trade
/// instructions: compute-budget instructions first, then (for tip relays
/// only) the transfer of `lamports` from `payer` to `tip_account`, then the
/// trade instructions in their order.
pub fn assemble_instructions(
    kind: ProviderKind,
    fee: PriorityFee,
    payer: Pubkey,
    tip_account: Pubkey,
    lamports: u64,
    trade: &Vec<Instruction>,
) -> (r: Vec<Instruction>)
    ensures
        views(r@) == assembled(kind, fee, payer, tip_account, lamports, views(trade@)),
{
    let mut r = budget_instructions(fee);
    let ghost head = views(r@);
    if kind.requires_tip() {
        r.push(transfer(payer, tip_account, lamports));
    }
    let ghost mid = views(r@);
    assert(mid =~= head + tip_part(kind, payer, tip_account, lamports));
    let mut k: usize = 0;
    while k < trade.len()
        invariant
            k <= trade@.len(),
            views(r@) =~= mid + views(trade@).subrange(0, k as int),
        decreases trade@.len() - k,
    {
        let c = copy_instruction(&trade[k]);
        let ghost before = r@;
        r.push(c);
        assert(views(r@) =~= views(before).push(c@));
        assert(views(trade@).subrange(0, k + 1) =~= views(trade@).subrange(0, k as int).push(
            trade@[k as int]@,
        ));
        k = k + 1;
    }
    assert(views(trade@).subrange(0, trade@.len() as int) =~= views(trade@));
    r
}

/// Whenever the fee setting carries both a limit and a price, the first two
/// instructions of every provider's variant, whatever its kind, are the
/// compute-budget instructions (limit, then price); in general the
/// compute-budget instructions present always open the list.
pub proof fn lemma_budget_instructions_lead(
    kind: ProviderKind,
    fee: PriorityFee,
    payer: Pubkey,
    tip_account: Pubkey,
    lamports: u64,
    trade: Seq<InstructionView>,
)
    ensures
        budget_prefix(fee).is_prefix_of(assembled(kind, fee, payer, tip_account, lamports, trade)),
        forall|i: int| 0 <= i < budget_prefix(fee).len() ==> is_budget(#[trigger] assembled(kind, fee, payer, tip_account, lamports, trade)[i]),
        fee.limit is Some && fee.price is Some ==> {
            let a = assembled(kind, fee, payer, tip_account, lamports, trade);
            &&& a[0] == unit_limit_view(fee.limit->Some_0)
            &&& a[1] == unit_price_view(fee.price->Some_0)
        },
{
    let a = assembled(kind, fee, payer, tip_account, lamports, trade);
    let p = budget_prefix(fee);
    assert(a.subrange(0, p.len() as int) =~= p);
    assert forall|i: int| 0 <= i < p.len() implies is_budget(#[trigger] a[i]) by {
        assert(a[i] == p[i]);
    }
}

/// Plain-RPC variants carry no tip transfer: just the compute-budget
/// instructions and the trade. Tip-relay variants carry exactly one, the
/// transfer to the chosen tip account, right after the compute-budget
/// instructions.
pub proof fn lemma_tip_only_for_relays(
    kind: ProviderKind,
    fee: PriorityFee,
    payer: Pubkey,
    tip_account: Pubkey,
    lamports: u64,
    trade: Seq<InstructionView>,
)
    ensures
        !kind.spec_requires_tip() ==> assembled(kind, fee, payer, tip_account, lamports, trade)
            == budget_prefix(fee) + trade,
        kind.spec_requires_tip() ==> {
            let a = assembled(kind, fee, payer, tip_account, lamports, trade);
            let n = budget_prefix(fee).len() as int;
            &&& a.len() == n + 1 + trade.len()
            &&& a[n] == transfer_view(payer, tip_account, lamports)
            &&& is_transfer(a[n])
            &&& a.subrange(n + 1, a.len() as int) == trade
        },
{
    let a = assembled(kind, fee, payer, tip_account, lamports, trade);
    let n = budget_prefix(fee).len() as int;
    if kind.spec_requires_tip() {
        assert(a.subrange(n + 1, a.len() as int) =~= trade);
        let d = seq![2u8, 0u8, 0u8, 0u8] + le_bytes(lamports as nat, 8);
        assert(d[0] == 2u8 && d[1] == 0u8 && d[2] == 0u8 && d[3] == 0u8);
    } else {
        assert(a =~= budget_prefix(fee) + trade);
    }
}

} // verus!
