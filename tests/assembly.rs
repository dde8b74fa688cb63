use sol_trade_sdk::assembler::{
    message_format, MessageFormat, assemble_instructions, set_compute_unit_limit, set_compute_unit_price, transfer, AccountMeta,
    Instruction, PriorityFee, Pubkey,
};
use sol_trade_sdk::provider::{ProviderDescriptor, ProviderKind};
use sol_trade_sdk::race::prepare_slot_with_draw;
use sol_trade_sdk::tip_cache::TipCache;

const COMPUTE_BUDGET: [u8; 32] = [
    3, 6, 70, 111, 229, 33, 23, 50, 255, 236, 173, 186, 114, 195, 155, 231, 188, 140, 229, 187,
    197, 247, 18, 107, 44, 67, 155, 58, 64, 0, 0, 0,
];

fn key(b: u8) -> Pubkey {
    Pubkey { bytes: [b; 32] }
}

fn trade_instructions() -> Vec<Instruction> {
    vec![Instruction {
        program_id: key(9),
        accounts: vec![AccountMeta { pubkey: key(1), is_signer: true, is_writable: true }],
        data: vec![102, 6, 61, 18],
    }]
}

#[test]
fn compute_budget_instruction_bytes() {
    let limit = set_compute_unit_limit(68_000);
    assert_eq!(limit.program_id.bytes, COMPUTE_BUDGET);
    assert!(limit.accounts.is_empty());
    assert_eq!(limit.data, vec![2, 0xa0, 0x09, 0x01, 0x00]);
    let price = set_compute_unit_price(400_000);
    assert_eq!(price.program_id.bytes, COMPUTE_BUDGET);
    assert_eq!(price.data, vec![3, 0x80, 0x1a, 0x06, 0, 0, 0, 0, 0]);
}

#[test]
fn transfer_instruction_bytes() {
    let t = transfer(key(1), key(2), 1_000_000);
    assert_eq!(t.program_id.bytes, [0u8; 32]);
    assert_eq!(
        t.accounts,
        vec![
            AccountMeta { pubkey: key(1), is_signer: true, is_writable: true },
            AccountMeta { pubkey: key(2), is_signer: false, is_writable: true },
        ]
    );
    assert_eq!(t.data, vec![2, 0, 0, 0, 0x40, 0x42, 0x0f, 0, 0, 0, 0, 0]);
}

#[test]
fn budget_instructions_lead_every_kind() {
    let fee = PriorityFee { limit: Some(68_000), price: Some(400_000) };
    for kind in [ProviderKind::Rpc, ProviderKind::Nozomi, ProviderKind::Node1] {
        let v = assemble_instructions(kind, fee, key(1), key(5), 10, &trade_instructions());
        assert_eq!(v[0], set_compute_unit_limit(68_000));
        assert_eq!(v[1], set_compute_unit_price(400_000));
        assert_eq!(v.last().unwrap(), &trade_instructions()[0]);
    }
}

#[test]
fn absent_fee_parts_add_nothing() {
    let fee = PriorityFee { limit: None, price: Some(7) };
    let v = assemble_instructions(ProviderKind::Rpc, fee, key(1), key(5), 10, &trade_instructions());
    assert_eq!(v, vec![set_compute_unit_price(7), trade_instructions()[0].clone()]);
    let none = PriorityFee { limit: None, price: None };
    let v = assemble_instructions(ProviderKind::Rpc, none, key(1), key(5), 10, &trade_instructions());
    assert_eq!(v, trade_instructions());
}

#[test]
fn tip_transfer_only_for_tip_relays() {
    let fee = PriorityFee { limit: Some(1), price: Some(2) };
    let rpc = assemble_instructions(ProviderKind::Rpc, fee, key(1), key(5), 10, &trade_instructions());
    assert_eq!(rpc.len(), 3);
    assert!(rpc.iter().all(|i| i.program_id.bytes != [0u8; 32]));
    for kind in [ProviderKind::Nozomi, ProviderKind::Node1] {
        let v = assemble_instructions(kind, fee, key(1), key(5), 10, &trade_instructions());
        assert_eq!(v.len(), 4);
        assert_eq!(v[2], transfer(key(1), key(5), 10));
    }
}

#[test]
fn three_providers_share_budget_prefix_but_differ() {
    let fee = PriorityFee { limit: Some(68_000), price: Some(400_000) };
    let cache = TipCache::new(1_000_000, 0);
    let providers = vec![
        ProviderDescriptor::new("https://rpc".to_string(), String::new(), ProviderKind::Rpc, vec![]),
        ProviderDescriptor::new("https://nozomi".to_string(), "t".to_string(), ProviderKind::Nozomi, vec![key(20), key(21)]),
        ProviderDescriptor::new("https://node1".to_string(), "t".to_string(), ProviderKind::Node1, vec![key(30), key(31)]),
    ];
    let mut variants = Vec::new();
    for (i, p) in providers.iter().enumerate() {
        let v = prepare_slot_with_draw(i, p, fee, key(1), &trade_instructions(), &vec![], &cache, Some(1)).unwrap();
        variants.push(v);
    }
    for v in &variants {
        assert_eq!(v[0].data, vec![2, 0xa0, 0x09, 0x01, 0x00]);
        assert_eq!(v[1].data, vec![3, 0x80, 0x1a, 0x06, 0, 0, 0, 0, 0]);
        assert_eq!(v[0], variants[0][0]);
        assert_eq!(v[1], variants[0][1]);
    }
    assert_ne!(variants[0], variants[1]);
    assert_ne!(variants[0], variants[2]);
    assert_ne!(variants[1], variants[2]);
    assert_eq!(variants[1][2], transfer(key(1), key(21), 1_000_000));
    assert_eq!(variants[2][2], transfer(key(1), key(31), 1_000_000));

    // Compiled to messages, the three byte sequences differ while the
    // compute-budget instruction bytes they open with are the same.
    let payer = solana_sdk::pubkey::Pubkey::new_from_array(key(1).bytes);
    let mut messages = Vec::new();
    for v in &variants {
        let ixs: Vec<solana_sdk::instruction::Instruction> = v
            .iter()
            .map(|i| solana_sdk::instruction::Instruction {
                program_id: solana_sdk::pubkey::Pubkey::new_from_array(i.program_id.bytes),
                accounts: i
                    .accounts
                    .iter()
                    .map(|a| solana_sdk::instruction::AccountMeta {
                        pubkey: solana_sdk::pubkey::Pubkey::new_from_array(a.pubkey.bytes),
                        is_signer: a.is_signer,
                        is_writable: a.is_writable,
                    })
                    .collect(),
                data: i.data.clone(),
            })
            .collect();
        let m = solana_sdk::message::v0::Message::try_compile(&payer, &ixs, &[], solana_sdk::hash::Hash::default()).unwrap();
        assert_eq!(m.instructions[0].data, vec![2, 0xa0, 0x09, 0x01, 0x00]);
        assert_eq!(m.instructions[1].data, vec![3, 0x80, 0x1a, 0x06, 0, 0, 0, 0, 0]);
        messages.push(solana_sdk::message::VersionedMessage::V0(m).serialize());
    }
    assert_ne!(messages[0], messages[1]);
    assert_ne!(messages[0], messages[2]);
    assert_ne!(messages[1], messages[2]);
}

#[test]
fn plain_rpc_takes_legacy_path() {
    assert_eq!(message_format(ProviderKind::Rpc), MessageFormat::Legacy);
    assert_eq!(message_format(ProviderKind::Nozomi), MessageFormat::Versioned);
    assert_eq!(message_format(ProviderKind::Node1), MessageFormat::Versioned);
}
