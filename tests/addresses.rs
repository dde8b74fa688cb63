use sol_trade_sdk::assembler::{set_compute_unit_limit, Pubkey};
use sol_trade_sdk::codec::{format_pubkey_short, shorten};
use sol_trade_sdk::error::ProviderError;
use sol_trade_sdk::jito::TipAccountResult;
use sol_trade_sdk::provider::{ProviderDescriptor, ProviderKind};

#[test]
fn shortens_addresses_for_logs() {
    let budget = set_compute_unit_limit(1).program_id;
    assert_eq!(format_pubkey_short(&budget), "Comp...1111");
    assert_eq!(format_pubkey_short(&Pubkey { bytes: [0; 32] }), "1111...1111");
    assert_eq!(shorten("abcdefgh"), "abcdefgh");
    assert_eq!(shorten("abcdefghi"), "abcd...fghi");
}

#[test]
fn parses_tip_accounts_from_text() {
    let pool = vec![
        "ComputeBudget111111111111111111111111111111".to_string(),
        "11111111111111111111111111111111".to_string(),
    ];
    let d = ProviderDescriptor::from_text("https://e".to_string(), "t".to_string(), ProviderKind::Node1, &pool).unwrap();
    assert_eq!(d.tip_accounts.len(), 2);
    assert_eq!(d.tip_accounts[0], set_compute_unit_limit(1).program_id);
    assert_eq!(d.tip_accounts[1], Pubkey { bytes: [0; 32] });
    let bad = vec!["not-an-address".to_string()];
    let e = ProviderDescriptor::from_text("https://e".to_string(), "t".to_string(), ProviderKind::Node1, &bad);
    assert!(matches!(e, Err(ProviderError::Configuration(_))));
}

#[test]
fn reads_tip_account_lists() {
    let v: serde_json::Value = serde_json::from_str("{\"result\":[\"a\",\"b\"]}").unwrap();
    assert_eq!(TipAccountResult::from(v).unwrap().accounts, vec!["a".to_string(), "b".to_string()]);
    let v: serde_json::Value = serde_json::from_str("{\"result\":7}").unwrap();
    assert_eq!(TipAccountResult::from(v), Err("expected 'result' to be an array".to_string()));
    let v: serde_json::Value = serde_json::from_str("{\"result\":[\"a\",1]}").unwrap();
    assert_eq!(TipAccountResult::from(v), Err("expected every tip account to be a string".to_string()));
    assert_eq!(TipAccountResult::from_entries(Some(vec![])).unwrap().accounts.len(), 0);
}
