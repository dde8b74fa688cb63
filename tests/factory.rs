use sol_trade_sdk::factory::{EventParserFactory, Protocol};

#[test]
fn supports_pumpswap_only() {
    assert_eq!(EventParserFactory::supported_protocols(), vec![Protocol::PumpSwap]);
    assert!(EventParserFactory::is_supported(&Protocol::PumpSwap));
    assert!(!EventParserFactory::is_supported(&Protocol::PumpFun));
    assert!(!EventParserFactory::is_supported(&Protocol::Bonk));
    let parsers = EventParserFactory::create_all_parsers();
    assert_eq!(parsers.len(), 1);
    assert_eq!(parsers[0].protocol, Protocol::PumpSwap);
    assert_eq!(EventParserFactory::create_parser(Protocol::Bonk).protocol, Protocol::Bonk);
}

#[test]
fn names_and_parses_protocols() {
    assert_eq!(Protocol::RaydiumCpmm.name(), "RaydiumCpmm");
    assert_eq!(Protocol::from_name("PumpSwap"), Ok(Protocol::PumpSwap));
    assert_eq!(Protocol::from_name("BONK"), Ok(Protocol::Bonk));
    assert_eq!(Protocol::from_name("raydiumCPMM"), Ok(Protocol::RaydiumCpmm));
    assert_eq!(
        Protocol::from_name("Orca"),
        Err("Unsupported protocol: Orca".to_string())
    );
}

#[test]
fn program_ids_are_distinct() {
    let ids: Vec<_> = [Protocol::PumpSwap, Protocol::PumpFun, Protocol::Bonk, Protocol::RaydiumCpmm]
        .iter()
        .map(|p| p.get_program_id())
        .collect();
    for i in 0..ids.len() {
        assert_eq!(ids[i].len(), 1);
        for j in 0..i {
            assert_ne!(ids[i], ids[j]);
        }
    }
}
