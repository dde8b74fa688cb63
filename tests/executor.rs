use sol_trade_sdk::error::ProviderError;
use sol_trade_sdk::executor::{require_rpc, GenericTradeExecutor};
use sol_trade_sdk::timer::TradeTimer;

#[test]
fn executor_keeps_its_protocol_name() {
    let e = GenericTradeExecutor::new(5u8, "PumpSwap");
    assert_eq!(e.protocol_name(), "PumpSwap");
    assert_eq!(e.instruction_builder, 5u8);
}

#[test]
fn missing_rpc_is_configuration_error() {
    assert_eq!(require_rpc(Some(3)), Ok(3));
    assert_eq!(require_rpc::<u8>(None), Err(ProviderError::Configuration("RPC is not set".to_string())));
}

#[test]
fn timer_reports_stages() {
    let mut t = TradeTimer::new("build".to_string());
    let (ended, _) = t.stage("send".to_string());
    assert_eq!(ended, "build");
    assert_eq!(t.stage, "send");
    let _ = t.elapsed();
    let (last, _) = t.finish();
    assert_eq!(last, "send");
}
