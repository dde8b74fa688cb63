//! Constant-product quote for a launch-pool buy, after fees and slippage.
use vstd::prelude::*;

verus! {

/// The fee of `rate` basis points on `amount`, rounded down.
pub open spec fn fee_of(amount: int, rate: int) -> int {
    amount * rate / 10000
}

/// The input left after the three fees.
pub open spec fn net_input(amount_in: int, protocol: int, platform: int, share: int) -> int {
    amount_in - fee_of(amount_in, protocol) - fee_of(amount_in, platform) - fee_of(amount_in, share)
}

/// The constant-product output before slippage.
pub open spec fn gross_output(net: int, virtual_base: int, virtual_quote: int, real_base: int, real_quote: int) -> int {
    net * (virtual_base - real_base) / (virtual_quote + real_quote + net)
}

/// The output less the slippage allowance of `slippage` basis points.
pub open spec fn after_slippage(out: int, slippage: int) -> int {
    out - out * slippage / 10000
}

/// Whether every step of the quote stays within `u128` and the pool is
/// well-formed: the fees do not exceed the input, the real base does not
/// exceed the virtual base, the denominator is positive and the slippage
/// allowance does not exceed the output.
pub open spec fn quote_defined(
    amount_in: u64,
    protocol_fee_rate: u128,
    platform_fee_rate: u128,
    share_fee_rate: u128,
    virtual_base: u128,
    virtual_quote: u128,
    real_base_before: u128,
    real_quote_before: u128,
    slippage_basis_points: u128,
) -> bool {
    let a = amount_in as int;
    let net = net_input(a, protocol_fee_rate as int, platform_fee_rate as int, share_fee_rate as int);
    let out = gross_output(
        net,
        virtual_base as int,
        virtual_quote as int,
        real_base_before as int,
        real_quote_before as int,
    );
    &&& a * protocol_fee_rate <= u128::MAX
    &&& a * platform_fee_rate <= u128::MAX
    &&& a * share_fee_rate <= u128::MAX
    &&& net >= 0
    &&& virtual_quote + real_quote_before <= u128::MAX
    &&& real_base_before <= virtual_base
    &&& net * (virtual_base - real_base_before) <= u128::MAX
    &&& virtual_quote + real_quote_before + net <= u128::MAX
    &&& virtual_quote + real_quote_before + net > 0
    &&& out * slippage_basis_points <= u128::MAX
    &&& out * slippage_basis_points / 10000 <= out
}

/// The tokens a buy of `amount_in` receives: the input less its protocol,
/// platform and share fees (each in basis points) is swapped against the
/// pool's virtual-plus-real reserves by the constant-product rule, and the
/// slippage allowance is taken off; the result is cut to 64 bits.
pub fn get_amount_out(
    amount_in: u64,
    protocol_fee_rate: u128,
    platform_fee_rate: u128,
    share_fee_rate: u128,
    virtual_base: u128,
    virtual_quote: u128,
    real_base_before: u128,
    real_quote_before: u128,
    slippage_basis_points: u128,
) -> (r: u64)
    requires
        quote_defined(
            amount_in,
            protocol_fee_rate,
            platform_fee_rate,
            share_fee_rate,
            virtual_base,
            virtual_quote,
            real_base_before,
            real_quote_before,
            slippage_basis_points,
        ),
    ensures
        r as int == after_slippage(
            gross_output(
                net_input(amount_in as int, protocol_fee_rate as int, platform_fee_rate as int, share_fee_rate as int),
                virtual_base as int,
                virtual_quote as int,
                real_base_before as int,
                real_quote_before as int,
            ),
            slippage_basis_points as int,
        ) % 0x1_0000_0000_0000_0000,
{
    let a = amount_in as u128;
    let protocol_fee = a * protocol_fee_rate / 10000;
    let platform_fee = a * platform_fee_rate / 10000;
    let share_fee = a * share_fee_rate / 10000;
    assert(protocol_fee as int == fee_of(a as int, protocol_fee_rate as int));
    let net = a - protocol_fee - platform_fee - share_fee;
    let input_reserve = virtual_quote + real_quote_before;
    let output_reserve = virtual_base - real_base_before;
    let numerator = net * output_reserve;
    let denominator = input_reserve + net;
    let gross = numerator / denominator;
    let out = gross - gross * slippage_basis_points / 10000;
    (out % 0x1_0000_0000_0000_0000u128) as u64
}

} // verus!
