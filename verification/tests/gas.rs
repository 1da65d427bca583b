use lightdotso_api::gas::{
    ethereum_gas_endpoint, ethereum_gas_estimation, is_supported, ApiResponse, ApiResponseData,
    GasError, GasEstimation, GasEstimationParams, RequestError, RequestErrorKind,
    MAINNET_CHAIN_ID, SEPOLIA_CHAIN_ID,
};
use lightdotso_api::uint::U256;

fn quote(slow: u64, standard: u64, fast: u64, rapid: u64) -> Result<ApiResponse, RequestError> {
    Ok(ApiResponse { data: ApiResponseData { slow, standard, fast, rapid } })
}

#[test]
fn test_ethereum_gas_estimation() {
    // Test for mainnet
    let chain_id = 1;
    let result = ethereum_gas_estimation(chain_id, quote(21_000_000_000, 22, 23, 24));
    assert!(result.is_ok());
    let gas_estimation = result.unwrap();
    assert!(gas_estimation.low.max_priority_fee_per_gas > U256::from_u64(0));
    assert!(gas_estimation.low.max_fee_per_gas > U256::from_u64(0));
    assert!(gas_estimation.average.max_priority_fee_per_gas > U256::from_u64(0));
    assert!(gas_estimation.average.max_fee_per_gas > U256::from_u64(0));
    assert!(gas_estimation.high.max_priority_fee_per_gas > U256::from_u64(0));
    assert!(gas_estimation.high.max_fee_per_gas > U256::from_u64(0));
    assert!(gas_estimation.instant.max_priority_fee_per_gas > U256::from_u64(0));
    assert!(gas_estimation.instant.max_fee_per_gas > U256::from_u64(0));
}

#[test]
fn mainnet_endpoint() {
    assert_eq!(MAINNET_CHAIN_ID, 1);
    assert_eq!(
        ethereum_gas_endpoint(1),
        Ok("https://beaconcha.in/api/v1/execution/gasnow")
    );
}

#[test]
fn sepolia_endpoint() {
    assert_eq!(SEPOLIA_CHAIN_ID, 11155111);
    assert_eq!(
        ethereum_gas_endpoint(11155111),
        Ok("https://sepolia.beaconcha.in/api/v1/execution/gasnow")
    );
}

#[test]
fn unsupported_chain_has_no_endpoint() {
    for chain_id in [0u64, 2, 5, 137, 11155110, 11155112, u64::MAX] {
        assert!(!is_supported(chain_id));
        assert_eq!(ethereum_gas_endpoint(chain_id), Err(GasError::UnsupportedChain(chain_id)));
    }
    assert!(is_supported(1));
    assert!(is_supported(11155111));
}

#[test]
fn unsupported_chain_never_yields_an_estimation() {
    let with_quote = ethereum_gas_estimation(137, quote(1, 2, 3, 4));
    assert_eq!(with_quote, Err(GasError::UnsupportedChain(137)));
    let failure = RequestError { kind: RequestErrorKind::Transport, message: "down".to_string() };
    let with_failure = ethereum_gas_estimation(137, Err(failure));
    assert_eq!(with_failure, Err(GasError::UnsupportedChain(137)));
}

#[test]
fn tiers_take_the_provider_figures() {
    let g = ethereum_gas_estimation(1, quote(10, 20, 30, 40)).unwrap();
    let tier = |v: u128| GasEstimationParams {
        max_priority_fee_per_gas: U256 { hi: 0, lo: v },
        max_fee_per_gas: U256 { hi: 0, lo: v },
    };
    assert_eq!(
        g,
        GasEstimation { low: tier(10), average: tier(20), high: tier(30), instant: tier(40) }
    );
    assert_eq!(g.low.max_fee_per_gas.to_u64(), Some(10));
    assert_eq!(g.average.max_priority_fee_per_gas.to_u64(), Some(20));
    assert_eq!(g.high.max_fee_per_gas.to_u64(), Some(30));
    assert_eq!(g.instant.max_priority_fee_per_gas.to_u64(), Some(40));
}

#[test]
fn both_fees_of_a_tier_are_equal() {
    let g = ethereum_gas_estimation(11155111, quote(u64::MAX, 0, 7, 1)).unwrap();
    for tier in [g.low, g.average, g.high, g.instant] {
        assert_eq!(tier.max_priority_fee_per_gas, tier.max_fee_per_gas);
    }
    assert_eq!(g.low.max_fee_per_gas.to_u64(), Some(u64::MAX));
    assert!(g.average.max_fee_per_gas.is_zero());
}

#[test]
fn provider_order_is_kept() {
    let g = ethereum_gas_estimation(1, quote(1, 2, 3, 4)).unwrap();
    assert!(g.low.max_fee_per_gas.lt(&g.average.max_fee_per_gas));
    assert!(g.average.max_fee_per_gas.lt(&g.high.max_fee_per_gas));
    assert!(g.high.max_fee_per_gas.lt(&g.instant.max_fee_per_gas));
    // An unordered quote is kept as it came.
    let g = ethereum_gas_estimation(1, quote(9, 3, 5, 1)).unwrap();
    assert_eq!(g.low.max_fee_per_gas.to_u64(), Some(9));
    assert_eq!(g.average.max_fee_per_gas.to_u64(), Some(3));
    assert_eq!(g.high.max_fee_per_gas.to_u64(), Some(5));
    assert_eq!(g.instant.max_fee_per_gas.to_u64(), Some(1));
    assert!(g.average.max_fee_per_gas.lt(&g.low.max_fee_per_gas));
}

#[test]
fn from_quote_matches_the_fetch() {
    let data = ApiResponseData { slow: 5, standard: 6, fast: 7, rapid: 8 };
    let direct = GasEstimation::from(data);
    let fetched = ethereum_gas_estimation(1, Ok(ApiResponse { data })).unwrap();
    assert_eq!(direct, fetched);
    assert_eq!(direct.low, GasEstimationParams::from_value(5));
    assert_eq!(direct.instant, GasEstimationParams::from_value(8));
}

#[test]
fn request_failure_is_passed_on() {
    let transport =
        RequestError { kind: RequestErrorKind::Transport, message: "connection refused".to_string() };
    assert_eq!(
        ethereum_gas_estimation(1, Err(transport.clone())),
        Err(GasError::Request(transport))
    );
    let decode =
        RequestError { kind: RequestErrorKind::Decode, message: "missing field".to_string() };
    assert_eq!(
        ethereum_gas_estimation(11155111, Err(decode.clone())),
        Err(GasError::Request(decode))
    );
}

#[test]
fn u256_from_u64_keeps_the_value() {
    assert_eq!(U256::from_u64(0), U256::zero());
    assert!(U256::zero().is_zero());
    assert!(!U256::from_u64(1).is_zero());
    assert_eq!(U256::from_u64(42), U256 { hi: 0, lo: 42 });
    assert_eq!(U256::from_u64(u64::MAX).to_u64(), Some(u64::MAX));
}

#[test]
fn u256_beyond_64_bits() {
    assert_eq!(U256 { hi: 0, lo: 1u128 << 64 }.to_u64(), None);
    assert_eq!(U256 { hi: 1, lo: 0 }.to_u64(), None);
    assert!(!U256 { hi: 1, lo: 0 }.is_zero());
}

#[test]
fn u256_order_is_numeric() {
    let small = U256 { hi: 0, lo: u128::MAX };
    let large = U256 { hi: 1, lo: 0 };
    assert!(small.lt(&large));
    assert!(!large.lt(&small));
    assert!(!small.lt(&small));
    assert!(small < large);
    assert!(U256::from_u64(3).lt(&U256::from_u64(4)));
    assert!(U256::from_u64(3) < U256::from_u64(4));
}
