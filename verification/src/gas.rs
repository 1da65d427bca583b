//! Gas estimation: the endpoint that serves a chain, and the conversion of a
//! provider's four-tier quote into an estimation.
//!
//! The HTTP round trip itself is the caller's: it asks
//! [`ethereum_gas_endpoint`] where to go, performs the request, and hands the
//! outcome to [`ethereum_gas_estimation`].

use vstd::prelude::*;
use vstd::std_specs::convert::FromSpecImpl;
use crate::uint::U256;

verus! {

/// Chain identifier of Ethereum mainnet.
pub const MAINNET_CHAIN_ID: u64 = 1;

/// Chain identifier of the Sepolia test network.
pub const SEPOLIA_CHAIN_ID: u64 = 11155111;

/// The fee fields of one speed tier, in fee-per-gas units.
#[derive(Clone, Copy, Debug, PartialEq, Eq, Structural)]
pub struct GasEstimationParams {
    pub max_priority_fee_per_gas: U256,
    pub max_fee_per_gas: U256,
}

/// Fee parameters for each of the four speed tiers.
#[derive(Clone, Copy, Debug, PartialEq, Eq, Structural)]
pub struct GasEstimation {
    pub low: GasEstimationParams,
    pub average: GasEstimationParams,
    pub high: GasEstimationParams,
    pub instant: GasEstimationParams,
}

/// The provider's quote, one price per tier.
#[derive(Clone, Copy, Debug, PartialEq, Eq, Structural)]
pub struct ApiResponseData {
    pub slow: u64,
    pub standard: u64,
    pub fast: u64,
    pub rapid: u64,
}

/// The provider's response envelope.
#[derive(Clone, Copy, Debug, PartialEq, Eq, Structural)]
pub struct ApiResponse {
    pub data: ApiResponseData,
}

/// How an outbound request failed.
#[derive(Clone, Copy, Debug, PartialEq, Eq, Structural)]
pub enum RequestErrorKind {
    /// The request did not complete.
    Transport,
    /// The body was not the expected JSON.
    Decode,
}

/// A failed outbound request, with the transport's own description of it.
#[derive(Clone, Debug, PartialEq, Eq)]
pub struct RequestError {
    pub kind: RequestErrorKind,
    pub message: String,
}

/// Why no estimation was produced.
#[derive(Clone, Debug, PartialEq, Eq)]
pub enum GasError {
    /// No provider is known for this chain identifier.
    UnsupportedChain(u64),
    /// The provider could not be reached or answered with something else.
    Request(RequestError),
}

/// Whether a provider is known for the chain.
pub open spec fn is_supported_chain(chain_id: u64) -> bool {
    chain_id == MAINNET_CHAIN_ID || chain_id == SEPOLIA_CHAIN_ID
}

/// The provider endpoint of a supported chain.
pub open spec fn endpoint_of(chain_id: u64) -> Seq<char>
    recommends
        is_supported_chain(chain_id),
{
    if chain_id == MAINNET_CHAIN_ID {
        "https://beaconcha.in/api/v1/execution/gasnow"@
    } else {
        "https://sepolia.beaconcha.in/api/v1/execution/gasnow"@
    }
}

/// The parameters of a tier quoted at `value`: both fees are that value.
pub open spec fn params_of(value: u64) -> GasEstimationParams {
    GasEstimationParams {
        max_priority_fee_per_gas: U256 { hi: 0, lo: value as u128 },
        max_fee_per_gas: U256 { hi: 0, lo: value as u128 },
    }
}

/// The estimation that a quote stands for: slow, standard, fast and rapid
/// become low, average, high and instant.
pub open spec fn estimation_of(data: ApiResponseData) -> GasEstimation {
    GasEstimation {
        low: params_of(data.slow),
        average: params_of(data.standard),
        high: params_of(data.fast),
        instant: params_of(data.rapid),
    }
}

/// What a fetch for `chain_id` amounts to, given how the request went.
pub open spec fn estimation_outcome(
    chain_id: u64,
    fetched: Result<ApiResponse, RequestError>,
) -> Result<GasEstimation, GasError> {
    if !is_supported_chain(chain_id) {
        Err(GasError::UnsupportedChain(chain_id))
    } else {
        match fetched {
            Ok(response) => Ok(estimation_of(response.data)),
            Err(e) => Err(GasError::Request(e)),
        }
    }
}

impl GasEstimationParams {
    /// The parameters of a tier quoted at `value`.
    pub fn from_value(value: u64) -> (r: Self)
        ensures
            r == params_of(value),
            r.max_priority_fee_per_gas@ == value as nat,
            r.max_fee_per_gas@ == value as nat,
    {
        GasEstimationParams {
            max_priority_fee_per_gas: U256::from_u64(value),
            max_fee_per_gas: U256::from_u64(value),
        }
    }
}

impl From<ApiResponseData> for GasEstimation {
    fn from(data: ApiResponseData) -> (r: Self) {
        GasEstimation {
            low: GasEstimationParams::from_value(data.slow),
            average: GasEstimationParams::from_value(data.standard),
            high: GasEstimationParams::from_value(data.fast),
            instant: GasEstimationParams::from_value(data.rapid),
        }
    }
}

impl FromSpecImpl<ApiResponseData> for GasEstimation {
    open spec fn obeys_from_spec() -> bool {
        true
    }

    open spec fn from_spec(data: ApiResponseData) -> Self {
        estimation_of(data)
    }
}

/// Whether a provider is known for the chain.
pub fn is_supported(chain_id: u64) -> (r: bool)
    ensures
        r == is_supported_chain(chain_id),
{
    chain_id == MAINNET_CHAIN_ID || chain_id == SEPOLIA_CHAIN_ID
}

/// The URL to fetch the quote for `chain_id` from. A chain without a
/// provider is reported, never answered with a default.
pub fn ethereum_gas_endpoint(chain_id: u64) -> (r: Result<&'static str, GasError>)
    ensures
        is_supported_chain(chain_id) ==> (r matches Ok(url) && url@ == endpoint_of(chain_id)),
        !is_supported_chain(chain_id) ==> r == Err::<&'static str, GasError>(
            GasError::UnsupportedChain(chain_id),
        ),
{
    if chain_id == MAINNET_CHAIN_ID {
        Ok("https://beaconcha.in/api/v1/execution/gasnow")
    } else if chain_id == SEPOLIA_CHAIN_ID {
        Ok("https://sepolia.beaconcha.in/api/v1/execution/gasnow")
    } else {
        Err(GasError::UnsupportedChain(chain_id))
    }
}

/// Finishes a fetch for `chain_id`: `fetched` is what the request to
/// [`ethereum_gas_endpoint`] came back with. A quote is converted tier by
/// tier, a failed request is passed on as it is, and an unsupported chain is
/// an error whatever `fetched` holds.
pub fn ethereum_gas_estimation(
    chain_id: u64,
    fetched: Result<ApiResponse, RequestError>,
) -> (r: Result<GasEstimation, GasError>)
    ensures
        r == estimation_outcome(chain_id, fetched),
        r is Ok <==> is_supported_chain(chain_id) && fetched is Ok,
{
    if !is_supported(chain_id) {
        return Err(GasError::UnsupportedChain(chain_id));
    }
    match fetched {
        Ok(response) => Ok(GasEstimation::from(response.data)),
        Err(e) => Err(GasError::Request(e)),
    }
}

/// For a supported chain and a delivered quote the estimation exists, each
/// tier's two fees are equal to each other and to the provider's figure for
/// that tier, and tiers are ordered as the provider ordered them.
pub proof fn lemma_estimation_follows_quote(chain_id: u64, response: ApiResponse)
    requires
        is_supported_chain(chain_id),
    ensures
        estimation_outcome(chain_id, Ok(response)) matches Ok(g) && {
            let d = response.data;
            &&& g.low.max_priority_fee_per_gas@ == d.slow
            &&& g.low.max_fee_per_gas@ == d.slow
            &&& g.average.max_priority_fee_per_gas@ == d.standard
            &&& g.average.max_fee_per_gas@ == d.standard
            &&& g.high.max_priority_fee_per_gas@ == d.fast
            &&& g.high.max_fee_per_gas@ == d.fast
            &&& g.instant.max_priority_fee_per_gas@ == d.rapid
            &&& g.instant.max_fee_per_gas@ == d.rapid
            &&& (d.slow <= d.standard <==> g.low.max_fee_per_gas@ <= g.average.max_fee_per_gas@)
            &&& (d.standard <= d.fast <==> g.average.max_fee_per_gas@ <= g.high.max_fee_per_gas@)
            &&& (d.fast <= d.rapid <==> g.high.max_fee_per_gas@ <= g.instant.max_fee_per_gas@)
        },
{
}

/// An unsupported chain never yields an estimation, and the error names the
/// chain that was asked for.
pub proof fn lemma_unsupported_chain_is_reported(
    chain_id: u64,
    fetched: Result<ApiResponse, RequestError>,
)
    requires
        !is_supported_chain(chain_id),
    ensures
        estimation_outcome(chain_id, fetched) == Err::<GasEstimation, GasError>(
            GasError::UnsupportedChain(chain_id),
        ),
{
}

} // verus!
