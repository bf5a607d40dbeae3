//! How requests to an RPC endpoint are limited.

use vstd::prelude::*;

verus! {

/// The average cost of a request, in the compute units that the rate is counted in.
pub const AVG_UNIT_COST: u64 = 1;

/// The layer in front of the HTTP transport.
#[derive(Clone, Copy, Debug, PartialEq, Eq)]
pub enum TransportPlan {
    /// Requests are sent as they come.
    Plain,
    /// At most this many requests are sent per second.
    Throttle { requests_per_second: u32 },
    /// Requests that the endpoint refuses for their rate are tried again after a while.
    RetryBackoff {
        max_retries: u32,
        /// The first waiting time, in milliseconds.
        initial_backoff: u64,
        compute_units_per_second: u64,
        avg_unit_cost: u64,
    },
}

/// Why there is no RPC client.
#[derive(Clone, Copy, Debug, PartialEq, Eq)]
pub enum RpcClientError<D> {
    /// The URL does not parse.
    InvalidUrl(D),
    /// Retries were asked for without a rate.
    RetriesWithoutRate,
}

/// The plan for a rate and a number of retries: with both, refused requests are retried, at first
/// after the time that one request takes at that rate; with a rate alone, requests are throttled.
pub open spec fn transport_plan(requests_per_second: Option<u32>, max_retries: Option<u32>) -> Option<
    TransportPlan,
> {
    match (requests_per_second, max_retries) {
        (Some(rate), Some(max_retries)) => Some(
            TransportPlan::RetryBackoff {
                max_retries,
                initial_backoff: (1000int / rate as int) as u64,
                compute_units_per_second: rate as u64,
                avg_unit_cost: AVG_UNIT_COST,
            },
        ),
        (Some(requests_per_second), None) => Some(TransportPlan::Throttle { requests_per_second }),
        (None, Some(_)) => None,
        (None, None) => Some(TransportPlan::Plain),
    }
}

/// The URL and the plan of an RPC client, given what parsing the URL gave.
///
/// An invalid URL is an error, and then retries without a rate are.
pub fn rpc_client<U, D>(
    url: Result<U, D>,
    requests_per_second: Option<u32>,
    max_retries: Option<u32>,
) -> (r: Result<(U, TransportPlan), RpcClientError<D>>)
    requires
        url is Ok ==> requests_per_second != Some(0u32),
    ensures
        match url {
            Err(e) => r == Err::<(U, TransportPlan), _>(RpcClientError::InvalidUrl(e)),
            Ok(url) => match transport_plan(requests_per_second, max_retries) {
                Some(plan) => r == Ok::<(U, TransportPlan), RpcClientError<D>>((url, plan)),
                None => r == Err::<(U, TransportPlan), _>(RpcClientError::<D>::RetriesWithoutRate),
            },
        },
{
    let url = match url {
        Ok(url) => url,
        Err(e) => {
            return Err(RpcClientError::InvalidUrl(e));
        },
    };
    match (requests_per_second, max_retries) {
        (Some(rate), Some(max_retries)) => {
            let plan = TransportPlan::RetryBackoff {
                max_retries,
                initial_backoff: 1000 / rate as u64,
                compute_units_per_second: rate as u64,
                avg_unit_cost: AVG_UNIT_COST,
            };
            Ok((url, plan))
        },
        (Some(requests_per_second), None) => Ok(
            (url, TransportPlan::Throttle { requests_per_second }),
        ),
        (None, Some(_)) => Err(RpcClientError::RetriesWithoutRate),
        (None, None) => Ok((url, TransportPlan::Plain)),
    }
}

/// There is no plan exactly for retries without a rate. The first waiting time is what one request
/// takes at the rate, rounded down to milliseconds.
pub proof fn law_first_backoff_is_one_request(requests_per_second: Option<u32>, max_retries: Option<u32>)
    requires
        requests_per_second != Some(0u32),
    ensures
        transport_plan(requests_per_second, max_retries) is None <==> requests_per_second is None
            && max_retries is Some,
        transport_plan(requests_per_second, max_retries) matches Some(
            TransportPlan::RetryBackoff { initial_backoff, compute_units_per_second, .. },
        ) ==> initial_backoff * compute_units_per_second <= 1000 < (initial_backoff + 1)
            * compute_units_per_second,
{
    if let (Some(rate), Some(_)) = (requests_per_second, max_retries) {
        let r = rate as int;
        let q: int = 1000int / r;
        assert(q * r <= 1000 < (q + 1) * r && q <= 1000) by (nonlinear_arith)
            requires
                r > 0,
                q == 1000int / r,
        ;
    }
}

/// With a rate and retries, refused requests are retried that often, and each request counts one
/// unit against the rate. With a rate alone, requests are throttled to it. With neither, they are
/// sent as they come.
pub proof fn law_plan_keeps_to_the_rate(rate: u32, retries: u32)
    requires
        rate != 0,
    ensures
        transport_plan(Some(rate), Some(retries)) matches Some(
            TransportPlan::RetryBackoff {
                max_retries,
                initial_backoff,
                compute_units_per_second,
                avg_unit_cost,
            },
        ) && max_retries == retries && compute_units_per_second == rate && avg_unit_cost == 1
            && initial_backoff * rate <= 1000 < (initial_backoff + 1) * rate,
        transport_plan(Some(rate), None) == Some(
            TransportPlan::Throttle { requests_per_second: rate },
        ),
        transport_plan(None, None) == Some(TransportPlan::Plain),
        transport_plan(None, Some(retries)) is None,
{
    law_first_backoff_is_one_request(Some(rate), Some(retries));
}

} // verus!
