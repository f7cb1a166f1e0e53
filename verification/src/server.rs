//! Start-up of the REST server: what is made of the configuration before a
//! socket is bound. A configuration that cannot be served is refused here,
//! so that the server does not start on it.

use crate::admission::{Admission, AdmissionView, ConcurrencyView, RateView};
use crate::error::GatewayError;
use vstd::prelude::*;
use vstd::string::{StringExecFns, StringSliceAdditionalSpecFns};
use vstd::utf8::encode_utf8;

verus! {

/// Length of the rate limiter's window in milliseconds: limits are per second.
pub const RATE_WINDOW_MS: u64 = 1000;

/// What the REST server is configured with.
#[derive(Debug)]
pub struct Config {
    /// Port to bind to.
    pub docker_port_rest: u16,
    /// The one origin that cross-origin requests may come from.
    pub rest_cors_allowed_origin: String,
    /// Requests admitted per second, over the whole service.
    pub rest_request_limit_per_second: u8,
    /// Requests in flight at once, over the whole service.
    pub rest_concurrency_limit_per_service: u8,
    /// Secret that tokens are signed with; `None` where it is not set.
    pub jwt_secret: Option<String>,
}

/// What the server runs with once its configuration has been accepted.
pub struct ServerPlan {
    /// Address to bind to, all interfaces.
    pub bind_address: String,
    /// The admission stages.
    pub admission: Admission,
    /// Secret that tokens are signed with.
    pub jwt_secret: String,
}

/// The character of a decimal digit.
pub open spec fn digit_spec(d: nat) -> char {
    if d == 0 {
        '0'
    } else if d == 1 {
        '1'
    } else if d == 2 {
        '2'
    } else if d == 3 {
        '3'
    } else if d == 4 {
        '4'
    } else if d == 5 {
        '5'
    } else if d == 6 {
        '6'
    } else if d == 7 {
        '7'
    } else if d == 8 {
        '8'
    } else {
        '9'
    }
}

/// A number in decimal, without leading zeros.
pub open spec fn decimal_spec(n: nat) -> Seq<char>
    decreases n,
{
    if n < 10 {
        seq![digit_spec(n)]
    } else {
        decimal_spec(n / 10).push(digit_spec(n % 10))
    }
}

/// Whether a byte may stand in the value of a header: anything but a control
/// character, the tab excepted. (This is the rule by which the `http` crate's
/// `HeaderValue::from_str` accepts a value.)
pub open spec fn header_byte(b: u8) -> bool {
    b >= 32 && b != 127 || b == 9
}

/// Whether a text can be the value of a header.
pub open spec fn header_value(bytes: Seq<u8>) -> bool {
    forall|i: int| 0 <= i < bytes.len() ==> header_byte(#[trigger] bytes[i])
}

/// Whether a configuration can be served: the allowed origin can be sent in
/// a header, neither limit is zero and the signing secret is set.
pub open spec fn servable(config: Config) -> bool {
    &&& header_value(encode_utf8(config.rest_cors_allowed_origin@))
    &&& config.rest_request_limit_per_second > 0
    &&& config.rest_concurrency_limit_per_service > 0
    &&& config.jwt_secret is Some
}

/// The address that the server binds to: the given port on all interfaces.
pub open spec fn bind_address_spec(port: u16) -> Seq<char> {
    "[::]:"@ + decimal_spec(port as nat)
}

/// The word of a decimal digit.
fn digit(d: u64) -> (r: &'static str)
    requires
        d < 10,
    ensures
        r@ == seq![digit_spec(d as nat)],
{
    proof {
        reveal_strlit("0");
        reveal_strlit("1");
        reveal_strlit("2");
        reveal_strlit("3");
        reveal_strlit("4");
        reveal_strlit("5");
        reveal_strlit("6");
        reveal_strlit("7");
        reveal_strlit("8");
        reveal_strlit("9");
    }
    let r = if d == 0 {
        "0"
    } else if d == 1 {
        "1"
    } else if d == 2 {
        "2"
    } else if d == 3 {
        "3"
    } else if d == 4 {
        "4"
    } else if d == 5 {
        "5"
    } else if d == 6 {
        "6"
    } else if d == 7 {
        "7"
    } else if d == 8 {
        "8"
    } else {
        "9"
    };
    assert(r@ =~= seq![digit_spec(d as nat)]);
    r
}

/// Writes a number in decimal.
pub fn decimal(n: u64) -> (r: String)
    ensures
        r@ == decimal_spec(n as nat),
    decreases n,
{
    if n < 10 {
        digit(n).to_owned()
    } else {
        let mut text = decimal(n / 10);
        text.append(digit(n % 10));
        text
    }
}

/// Whether a text can be the value of a header.
pub fn is_header_value(text: &str) -> (r: bool)
    ensures
        r == header_value(text.spec_bytes()),
{
    let bytes = text.as_bytes();
    let mut i: usize = 0;
    while i < bytes.len()
        invariant
            i <= bytes@.len(),
            bytes@ == text.spec_bytes(),
            forall|j: int| 0 <= j < i ==> header_byte(#[trigger] bytes@[j]),
        decreases bytes@.len() - i,
    {
        let b = bytes[i];
        if !(b >= 32 && b != 127 || b == 9) {
            assert(!header_byte(bytes@[i as int]));
            return false;
        }
        i += 1;
    }
    true
}

impl ServerPlan {
    /// Accepts a configuration, or refuses it with `ConfigError`.
    ///
    /// An accepted configuration gives the bind address of its port, fresh
    /// admission stages with its limits per second, and its secret.
    pub fn new(config: &Config) -> (r: Result<ServerPlan, GatewayError>)
        ensures
            match r {
                Ok(plan) => {
                    &&& servable(*config)
                    &&& plan.bind_address@ == bind_address_spec(config.docker_port_rest)
                    &&& plan.jwt_secret@ == config.jwt_secret->Some_0@
                    &&& plan.admission@ == AdmissionView {
                        allowed_origin: config.rest_cors_allowed_origin@,
                        concurrency: ConcurrencyView {
                            limit: config.rest_concurrency_limit_per_service as nat,
                            in_flight: 0,
                        },
                        rate: RateView {
                            rate: config.rest_request_limit_per_second as nat,
                            per: RATE_WINDOW_MS as nat,
                            window: None,
                            used: 0,
                        },
                    }
                },
                Err(e) => e == GatewayError::ConfigError && !servable(*config),
            },
    {
        if !is_header_value(config.rest_cors_allowed_origin.as_str()) {
            return Err(GatewayError::ConfigError);
        }
        let Some(secret) = &config.jwt_secret else {
            return Err(GatewayError::ConfigError);
        };
        let admission = match Admission::new(
            config.rest_cors_allowed_origin.clone(),
            config.rest_concurrency_limit_per_service as usize,
            config.rest_request_limit_per_second as u64,
            RATE_WINDOW_MS,
        ) {
            Ok(admission) => admission,
            Err(e) => {
                return Err(e);
            },
        };
        let mut bind_address = String::from_str("[::]:");
        bind_address.append(decimal(config.docker_port_rest as u64).as_str());
        Ok(ServerPlan { bind_address, admission, jwt_secret: secret.clone() })
    }
}

} // verus!
