//! Caller-supplied start configuration and its validation.

use vstd::prelude::*;
use crate::text::str_eq;

verus! {

/// The transport over which the worker connects to the device.
#[derive(Clone, Copy, PartialEq, Eq, Structural, Debug)]
pub enum Connection {
    Wifi,
    Ble,
    Usb,
}

impl Connection {
    /// The textual form that the worker's command line accepts.
    pub open spec fn spec_arg(self) -> Seq<char> {
        match self {
            Connection::Wifi => "wifi"@,
            Connection::Ble => "ble"@,
            Connection::Usb => "usb"@,
        }
    }

    /// Executable counterpart of [`Connection::spec_arg`].
    pub fn as_arg(&self) -> (r: &'static str)
        ensures
            r@ == self.spec_arg(),
    {
        match self {
            Connection::Wifi => "wifi",
            Connection::Ble => "ble",
            Connection::Usb => "usb",
        }
    }

    /// Whether a string names a known connection kind.
    pub open spec fn spec_known(s: Seq<char>) -> bool {
        s == "wifi"@ || s == "ble"@ || s == "usb"@
    }

    /// Parses a connection name; unknown values are rejected before any
    /// process is spawned.
    pub fn parse(s: &str) -> (r: Option<Connection>)
        ensures
            s@ == "wifi"@ ==> r == Some(Connection::Wifi),
            s@ == "ble"@ ==> r == Some(Connection::Ble),
            s@ == "usb"@ ==> r == Some(Connection::Usb),
            r is None <==> !Self::spec_known(s@),
            r matches Some(c) ==> c.spec_arg() == s@,
    {
        proof {
            lemma_connection_names_distinct();
        }
        if str_eq(s, "wifi") {
            Some(Connection::Wifi)
        } else if str_eq(s, "ble") {
            Some(Connection::Ble)
        } else if str_eq(s, "usb") {
            Some(Connection::Usb)
        } else {
            None
        }
    }
}

/// An optional rate as the host hands it over. Rates travel as integer
/// millihertz so that the supervisor's rules stay over plain integers; the
/// host converts the caller's floating-point hertz before calling in, and
/// reports a value it could not convert (not finite, not positive, or out of
/// range) as `Unrepresentable`.
#[derive(Clone, Copy, PartialEq, Eq, Structural, Debug)]
pub enum RawRate {
    Absent,
    Unrepresentable,
    Millihertz(u64),
}

impl RawRate {
    /// An admissible optional rate: absent, or strictly positive.
    pub open spec fn spec_ok(self) -> bool {
        match self {
            RawRate::Absent => true,
            RawRate::Unrepresentable => false,
            RawRate::Millihertz(v) => v > 0,
        }
    }

    /// The validated optional rate in millihertz.
    pub open spec fn spec_value(self) -> Option<u64> {
        match self {
            RawRate::Absent => None,
            RawRate::Unrepresentable => None,
            RawRate::Millihertz(v) => Some(v),
        }
    }
}

/// A start request exactly as the caller phrased it, before validation.
pub struct StartRequest {
    pub connection: String,
    pub name: Option<String>,
    pub code: Option<String>,
    pub upsample: RawRate,
    pub rate_limit: RawRate,
}

/// A validated start configuration; only values of this type reach the
/// launcher. Rates are strictly positive millihertz.
pub struct StartConfig {
    pub connection: Connection,
    pub name: Option<String>,
    pub code: Option<String>,
    pub upsample_millihertz: Option<u64>,
    pub rate_limit_millihertz: Option<u64>,
}

impl StartConfig {
    /// The invariant every validated configuration satisfies.
    pub open spec fn wf(self) -> bool {
        &&& (self.upsample_millihertz matches Some(v) ==> v > 0)
        &&& (self.rate_limit_millihertz matches Some(v) ==> v > 0)
    }
}

/// Why a start request was rejected before any process was touched.
#[derive(Clone, Copy, PartialEq, Eq, Structural, Debug)]
pub enum ConfigError {
    UnknownConnection,
    NonPositiveUpsampleRate,
    NonPositiveRateLimit,
}

impl ConfigError {
    /// A descriptive message for the caller.
    pub fn message(&self) -> (r: &'static str)
        ensures
            *self == ConfigError::UnknownConnection ==> r@
                == "connection must be one of: wifi, ble, usb"@,
            *self == ConfigError::NonPositiveUpsampleRate ==> r@
                == "upsampleHz must be a positive finite number"@,
            *self == ConfigError::NonPositiveRateLimit ==> r@
                == "rateLimitHz must be a positive finite number"@,
    {
        match self {
            ConfigError::UnknownConnection => "connection must be one of: wifi, ble, usb",
            ConfigError::NonPositiveUpsampleRate => "upsampleHz must be a positive finite number",
            ConfigError::NonPositiveRateLimit => "rateLimitHz must be a positive finite number",
        }
    }
}

/// Validates a start request. Succeeds exactly when the connection name is
/// known and each present rate is strictly positive; the resulting
/// configuration carries the request's fields through unchanged.
pub fn validate(req: StartRequest) -> (r: Result<StartConfig, ConfigError>)
    ensures
        r matches Ok(cfg) ==> {
            &&& cfg.wf()
            &&& cfg.connection.spec_arg() == req.connection@
            &&& cfg.name == req.name
            &&& cfg.code == req.code
            &&& cfg.upsample_millihertz == req.upsample.spec_value()
            &&& cfg.rate_limit_millihertz == req.rate_limit.spec_value()
        },
        r is Ok <==> {
            &&& Connection::spec_known(req.connection@)
            &&& req.upsample.spec_ok()
            &&& req.rate_limit.spec_ok()
        },
        r == Err::<StartConfig, ConfigError>(ConfigError::UnknownConnection) <==> !Connection::spec_known(
            req.connection@,
        ),
        r == Err::<StartConfig, ConfigError>(ConfigError::NonPositiveUpsampleRate) <==> {
            &&& Connection::spec_known(req.connection@)
            &&& !req.upsample.spec_ok()
        },
        r == Err::<StartConfig, ConfigError>(ConfigError::NonPositiveRateLimit) <==> {
            &&& Connection::spec_known(req.connection@)
            &&& req.upsample.spec_ok()
            &&& !req.rate_limit.spec_ok()
        },
{
    let connection = match Connection::parse(req.connection.as_str()) {
        Some(c) => c,
        None => {
            return Err(ConfigError::UnknownConnection);
        },
    };
    let upsample_millihertz = match req.upsample {
        RawRate::Absent => None,
        RawRate::Unrepresentable => {
            return Err(ConfigError::NonPositiveUpsampleRate);
        },
        RawRate::Millihertz(v) => {
            if v == 0 {
                return Err(ConfigError::NonPositiveUpsampleRate);
            }
            Some(v)
        },
    };
    let rate_limit_millihertz = match req.rate_limit {
        RawRate::Absent => None,
        RawRate::Unrepresentable => {
            return Err(ConfigError::NonPositiveRateLimit);
        },
        RawRate::Millihertz(v) => {
            if v == 0 {
                return Err(ConfigError::NonPositiveRateLimit);
            }
            Some(v)
        },
    };
    Ok(StartConfig { connection, name: req.name, code: req.code, upsample_millihertz, rate_limit_millihertz })
}

/// The three connection names are pairwise distinct.
pub proof fn lemma_connection_names_distinct()
    ensures
        "wifi"@ != "ble"@,
        "wifi"@ != "usb"@,
        "ble"@ != "usb"@,
{
    reveal_strlit("wifi");
    reveal_strlit("ble");
    reveal_strlit("usb");
    assert("wifi"@.len() == 4);
    assert("ble"@.len() == 3);
    assert("usb"@.len() == 3);
    assert("ble"@[0] == 'b');
    assert("usb"@[0] == 'u');
}

} // verus!
