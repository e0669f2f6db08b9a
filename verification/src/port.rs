//! The port of the external controller: the strategy that the settings
//! declare and the port it resolves to before each start.

use crate::text::{
    parse_u16, push_decimal, rfind_char, spec_decimal, spec_parse_u16, spec_rfind, to_chars,
};
use vstd::prelude::*;
use vstd::string::StringExecFns;

verus! {

/// How the port of the external controller is chosen.
#[derive(Debug, Clone, Copy, PartialEq, Eq, Structural)]
pub enum ExternalControllerPortStrategy {
    /// The configured port or none.
    Fixed,
    /// A free port that the operating system picks.
    Random,
    /// The configured port if it is free, else a free port that the
    /// operating system picks.
    AllowFallback,
}

/// The strategies that the settings attach to the core configuration.
#[derive(Debug, Clone, Copy, PartialEq, Eq, Structural)]
pub struct ClashStrategy {
    pub external_controller_port_strategy: ExternalControllerPortStrategy,
}

/// Why no port was resolved.
#[derive(Debug, Clone, Copy, PartialEq, Eq, Structural)]
pub enum PortError {
    /// The configured port is taken and the strategy allows no other.
    Unavailable(u16),
    /// The operating system had no free port to give.
    NoOpenPort,
}

impl Default for ExternalControllerPortStrategy {
    fn default() -> (strategy: ExternalControllerPortStrategy)
        ensures
            strategy == ExternalControllerPortStrategy::AllowFallback,
    {
        ExternalControllerPortStrategy::AllowFallback
    }
}

impl Default for ClashStrategy {
    fn default() -> (strategy: ClashStrategy)
        ensures
            strategy.external_controller_port_strategy
                == ExternalControllerPortStrategy::AllowFallback,
    {
        ClashStrategy {
            external_controller_port_strategy: ExternalControllerPortStrategy::AllowFallback,
        }
    }
}

impl PortError {
    pub open spec fn spec_message(self) -> Seq<char> {
        match self {
            PortError::Unavailable(port) => "Port "@ + spec_decimal(port as nat)
                + " is not available"@,
            PortError::NoOpenPort => "Can't find an open port"@,
        }
    }

    /// The error in words.
    pub fn message(&self) -> (text: String)
        ensures
            text@ == self.spec_message(),
    {
        match self {
            PortError::Unavailable(port) => {
                let mut text = String::from_str("Port ");
                push_decimal(&mut text, *port as u64);
                text.append(" is not available");
                text
            },
            PortError::NoOpenPort => String::from_str("Can't find an open port"),
        }
    }
}

/// The port of a controller address such as `127.0.0.1:9090`: the number
/// behind the last colon.
pub open spec fn spec_controller_port(server: Seq<char>) -> Option<u16> {
    match spec_rfind(server, ':') {
        Some(at) => spec_parse_u16(server.skip(at + 1)),
        None => None,
    }
}

/// A controller address with another port: the port takes the place of
/// what stands behind the last colon, or is added where there is none.
pub open spec fn spec_with_port(server: Seq<char>, port: u16) -> Seq<char> {
    let host = match spec_rfind(server, ':') {
        Some(at) => server.take(at),
        None => server,
    };
    host + ":"@ + spec_decimal(port as nat)
}

/// The port of a controller address, where the address names one.
pub fn controller_port(server: &str) -> (port: Option<u16>)
    ensures
        port == spec_controller_port(server@),
{
    let chars = to_chars(server);
    let total = chars.len();
    match rfind_char(&chars, ':') {
        Some(at) => {
            let tail = server.substring_char(at + 1, total);
            proof {
                assert(server@.subrange(at + 1, total as int) =~= server@.skip(at + 1));
            }
            parse_u16(tail)
        },
        None => None,
    }
}

/// A controller address with another port.
pub fn with_port(server: &str, port: u16) -> (address: String)
    ensures
        address@ == spec_with_port(server@, port),
{
    let chars = to_chars(server);
    let mut address = match rfind_char(&chars, ':') {
        Some(at) => {
            proof {
                assert(server@.subrange(0, at as int) =~= server@.take(at as int));
            }
            String::from_str(server.substring_char(0, at))
        },
        None => String::from_str(server),
    };
    address.append(":");
    push_decimal(&mut address, port as u64);
    address
}

/// The port that a strategy resolves to, given whether the configured port
/// is free and what the operating system offers as a free port.
pub open spec fn spec_resolve_port(
    strategy: ExternalControllerPortStrategy,
    port: u16,
    available: bool,
    open: Option<u16>,
) -> Result<u16, PortError> {
    match strategy {
        ExternalControllerPortStrategy::Fixed => if available {
            Ok(port)
        } else {
            Err(PortError::Unavailable(port))
        },
        ExternalControllerPortStrategy::Random => match open {
            Some(open) => Ok(open),
            None => Err(PortError::NoOpenPort),
        },
        ExternalControllerPortStrategy::AllowFallback => if available {
            Ok(port)
        } else {
            match open {
                Some(open) => Ok(open),
                None => Err(PortError::NoOpenPort),
            }
        },
    }
}

/// Resolves the port from what was found out about the machine.
pub fn resolve_port(
    strategy: &ExternalControllerPortStrategy,
    port: u16,
    available: bool,
    open: Option<u16>,
) -> (resolved: Result<u16, PortError>)
    ensures
        resolved == spec_resolve_port(*strategy, port, available, open),
{
    match strategy {
        ExternalControllerPortStrategy::Fixed => if available {
            Ok(port)
        } else {
            Err(PortError::Unavailable(port))
        },
        ExternalControllerPortStrategy::Random => match open {
            Some(open) => Ok(open),
            None => Err(PortError::NoOpenPort),
        },
        ExternalControllerPortStrategy::AllowFallback => if available {
            Ok(port)
        } else {
            match open {
                Some(open) => Ok(open),
                None => Err(PortError::NoOpenPort),
            }
        },
    }
}

/// `port_scanner::local_port_available`: whether a listener can be bound to
/// the port on the loopback address right now. Nothing is claimed of the
/// answer.
#[verifier::external_body]
fn local_port_available(port: u16) -> (free: bool) {
    port_scanner::local_port_available(port)
}

/// `port_scanner::request_open_port`: a port that the operating system just
/// gave to a listener on any address, if it gave one. Nothing is claimed of
/// the answer.
#[verifier::external_body]
fn request_open_port() -> (port: Option<u16>) {
    port_scanner::request_open_port()
}

/// Resolves the port of the external controller on this machine. The
/// machine is asked only what the strategy needs to know; the result is what
/// the strategy makes of the machine's answers.
pub fn get_clash_external_port(strategy: &ExternalControllerPortStrategy, port: u16) -> (resolved:
    Result<u16, PortError>)
    ensures
        exists|available: bool, open: Option<u16>|
            resolved == spec_resolve_port(*strategy, port, available, open),
        *strategy == ExternalControllerPortStrategy::Fixed ==> resolved == Ok::<u16, PortError>(port)
            || resolved == Err::<u16, PortError>(PortError::Unavailable(port)),
        !(*strategy == ExternalControllerPortStrategy::Fixed) ==> resolved is Ok || resolved
            == Err::<u16, PortError>(PortError::NoOpenPort),
{
    match strategy {
        ExternalControllerPortStrategy::Fixed => {
            let available = local_port_available(port);
            let resolved = resolve_port(strategy, port, available, None);
            assert(resolved == spec_resolve_port(*strategy, port, available, None));
            resolved
        },
        ExternalControllerPortStrategy::Random => {
            let open = request_open_port();
            let resolved = resolve_port(strategy, port, false, open);
            assert(resolved == spec_resolve_port(*strategy, port, false, open));
            resolved
        },
        ExternalControllerPortStrategy::AllowFallback => {
            if local_port_available(port) {
                let resolved = resolve_port(strategy, port, true, None);
                assert(resolved == spec_resolve_port(*strategy, port, true, None));
                resolved
            } else {
                let open = request_open_port();
                let resolved = resolve_port(strategy, port, false, open);
                assert(resolved == spec_resolve_port(*strategy, port, false, open));
                resolved
            }
        },
    }
}

/// With the configured port taken, `Fixed` fails and the other strategies
/// resolve to the port that the operating system offers. With the configured
/// port free, `Fixed` and `AllowFallback` keep it. `Random` never looks at
/// the configured port.
pub proof fn port_strategy_outcomes(port: u16, free: u16, open: Option<u16>, available: bool)
    ensures
        spec_resolve_port(ExternalControllerPortStrategy::Fixed, port, false, open) == Err::<
            u16,
            PortError,
        >(PortError::Unavailable(port)),
        spec_resolve_port(ExternalControllerPortStrategy::Random, port, available, Some(free))
            == Ok::<u16, PortError>(free),
        spec_resolve_port(ExternalControllerPortStrategy::AllowFallback, port, false, Some(free))
            == Ok::<u16, PortError>(free),
        spec_resolve_port(ExternalControllerPortStrategy::AllowFallback, port, true, open) == Ok::<
            u16,
            PortError,
        >(port),
        spec_resolve_port(ExternalControllerPortStrategy::Fixed, port, true, open) == Ok::<
            u16,
            PortError,
        >(port),
        spec_resolve_port(ExternalControllerPortStrategy::Random, port, available, open)
            == spec_resolve_port(ExternalControllerPortStrategy::Random, 0, !available, open),
{
}

} // verus!
