use vstd::prelude::*;

verus! {

/// Port of the echo listener; the proxy forwards to it.
pub const ECHO_PORT: u16 = 2000;

/// Port of the proxy listener.
pub const PROXY_PORT: u16 = 8000;

/// Delay after which an upstream connect that has not completed is abandoned.
pub const CONNECT_TIMEOUT_MS: u64 = 250;

/// The two ways a process can serve its connections.
#[derive(Clone, Copy, Debug, PartialEq, Eq, Structural)]
pub enum Mode {
    /// Every connection gets its own bytes back.
    Echo,
    /// Every connection is forwarded to the fixed upstream address.
    Proxy,
}

/// The subcommands a process can be started with.
#[derive(Clone, Copy, Debug, PartialEq, Eq, Structural)]
pub enum Command {
    Echo,
}

/// An IPv4 socket address.
#[derive(Clone, Copy, Debug)]
pub struct Endpoint {
    pub ip: [u8; 4],
    pub port: u16,
}

pub open spec fn is_loopback(e: Endpoint) -> bool {
    e.ip@ == seq![127u8, 0u8, 0u8, 1u8]
}

/// The mode that a process runs in: echo only when asked for, proxy otherwise.
pub fn select_mode(command: Option<Command>) -> (r: Mode)
    ensures
        r == (match command {
            Some(Command::Echo) => Mode::Echo,
            None => Mode::Proxy,
        }),
{
    match command {
        Some(Command::Echo) => Mode::Echo,
        None => Mode::Proxy,
    }
}

pub open spec fn listen_port(mode: Mode) -> u16 {
    match mode {
        Mode::Echo => ECHO_PORT,
        Mode::Proxy => PROXY_PORT,
    }
}

/// The local address that every shard of a process in `mode` binds to.
pub fn listen_endpoint(mode: Mode) -> (r: Endpoint)
    ensures
        is_loopback(r),
        r.port == listen_port(mode),
{
    let port: u16 = match mode {
        Mode::Echo => ECHO_PORT,
        Mode::Proxy => PROXY_PORT,
    };
    Endpoint { ip: [127u8, 0u8, 0u8, 1u8], port }
}

/// The address that the proxy forwards to: the echo listener's.
pub fn upstream_endpoint() -> (r: Endpoint)
    ensures
        is_loopback(r),
        r.port == listen_port(Mode::Echo),
{
    Endpoint { ip: [127u8, 0u8, 0u8, 1u8], port: ECHO_PORT }
}

pub open spec fn at_least_one(n: usize) -> usize {
    if n == 0 { 1 } else { n }
}

pub open spec fn shard_count_spec(requested: Option<usize>, detected: Option<usize>) -> usize {
    match requested {
        Some(n) => at_least_one(n),
        None => match detected {
            Some(d) => at_least_one(d),
            None => 1,
        },
    }
}

/// How many shards to run: the count asked for, else the parallelism that
/// was detected, else one; never fewer than one.
pub fn shard_count(requested: Option<usize>, detected: Option<usize>) -> (r: usize)
    ensures
        r == shard_count_spec(requested, detected),
        r >= 1,
        requested is Some && requested->0 >= 1 ==> r == requested->0,
        requested is None && detected is Some && detected->0 >= 1 ==> r == detected->0,
        requested is None && detected is None ==> r == 1,
{
    let n: usize = match requested {
        Some(n) => n,
        None => match detected {
            Some(d) => d,
            None => 1,
        },
    };
    if n == 0 { 1 } else { n }
}

} // verus!
