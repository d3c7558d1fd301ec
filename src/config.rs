//! The proxy's startup parameters and their checks.
use vstd::prelude::*;

use crate::error::{ConfigArg, ProxyError};
use crate::rewrite::{parse_target, target_of, uri_scheme_authority};

verus! {

/// Startup parameters, fixed for the life of the process.
#[derive(Debug)]
pub struct ProxyParams {
    pub target_url: String,
    pub insecure_https: bool,
    pub local_host: String,
    pub local_port: u16,
    pub cache_ttl_secs: u64,
    /// The credential command: the executable, then its arguments.
    pub command: Vec<String>,
}

pub open spec fn is_digit(c: char) -> bool {
    '0' <= c <= '9'
}

/// The number a string of decimal digits denotes.
pub open spec fn digits_value(d: Seq<char>) -> int
    decreases d.len(),
{
    if d.len() == 0 {
        0
    } else {
        digits_value(d.drop_last()) * 10 + (d.last() as u32 - '0' as u32)
    }
}

/// The digits of an unsigned number, after an optional leading `+`.
pub open spec fn unsigned_digits(s: Seq<char>) -> Seq<char> {
    if s.len() > 0 && s[0] == '+' {
        s.drop_first()
    } else {
        s
    }
}

/// The value of `s` read as an unsigned decimal number (an optional `+`, then
/// one or more ASCII digits), or `None` if it is not one.
pub open spec fn decimal_value(s: Seq<char>) -> Option<int> {
    let d = unsigned_digits(s);
    if d.len() > 0 && forall|i: int| 0 <= i < d.len() ==> is_digit(#[trigger] d[i]) {
        Some(digits_value(d))
    } else {
        None
    }
}

proof fn lemma_prefix_value_le(d: Seq<char>, k: int)
    requires
        0 <= k <= d.len(),
        forall|i: int| 0 <= i < d.len() ==> is_digit(#[trigger] d[i]),
    ensures
        0 <= digits_value(d.subrange(0, k)) <= digits_value(d),
    decreases d.len(),
{
    if d.len() > 0 {
        let p = d.drop_last();
        if k == d.len() {
            assert(d.subrange(0, k) =~= d);
            lemma_prefix_value_le(p, k - 1);
            assert(p.subrange(0, k - 1) =~= p);
        } else {
            lemma_prefix_value_le(p, k);
            assert(p.subrange(0, k) =~= d.subrange(0, k));
            lemma_prefix_value_le(p, p.len() as int);
            assert(p.subrange(0, p.len() as int) =~= p);
        }
    }
}

/// Reads `s` as an unsigned decimal number no greater than `max`.
pub fn parse_decimal(s: &str, max: u64) -> (r: Option<u64>)
    ensures
        r is Some <==> (decimal_value(s@) is Some && decimal_value(s@)->Some_0 <= max),
        r is Some ==> r->Some_0 == decimal_value(s@)->Some_0,
{
    let n: usize = s.unicode_len();
    let mut start: usize = 0;
    if n > 0 && s.get_char(0) == '+' {
        start = 1;
    }
    let ghost d = s@.subrange(start as int, n as int);
    assert(unsigned_digits(s@) =~= d);
    if start == n {
        return None;
    }
    let mut acc: u64 = 0;
    let mut i: usize = start;
    while i < n
        invariant
            n == s@.len(),
            start <= i <= n,
            d == s@.subrange(start as int, n as int),
            unsigned_digits(s@) == d,
            d.len() > 0,
            acc as int == digits_value(d.subrange(0, i - start)),
            acc <= max,
            forall|j: int| 0 <= j < i - start ==> is_digit(#[trigger] d[j]),
        decreases n - i,
    {
        let c = s.get_char(i);
        if !('0' <= c && c <= '9') {
            assert(!is_digit(d[i - start]));
            return None;
        }
        let next: u128 = acc as u128 * 10 + (c as u32 - '0' as u32) as u128;
        assert(d.subrange(0, i + 1 - start).drop_last() =~= d.subrange(0, i - start));
        if next > max as u128 {
            proof {
                if forall|j: int| 0 <= j < d.len() ==> is_digit(#[trigger] d[j]) {
                    lemma_prefix_value_le(d, i + 1 - start);
                }
            }
            return None;
        }
        acc = next as u64;
        i = i + 1;
    }
    assert(d.subrange(0, n - start) =~= d);
    Some(acc)
}

/// Checks the startup values and gathers them into the parameters. The
/// first missing or malformed value, in the order of the arguments, is the
/// error: the target URL must be an absolute URI with scheme and authority,
/// the port a decimal number from 1 to 65535, the time-to-live a decimal
/// number of seconds, and the command must name at least an executable.
pub fn get_proxy_params(
    target_url: Option<String>,
    insecure_https: bool,
    listen_host: Option<String>,
    listen_port: Option<String>,
    cache_ttl: Option<String>,
    command: Option<Vec<String>>,
) -> (r: Result<ProxyParams, ProxyError>)
    ensures
        ({
            let url_ok = target_url is Some && target_of(uri_scheme_authority(target_url->Some_0@)) is Some;
            let host_ok = listen_host is Some;
            let port_ok = listen_port is Some && decimal_value(listen_port->Some_0@) is Some
                && 1 <= decimal_value(listen_port->Some_0@)->Some_0 <= 65535;
            let ttl_ok = cache_ttl is Some && decimal_value(cache_ttl->Some_0@) is Some
                && decimal_value(cache_ttl->Some_0@)->Some_0 <= u64::MAX;
            let command_ok = command is Some && command->Some_0@.len() > 0;
            &&& !url_ok ==> r == Err::<ProxyParams, ProxyError>(ProxyError::ConfigurationError(ConfigArg::TargetUrl))
            &&& url_ok && !host_ok ==> r == Err::<ProxyParams, ProxyError>(ProxyError::ConfigurationError(ConfigArg::ListenHost))
            &&& url_ok && host_ok && !port_ok ==> r == Err::<ProxyParams, ProxyError>(ProxyError::ConfigurationError(ConfigArg::ListenPort))
            &&& url_ok && host_ok && port_ok && !ttl_ok ==> r == Err::<ProxyParams, ProxyError>(ProxyError::ConfigurationError(ConfigArg::CacheTtl))
            &&& url_ok && host_ok && port_ok && ttl_ok && !command_ok ==> r == Err::<ProxyParams, ProxyError>(ProxyError::ConfigurationError(ConfigArg::Command))
            &&& url_ok && host_ok && port_ok && ttl_ok && command_ok ==> r == Ok::<ProxyParams, ProxyError>(ProxyParams {
                target_url: target_url->Some_0,
                insecure_https,
                local_host: listen_host->Some_0,
                local_port: decimal_value(listen_port->Some_0@)->Some_0 as u16,
                cache_ttl_secs: decimal_value(cache_ttl->Some_0@)->Some_0 as u64,
                command: command->Some_0,
            })
        }),
{
    let target_url = match target_url {
        Some(u) => u,
        None => return Err(ProxyError::ConfigurationError(ConfigArg::TargetUrl)),
    };
    if parse_target(target_url.as_str()).is_err() {
        return Err(ProxyError::ConfigurationError(ConfigArg::TargetUrl));
    }
    let local_host = match listen_host {
        Some(h) => h,
        None => return Err(ProxyError::ConfigurationError(ConfigArg::ListenHost)),
    };
    let local_port: u16 = match listen_port {
        Some(p) => match parse_decimal(p.as_str(), 65535) {
            Some(v) if v >= 1 => v as u16,
            _ => return Err(ProxyError::ConfigurationError(ConfigArg::ListenPort)),
        },
        None => return Err(ProxyError::ConfigurationError(ConfigArg::ListenPort)),
    };
    let cache_ttl_secs: u64 = match cache_ttl {
        Some(t) => match parse_decimal(t.as_str(), u64::MAX) {
            Some(v) => v,
            None => return Err(ProxyError::ConfigurationError(ConfigArg::CacheTtl)),
        },
        None => return Err(ProxyError::ConfigurationError(ConfigArg::CacheTtl)),
    };
    let command = match command {
        Some(c) => c,
        None => return Err(ProxyError::ConfigurationError(ConfigArg::Command)),
    };
    if command.len() == 0 {
        return Err(ProxyError::ConfigurationError(ConfigArg::Command));
    }
    Ok(ProxyParams { target_url, insecure_https, local_host, local_port, cache_ttl_secs, command })
}

} // verus!
