//! The addresses of the proxies that the application's own requests go
//! through, and the mode the core is in.

use crate::text::{push_decimal, replace_text, spec_decimal, spec_replace};
use crate::yaml::{spec_get, Mapping, Yaml, YamlTree};
use vstd::prelude::*;
use vstd::string::StringExecFns;

verus! {

/// The proxy that the system is set to use, as far as the application
/// looks at it.
#[derive(Debug, Clone)]
pub struct SystemProxy {
    pub enable: bool,
    pub host: String,
    pub port: u16,
}

/// The error of the `sysproxy` crate.
#[verifier::external_type_specification]
#[verifier::external_body]
pub struct ExSysproxyError(sysproxy::Error);

/// Why the proxy of the system is not known.
#[derive(Debug)]
pub enum ProxyError {
    /// The settings of the system could not be read, for this reason.
    Unreadable(String),
}

/// The address of a proxy on a host.
pub open spec fn spec_proxy_url(host: Seq<char>, port: u16) -> Seq<char> {
    "http://"@ + host + ":"@ + spec_decimal(port as nat)
}

/// The port that the application's own proxy listens on: the one from the
/// application settings, else the one of the core configuration.
pub open spec fn spec_self_port(verge_mixed_port: Option<u16>, clash_mixed_port: u16) -> u16 {
    match verge_mixed_port {
        Some(port) => port,
        None => clash_mixed_port,
    }
}

fn proxy_url(host: &str, port: u16) -> (url: String)
    ensures
        url@ == spec_proxy_url(host@, port),
{
    let mut url = String::from_str("http://");
    url.append(host);
    url.append(":");
    push_decimal(&mut url, port as u64);
    url
}

/// The address of the application's own proxy, on the loopback address.
pub fn get_self_proxy(verge_mixed_port: Option<u16>, clash_mixed_port: u16) -> (url: String)
    ensures
        url@ == spec_proxy_url(
            "127.0.0.1"@,
            spec_self_port(verge_mixed_port, clash_mixed_port),
        ),
{
    let port = match verge_mixed_port {
        Some(port) => port,
        None => clash_mixed_port,
    };
    proxy_url("127.0.0.1", port)
}

/// The address of the system's proxy, where the system is set to use one.
pub fn system_proxy_url(settings: &SystemProxy) -> (url: Option<String>)
    ensures
        settings.enable ==> (url matches Some(url) && url@ == spec_proxy_url(
            settings.host@,
            settings.port,
        )),
        !settings.enable ==> url is None,
{
    if settings.enable {
        Some(proxy_url(settings.host.as_str(), settings.port))
    } else {
        None
    }
}

/// `sysproxy::Sysproxy::get_system_proxy`: the proxy settings of the
/// system as they are right now, or the error of reading them. Nothing is
/// claimed of the answer.
#[verifier::external_body]
fn read_system_proxy() -> (settings: Result<SystemProxy, sysproxy::Error>) {
    match sysproxy::Sysproxy::get_system_proxy() {
        Ok(found) => Ok(SystemProxy { enable: found.enable, host: found.host, port: found.port }),
        Err(error) => Err(error),
    }
}

/// The error of `sysproxy` in words, as its `Display` writes it.
#[verifier::external_body]
fn system_error_text(error: &sysproxy::Error) -> (text: String) {
    format!("{}", error)
}

/// The address of the proxy that the system is set to use, if it is set to
/// use one. The settings are read from the system; the address is made of
/// the host and the port that were read.
pub fn get_system_proxy() -> (url: Result<Option<String>, ProxyError>)
    ensures
        url matches Ok(Some(url)) ==> exists|host: Seq<char>, port: u16|
            url@ == spec_proxy_url(host, port),
{
    match read_system_proxy() {
        Ok(settings) => {
            let url = system_proxy_url(&settings);
            Ok(url)
        },
        Err(error) => Err(ProxyError::Unreadable(system_error_text(&error))),
    }
}

/// The address of the tunnel device that a core configuration implies: the
/// range of the fake addresses under `dns`, with `2` in place of `1/16`, so
/// that `198.18.0.1/16` gives `198.18.0.2`. A `dns` section that names no
/// range in text gives the empty address; a configuration without a `dns`
/// section gives `198.18.0.2`.
pub open spec fn spec_tun_device_ip(config: Seq<(YamlTree, YamlTree)>) -> Seq<char> {
    match spec_get(config, YamlTree::Text("dns"@)) {
        Some(YamlTree::Mapping(dns)) => match spec_get(dns, YamlTree::Text("fake-ip-range"@)) {
            Some(YamlTree::Text(range)) => spec_replace(range, "1/16"@, "2"@),
            _ => Seq::empty(),
        },
        _ => "198.18.0.2"@,
    }
}

/// The address of the tunnel device, which the system DNS is pointed at in
/// tunnel mode.
pub fn tun_device_ip(config: &Mapping) -> (ip: String)
    ensures
        ip@ == spec_tun_device_ip(config@),
{
    match config.get("dns") {
        Some(Yaml::Mapping(dns)) => match dns.get("fake-ip-range") {
            Some(Yaml::Text(range)) => replace_text(range.as_str(), "1/16", "2"),
            _ => String::new(),
        },
        _ => String::from_str("198.18.0.2"),
    }
}

/// The text that a value is, tags around it looked through; a value of any
/// other kind is no text.
pub open spec fn spec_as_text(value: YamlTree) -> Option<Seq<char>>
    decreases value,
{
    match value {
        YamlTree::Text(text) => Some(text),
        YamlTree::Tagged(_, inner) => spec_as_text(*inner),
        _ => None,
    }
}

/// The text that a value is, tags around it looked through.
pub fn as_text(value: &Yaml) -> (text: Option<&String>)
    ensures
        match text {
            Some(text) => spec_as_text(value.tree()) == Some(text@),
            None => spec_as_text(value.tree()) is None,
        },
    decreases value,
{
    match value {
        Yaml::Text(text) => Some(text),
        Yaml::Tagged(_, inner) => as_text(&**inner),
        _ => None,
    }
}

/// The mode that a core configuration names under `mode`, as far as it
/// names one in text; `rule` is the mode of every other configuration.
pub open spec fn spec_clash_mode(config: Seq<(YamlTree, YamlTree)>) -> Seq<char> {
    match spec_get(config, YamlTree::Text("mode"@)) {
        Some(mode) => match spec_as_text(mode) {
            Some(text) => text,
            None => "rule"@,
        },
        None => "rule"@,
    }
}

/// The mode the core is in.
pub fn get_current_clash_mode(config: &Mapping) -> (mode: String)
    ensures
        mode@ == spec_clash_mode(config@),
{
    match config.get("mode") {
        Some(value) => match as_text(value) {
            Some(text) => text.clone(),
            None => String::from_str("rule"),
        },
        None => String::from_str("rule"),
    }
}

} // verus!
