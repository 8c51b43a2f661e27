//! Translation of a payload into a strict server descriptor.
//!
//! The translator validates in a fixed order, first failure winning:
//! payload syntax, then (when a `server` object is present) address,
//! password, cipher, and the engine's own acceptance of the entry. A
//! payload without a `server` object is not an error: it yields no
//! descriptor. `plugin` and `plugin_opts` attach a plugin only when both
//! are present; either one alone is ignored.

use vstd::prelude::*;

use crate::addr::{parse_socket_address, spec_parse_socket, SocketAddress};
use crate::payload::{parse_payload, parsed_payload, PayloadFields, PayloadFieldsView};

verus! {

/// Why a start request was rejected before anything was launched.
#[derive(Clone, Copy, Debug, PartialEq, Eq, Structural)]
pub enum StartError {
    /// The payload is not well-formed JSON.
    MalformedPayload,
    /// The server address is missing, not a string, or not a socket-address
    /// literal (IPv4 or IPv6 with a port).
    InvalidAddress,
    /// The password is missing, not a string, or empty.
    MissingPassword,
    /// The cipher name is missing, not a string, or not a supported cipher.
    InvalidCipher,
    /// The engine refused the (address, password, cipher) entry.
    InvalidServerConfig,
}

/// The negative status code reported for each rejection.
pub open spec fn spec_error_code(e: StartError) -> i32 {
    match e {
        StartError::MalformedPayload => -3i32,
        StartError::InvalidAddress => -4i32,
        StartError::MissingPassword => -6i32,
        StartError::InvalidCipher => -7i32,
        StartError::InvalidServerConfig => -9i32,
    }
}

pub fn error_code(e: StartError) -> (r: i32)
    ensures
        r == spec_error_code(e),
{
    match e {
        StartError::MalformedPayload => -3,
        StartError::InvalidAddress => -4,
        StartError::MissingPassword => -6,
        StartError::InvalidCipher => -7,
        StartError::InvalidServerConfig => -9,
    }
}

/// Every rejection is reported as a negative code, so a non-negative
/// status can never mean a refused configuration.
pub proof fn lemma_error_codes_negative(e: StartError)
    ensures
        spec_error_code(e) < 0,
{
}

/// A plugin attached to a server: its name and its options string.
#[derive(Debug, PartialEq, Eq)]
pub struct PluginDescriptor {
    pub name: String,
    pub options: String,
}

/// Mathematical image of `PluginDescriptor`.
pub struct PluginDescriptorView {
    pub name: Seq<char>,
    pub options: Seq<char>,
}

impl View for PluginDescriptor {
    type V = PluginDescriptorView;

    open spec fn view(&self) -> PluginDescriptorView {
        PluginDescriptorView { name: self.name@, options: self.options@ }
    }
}

/// A fully validated server entry: the accepted address text together
/// with its dotted-quad reading when it has one (an IPv6 literal has
/// none), password, cipher name, and an optional plugin. Immutable once
/// built.
#[derive(Debug, PartialEq, Eq)]
pub struct ServerDescriptor {
    pub address: Option<SocketAddress>,
    pub address_text: String,
    pub password: String,
    pub method: String,
    pub plugin: Option<PluginDescriptor>,
}

/// Mathematical image of `ServerDescriptor`.
pub struct ServerDescriptorView {
    pub address: Option<SocketAddress>,
    pub address_text: Seq<char>,
    pub password: Seq<char>,
    pub method: Seq<char>,
    pub plugin: Option<PluginDescriptorView>,
}

impl View for ServerDescriptor {
    type V = ServerDescriptorView;

    open spec fn view(&self) -> ServerDescriptorView {
        ServerDescriptorView {
            address: self.address,
            address_text: self.address_text@,
            password: self.password@,
            method: self.method@,
            plugin: match self.plugin {
                Some(p) => Some(p@),
                None => None,
            },
        }
    }
}

pub open spec fn view_of_opt_descriptor(o: Option<ServerDescriptor>) -> Option<
    ServerDescriptorView,
> {
    match o {
        Some(d) => Some(d@),
        None => None,
    }
}

/// Whether the text is a socket-address literal — an IPv4 or IPv6 address
/// with a port; depends on the text alone.
pub uninterp spec fn is_socket_addr_text(s: Seq<char>) -> bool;

/// Relies on `shadowsocks::config::ServerAddr::from_str`, whose first
/// branch parses the text with std's socket-address parser: the
/// socket-address variant comes back exactly when the text is an IPv4 or
/// IPv6 socket-address literal, deterministically in the text.
#[verifier::external_body]
fn socket_addr_accepted(s: &str) -> (r: bool)
    ensures
        r == is_socket_addr_text(s@),
{
    matches!(
        <shadowsocks::config::ServerAddr as core::str::FromStr>::from_str(s),
        Ok(shadowsocks::config::ServerAddr::SocketAddr(_))
    )
}

/// Whether the cipher enumeration resolves this name; depends on the name
/// alone.
pub uninterp spec fn is_supported_cipher(name: Seq<char>) -> bool;

/// Relies on `shadowsocks::crypto::CipherKind::from_str` (with this
/// crate's cipher features): it returns `Ok` exactly for the names of the
/// compiled-in ciphers, deterministically in the name.
#[verifier::external_body]
fn cipher_supported(name: &str) -> (r: bool)
    ensures
        r == is_supported_cipher(name@),
{
    <shadowsocks::crypto::CipherKind as core::str::FromStr>::from_str(name).is_ok()
}

/// Whether the engine accepts a server entry built from this address
/// text, password and cipher name; depends on those values alone.
pub uninterp spec fn server_entry_ok(addr: Seq<char>, password: Seq<char>, method: Seq<char>) -> bool;

/// Relies on `shadowsocks::config::ServerConfig::new` (with
/// `ServerAddr::from_str` and `CipherKind::from_str` to build its
/// arguments): construction derives the key from the password
/// deterministically and fails exactly when that derivation fails.
#[verifier::external_body]
fn server_entry_accepted(addr: &str, password: &str, method: &str) -> (r: bool)
    ensures
        r == server_entry_ok(addr@, password@, method@),
{
    let a = match <shadowsocks::config::ServerAddr as core::str::FromStr>::from_str(addr) {
        Ok(a) => a,
        Err(_) => return false,
    };
    let m = match <shadowsocks::crypto::CipherKind as core::str::FromStr>::from_str(method) {
        Ok(m) => m,
        Err(_) => return false,
    };
    shadowsocks::config::ServerConfig::new(a, password, m).is_ok()
}

/// The plugin attached for a given pair of optional fields: both present
/// or nothing.
pub open spec fn spec_plugin(
    plugin: Option<Seq<char>>,
    plugin_opts: Option<Seq<char>>,
) -> Option<PluginDescriptorView> {
    match (plugin, plugin_opts) {
        (Some(name), Some(options)) => Some(PluginDescriptorView { name, options }),
        _ => None,
    }
}

/// The descriptor (or rejection) determined by extracted payload fields.
pub open spec fn spec_translate_fields(f: PayloadFieldsView) -> Result<
    Option<ServerDescriptorView>,
    StartError,
> {
    if !f.has_server {
        Ok(None)
    } else {
        match f.address {
            None => Err(StartError::InvalidAddress),
            Some(addr) => if !is_socket_addr_text(addr) {
                Err(StartError::InvalidAddress)
            } else {
                match f.password {
                    None => Err(StartError::MissingPassword),
                    Some(password) => if password.len() == 0 {
                        Err(StartError::MissingPassword)
                    } else {
                        match f.method {
                            None => Err(StartError::InvalidCipher),
                            Some(method) => if !is_supported_cipher(method) {
                                Err(StartError::InvalidCipher)
                            } else if !server_entry_ok(addr, password, method) {
                                Err(StartError::InvalidServerConfig)
                            } else {
                                Ok(
                                    Some(
                                        ServerDescriptorView {
                                            address: spec_parse_socket(addr),
                                            address_text: addr,
                                            password,
                                            method,
                                            plugin: spec_plugin(f.plugin, f.plugin_opts),
                                        },
                                    ),
                                )
                            },
                        }
                    },
                }
            },
        }
    }
}

/// A payload carrying `plugin` without `plugin_opts` (or the reverse)
/// yields, when it is accepted at all, a descriptor with no plugin
/// attached; a half-given plugin is ignored, never an error.
pub proof fn lemma_half_given_plugin_is_ignored(f: PayloadFieldsView)
    requires
        f.plugin is None || f.plugin_opts is None,
    ensures
        spec_translate_fields(f) matches Ok(d) ==> (d matches Some(desc) ==> desc.plugin
            is None),
{
}

/// The descriptor (or rejection) determined by a payload text.
pub open spec fn spec_translate(text: Seq<char>) -> Result<
    Option<ServerDescriptorView>,
    StartError,
> {
    match parsed_payload(text) {
        None => Err(StartError::MalformedPayload),
        Some(f) => spec_translate_fields(f),
    }
}

/// Build the descriptor from already-extracted fields.
pub fn translate_fields(f: PayloadFields) -> (r: Result<Option<ServerDescriptor>, StartError>)
    ensures
        match r {
            Ok(d) => spec_translate_fields(f@) == Ok::<Option<ServerDescriptorView>, StartError>(
                view_of_opt_descriptor(d),
            ),
            Err(e) => spec_translate_fields(f@) == Err::<Option<ServerDescriptorView>, StartError>(
                e,
            ),
        },
{
    if !f.has_server {
        return Ok(None);
    }
    let addr = match f.address {
        Some(a) => a,
        None => {
            return Err(StartError::InvalidAddress);
        },
    };
    if !socket_addr_accepted(addr.as_str()) {
        return Err(StartError::InvalidAddress);
    }
    let sock = parse_socket_address(addr.as_str());
    let password = match f.password {
        Some(p) => p,
        None => {
            return Err(StartError::MissingPassword);
        },
    };
    if password.as_str().unicode_len() == 0 {
        return Err(StartError::MissingPassword);
    }
    let method = match f.method {
        Some(m) => m,
        None => {
            return Err(StartError::InvalidCipher);
        },
    };
    if !cipher_supported(method.as_str()) {
        return Err(StartError::InvalidCipher);
    }
    if !server_entry_accepted(addr.as_str(), password.as_str(), method.as_str()) {
        return Err(StartError::InvalidServerConfig);
    }
    let plugin = match (f.plugin, f.plugin_opts) {
        (Some(name), Some(options)) => Some(PluginDescriptor { name, options }),
        _ => None,
    };
    Ok(
        Some(
            ServerDescriptor {
                address: sock,
                address_text: addr,
                password,
                method,
                plugin,
            },
        ),
    )
}

/// Translate a payload text into a descriptor, or say exactly why not.
pub fn translate_payload(text: &str) -> (r: Result<Option<ServerDescriptor>, StartError>)
    ensures
        match r {
            Ok(d) => spec_translate(text@) == Ok::<Option<ServerDescriptorView>, StartError>(
                view_of_opt_descriptor(d),
            ),
            Err(e) => spec_translate(text@) == Err::<Option<ServerDescriptorView>, StartError>(e),
        },
{
    match parse_payload(text) {
        None => Err(StartError::MalformedPayload),
        Some(f) => translate_fields(f),
    }
}

} // verus!
