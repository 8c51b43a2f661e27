//! The configuration payload reduced to plain values.
//!
//! A payload is a JSON document with an optional `server` object holding
//! string fields. Parsing and field extraction are done by `serde_json`
//! behind one trusted wrapper; everything downstream works on the plain
//! `PayloadFields` it returns.

use vstd::prelude::*;

verus! {

/// The string fields a payload's `server` object may carry, each `None`
/// when absent or not a string. `has_server` records whether a `server`
/// object was present at all.
pub struct PayloadFields {
    pub has_server: bool,
    pub address: Option<String>,
    pub password: Option<String>,
    pub method: Option<String>,
    pub plugin: Option<String>,
    pub plugin_opts: Option<String>,
}

/// Mathematical image of `PayloadFields`.
pub struct PayloadFieldsView {
    pub has_server: bool,
    pub address: Option<Seq<char>>,
    pub password: Option<Seq<char>>,
    pub method: Option<Seq<char>>,
    pub plugin: Option<Seq<char>>,
    pub plugin_opts: Option<Seq<char>>,
}

pub open spec fn view_of_opt_string(o: Option<String>) -> Option<Seq<char>> {
    match o {
        Some(s) => Some(s@),
        None => None,
    }
}

impl View for PayloadFields {
    type V = PayloadFieldsView;

    open spec fn view(&self) -> PayloadFieldsView {
        PayloadFieldsView {
            has_server: self.has_server,
            address: view_of_opt_string(self.address),
            password: view_of_opt_string(self.password),
            method: view_of_opt_string(self.method),
            plugin: view_of_opt_string(self.plugin),
            plugin_opts: view_of_opt_string(self.plugin_opts),
        }
    }
}

/// What `serde_json` extracts from a payload text: `None` when the text is
/// not well-formed JSON, otherwise the `server` object's string fields.
/// The result depends on the text alone.
pub uninterp spec fn parsed_payload(text: Seq<char>) -> Option<PayloadFieldsView>;

/// Relies on `serde_json::from_str` to parse the payload, and on
/// `serde_json::Value::{get, as_object, as_str}` to extract the `server`
/// object's string fields; all are deterministic in the text.
#[verifier::external_body]
pub(crate) fn parse_payload(text: &str) -> (r: Option<PayloadFields>)
    ensures
        (r is Some) == (parsed_payload(text@) is Some),
        r matches Some(f) ==> parsed_payload(text@) == Some(f@),
{
    let v: serde_json::Value = match serde_json::from_str(text) {
        Ok(v) => v,
        Err(_) => return None,
    };
    let obj = v.get("server").and_then(|s| s.as_object());
    let field = |k| obj.and_then(|o| o.get(k)).and_then(|f| f.as_str()).map(str::to_string);
    Some(PayloadFields {
        has_server: obj.is_some(),
        address: field("server"),
        password: field("password"),
        method: field("method"),
        plugin: field("plugin"),
        plugin_opts: field("plugin_opts"),
    })
}

} // verus!
