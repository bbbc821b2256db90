//! The boundary to the host's sysctl interface.
//!
//! Which keys the host exposes, and with what text, depends on the machine
//! and the moment, so nothing is promised of these calls' outcomes; every
//! guarantee of this crate is stated over what they happen to return.

use vstd::prelude::*;

verus! {

/// A handle to one opened registry key; opaque here.
#[verifier::external_type_specification]
#[verifier::external_body]
pub struct ExCtl(sysctl::Ctl);

/// Relies on `sysctl::Sysctl::new` for `sysctl::Ctl`: opening a key succeeds
/// exactly when the host exposes it. The outcome is machine-dependent, so
/// nothing is promised of it.
#[verifier::external_body]
fn open_key(key: &String) -> Option<sysctl::Ctl> {
    <sysctl::Ctl as sysctl::Sysctl>::new(key.as_str()).ok()
}

/// Relies on `sysctl::Sysctl::value_string` for `sysctl::Ctl`: the value of
/// an opened key as text, or nothing when it cannot be read. The outcome is
/// machine-dependent, so nothing is promised of it.
#[verifier::external_body]
fn key_value_text(ctl: &sysctl::Ctl) -> Option<String> {
    <sysctl::Ctl as sysctl::Sysctl>::value_string(ctl).ok()
}

/// The cheap existence probe: a key exists when it can be opened.
pub(crate) fn probe_key(key: &String) -> bool {
    open_key(key).is_some()
}

/// Reads one key's text: opens it, then reads; nothing when the key is
/// absent or unreadable.
pub(crate) fn read_key_text(key: &String) -> Option<String> {
    match open_key(key) {
        Some(ctl) => key_value_text(&ctl),
        None => None,
    }
}

} // verus!
