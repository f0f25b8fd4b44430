//! A protocol-sniffing TCP forwarding proxy, verified.
//!
//! The library holds the decision logic of the proxy's connection handler:
//! it inspects the first bytes of an inbound connection, classifies the
//! request as a `CONNECT` tunnel or a plain HTTP request, and computes the
//! upstream address and the bytes to send. The surrounding I/O — listening,
//! connecting, relaying — lives outside the library and acts on the
//! decisions made here.

mod authority;
mod classify;
mod laws;
mod tokens;
mod wire;

pub use authority::uri_authority_of;
pub use classify::{
    after_connect, classify, connect_host_of, connect_port_of, decision_matches, default_port,
    default_tunnel_port, find_byte, plain_decision, plan_of, tunnel_target, Action, Decision, Plan,
};
pub use laws::{
    lemma_empty_preview_no_action, lemma_plain_default_port, lemma_plain_forward,
    lemma_tunnel_default_port,
};
pub use wire::{connect_ack, connect_ack_bytes, dec_digits, joined_addr, push_decimal, upstream_addr};
pub use tokens::{
    connect_lower, first_two_tokens, is_connect, is_connect_method, is_ws, lower_byte, method_of,
    skip_token, skip_ws, target_of,
};
