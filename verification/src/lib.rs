//! Typed client core for the JQData financial-data service.
//!
//! The remote service multiplexes many logical operations over one HTTP
//! endpoint: every request is a flat JSON envelope carrying a `method` name,
//! an authentication token and the operation's own fields, and every response
//! body is plain text in one of four shapes (tabular, line list, bare scalar,
//! or a JSON document). This crate holds the verified protocol layer: envelope
//! construction, the four body-decoding strategies with the service's
//! sentinel-error convention, the credential and token state machine, and the
//! catalog of operation descriptors. Transport (the HTTP POST itself) is left
//! to the embedding application, which feeds response bodies back into the
//! verified decoders.
//!
//! The layering, leaves first: [`text`] and [`num`] give the character-level
//! vocabulary; [`envelope`] builds the canonical request body; [`consume`]
//! holds the four decoding strategies; [`decimal`], [`model`] and [`rows`]
//! carry the data shapes and the per-operation descriptors; [`catalog`]
//! enumerates the operations; [`client`] owns the credential and token
//! lifecycle; [`error`] unifies the failure kinds.

use vstd::prelude::*;

pub mod catalog;
pub mod client;
pub mod consume;
pub mod decimal;
pub mod envelope;
pub mod error;
pub mod model;
pub mod num;
pub mod rows;
pub mod text;

verus! {

/// Fixed endpoint of the remote service; every logical operation is POSTed
/// to this one URL.
pub fn jqdata_url() -> (r: String)
    ensures
        r@ == "https://dataapi.joinquant.com/apis"@,
{
    String::from_str("https://dataapi.joinquant.com/apis")
}

} // verus!
