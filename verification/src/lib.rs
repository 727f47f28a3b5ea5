//! Enrichment aggregator for a Bitcoin-metaprotocol data provider.
//!
//! The library holds the verified core: the authorization guard, the
//! credential store with its per-caller reentrancy guard, outbound request
//! construction, the wire-format parsers, and the two enrichment pipelines
//! (address-keyed and UTXO-keyed) expressed as step machines that a host
//! drives by performing one outbound fetch per step.
use vstd::prelude::*;

pub mod address_inscriptions;
pub mod auth;
pub mod common;
pub mod credential;
pub mod lexer;
pub mod request;
pub mod spans;
pub mod utxo_inscriptions;

pub use address_inscriptions::AddressInscription;
pub use address_inscriptions::AddressInscriptions;
pub use address_inscriptions::get_address_inscriptions;
pub use auth::authorized_guard;
pub use auth::check_authorization;
pub use common::LastUpdated;
pub use credential::CallerGuard;
pub use credential::CredentialStore;
pub use request::HttpResponseData;
pub use request::RequestSpec;
pub use request::transform;
pub use utxo_inscriptions::UtxoInscription;
pub use utxo_inscriptions::UtxoInscriptions;
pub use utxo_inscriptions::get_utxo_inscriptions;

verus! {

} // verus!
