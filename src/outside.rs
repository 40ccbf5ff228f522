//! Types of the HTTP and JSON crates that values of this library carry.
//! Verus sees none of them from inside.
use vstd::prelude::*;

verus! {

/// reqwest's asynchronous HTTP client, carried by the service client.
#[verifier::external_type_specification]
#[verifier::external_body]
pub struct ExHttpClient(reqwest::Client);

/// reqwest's error: a transport failure, or a body that did not decode.
#[verifier::external_type_specification]
#[verifier::external_body]
pub struct ExHttpError(reqwest::Error);

/// A parsed JSON document.
#[verifier::external_type_specification]
#[verifier::external_body]
pub struct ExJsonValue(serde_json::Value);

/// The map behind a JSON object.
#[verifier::external_type_specification]
#[verifier::external_body]
#[verifier::reject_recursive_types(K)]
#[verifier::reject_recursive_types(V)]
pub struct ExJsonMap<K, V>(serde_json::Map<K, V>);

/// serde_json's error for text that is not JSON.
#[verifier::external_type_specification]
#[verifier::external_body]
pub struct ExJsonError(serde_json::Error);

/// Relies on reqwest::Client::new, which builds a client with the default
/// settings. It panics only where no TLS backend or resolver can start,
/// which does not depend on any argument.
pub assume_specification[ reqwest::Client::new ]() -> reqwest::Client;

} // verus!
