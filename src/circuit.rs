use vstd::prelude::*;

verus! {

/// A compiled circuit, kept as the JSON document it was written as.
pub type CompiledCircuit = serde_json::Value;

/// The document that a JSON text parses to, or none where it is not JSON.
pub uninterp spec fn parsed_json(text: Seq<char>) -> Option<serde_json::Value>;

/// The map of a JSON document that is an object, or none for any other document.
pub uninterp spec fn json_object(v: serde_json::Value) -> Option<
    serde_json::Map<String, serde_json::Value>,
>;

/// The keys of the map behind a JSON object.
pub uninterp spec fn json_map_keys(m: serde_json::Map<String, serde_json::Value>) -> Set<
    Seq<char>,
>;

/// Relies on serde_json::from_str, read into a `serde_json::Value`: the
/// document depends on the text alone, and the call fails exactly on text
/// that is not JSON.
#[verifier::external_body]
fn parse_json(text: &str) -> (r: Result<serde_json::Value, serde_json::Error>)
    ensures
        r is Ok <==> parsed_json(text@) is Some,
        r matches Ok(v) ==> parsed_json(text@) == Some(v),
{
    serde_json::from_str(text)
}

/// Relies on serde_json::Value::as_object: the map of an object, none for
/// any other document.
pub assume_specification<'a>[ serde_json::Value::as_object ](v: &'a serde_json::Value) -> (r: Option<
    &'a serde_json::Map<String, serde_json::Value>,
>)
    ensures
        r is None <==> json_object(*v) is None,
        r matches Some(m) ==> json_object(*v) == Some(*m),
;

/// Relies on serde_json::Map::contains_key: true exactly when the key is in
/// the map.
#[verifier::external_body]
fn map_has_key(m: &serde_json::Map<String, serde_json::Value>, key: &str) -> (r: bool)
    ensures
        r == json_map_keys(*m).contains(key@),
{
    m.contains_key(key)
}

/// Why a circuit definition was refused.
#[derive(Debug)]
pub enum CircuitError {
    /// The text is not JSON.
    Parse(serde_json::Error),
    /// The document is not an object.
    NotObject,
    /// The object lacks `bytecode` or `abi`.
    MissingFields,
}

impl CircuitError {
    /// A sentence that says why the definition was refused.
    pub fn message(&self) -> (r: String)
        ensures
            self is NotObject ==> r@ == "Circuit JSON must be an object"@,
            self is MissingFields ==> r@ == "Circuit JSON must contain 'bytecode' and 'abi' fields"@,
            self is Parse ==> r@.len() >= 30 && r@.subrange(0, 30)
                == "Failed to parse circuit JSON: "@,
    {
        match self {
            CircuitError::Parse(e) => {
                let mut m = String::from_str("Failed to parse circuit JSON: ");
                let cause = e.to_string();
                proof {
                    reveal_strlit("Failed to parse circuit JSON: ");
                }
                let ghost prefix = m@;
                m.append(cause.as_str());
                assert(m@.subrange(0, 30) =~= prefix);
                m
            },
            CircuitError::NotObject => String::from_str("Circuit JSON must be an object"),
            CircuitError::MissingFields => String::from_str(
                "Circuit JSON must contain 'bytecode' and 'abi' fields",
            ),
        }
    }
}

/// An object's keys name both fields that a circuit definition must hold.
pub open spec fn has_circuit_fields(keys: Set<Seq<char>>) -> bool {
    keys.contains("bytecode"@) && keys.contains("abi"@)
}

/// The verdict on a parsed circuit document: the document itself where it
/// is an object with `bytecode` and `abi`; otherwise the first rule it breaks.
pub open spec fn circuit_verdict(v: serde_json::Value) -> Result<serde_json::Value, CircuitError> {
    match json_object(v) {
        None => Err(CircuitError::NotObject),
        Some(m) => if has_circuit_fields(json_map_keys(m)) {
            Ok(v)
        } else {
            Err(CircuitError::MissingFields)
        },
    }
}

/// Checks the shape of a parsed circuit document: it must be an object that
/// holds the keys `bytecode` and `abi`, whatever their values. The document
/// is handed back unchanged.
pub fn check_circuit(v: serde_json::Value) -> (r: Result<serde_json::Value, CircuitError>)
    ensures
        r == circuit_verdict(v),
{
    let fields_present = match v.as_object() {
        None => {
            return Err(CircuitError::NotObject);
        },
        Some(m) => map_has_key(m, "bytecode") && map_has_key(m, "abi"),
    };
    if fields_present {
        Ok(v)
    } else {
        Err(CircuitError::MissingFields)
    }
}

/// Reads a circuit definition from its JSON text: the text must parse, and
/// the document must pass `check_circuit`. A definition that does is handed
/// back exactly as parsed.
pub fn parse_circuit_definition(text: &str) -> (r: Result<CompiledCircuit, CircuitError>)
    ensures
        parsed_json(text@) is None <==> r matches Err(CircuitError::Parse(_)),
        parsed_json(text@) matches Some(v) ==> r == circuit_verdict(v),
        r matches Ok(c) ==> parsed_json(text@) == Some(c),
{
    match parse_json(text) {
        Err(e) => Err(CircuitError::Parse(e)),
        Ok(v) => check_circuit(v),
    }
}

} // verus!
