use vstd::prelude::*;

verus! {

/// Declares serde_json's JSON value type, so that an upload's optional
/// config metadata can be carried through library signatures to rendering.
#[verifier::external_type_specification]
#[verifier::external_body]
pub struct ExValue(serde_json::Value);

/// Relies on `serde_json::Value`'s `Display` impl (through `ToString`): it
/// renders the value as its JSON text. The pipeline claims nothing of that
/// text and treats it as opaque sidecar content.
#[verifier::external_body]
pub(crate) fn render_json_value(v: &serde_json::Value) -> String {
    v.to_string()
}

} // verus!
