//! Process-wide configuration for the bridge, immutable after startup, and
//! per-call model options.

use vstd::prelude::*;
use vstd::string::StringExecFns;

verus! {

/// The model asked for when the caller supplies no override.
pub open spec fn default_model_name() -> Seq<char> {
    "google_ai:gemini-2.0-flash-exp"@
}

/// Per-call options for a completion request.
#[derive(Clone, Copy, Debug)]
pub struct LLMOptions<'a> {
    /// Identifier of the model that should produce the completion.
    pub model: &'a str,
}

impl<'a> Default for LLMOptions<'a> {
    fn default() -> (r: Self)
        ensures
            r.model@ == default_model_name(),
    {
        LLMOptions { model: "google_ai:gemini-2.0-flash-exp" }
    }
}

/// Everything the bridge needs to reach the completion endpoint.
///
/// Constructed once at startup from external configuration and read-only for
/// the life of the process; it is never reloaded.
#[derive(Clone, Debug)]
pub struct BridgeConfig {
    /// URL the completion request is POSTed to.
    pub endpoint_url: String,
    /// Operator/tenant identifier sent with each request.
    pub operator_id: String,
    /// Bearer credential for the Authorization header.
    pub credential: String,
    /// Model used when a call carries no override.
    pub default_model: String,
    /// Optional fixed conversational turn prepended to every request.
    pub system_prompt: Option<String>,
}

/// The Authorization header value: the bearer scheme applied to a credential.
pub open spec fn bearer_value_spec(credential: Seq<char>) -> Seq<char> {
    "Bearer "@ + credential
}

impl BridgeConfig {
    pub fn new(
        endpoint_url: String,
        operator_id: String,
        credential: String,
        default_model: String,
        system_prompt: Option<String>,
    ) -> (r: Self)
        ensures
            r.endpoint_url == endpoint_url,
            r.operator_id == operator_id,
            r.credential == credential,
            r.default_model == default_model,
            r.system_prompt == system_prompt,
    {
        BridgeConfig { endpoint_url, operator_id, credential, default_model, system_prompt }
    }

    /// Value for the Authorization header of a completion request.
    pub fn bearer_value(&self) -> (r: String)
        ensures
            r@ == bearer_value_spec(self.credential@),
    {
        let mut value = String::from_str("Bearer ");
        value.append(self.credential.as_str());
        value
    }

    /// The headers of one completion request, as (name, value) pairs in the
    /// order they are sent: content negotiation, the operator identifier,
    /// and the bearer credential.
    pub fn request_headers(&self) -> (r: Vec<(String, String)>)
        ensures
            r@.len() == 4,
            r@[0].0@ == "Accept"@ && r@[0].1@ == "application/json"@,
            r@[1].0@ == "Content-Type"@ && r@[1].1@ == "application/json"@,
            r@[2].0@ == "x-operator-id"@ && r@[2].1@ == self.operator_id@,
            r@[3].0@ == "Authorization"@ && r@[3].1@ == bearer_value_spec(self.credential@),
    {
        let mut headers: Vec<(String, String)> = Vec::new();
        headers.push((String::from_str("Accept"), String::from_str("application/json")));
        headers.push((String::from_str("Content-Type"), String::from_str("application/json")));
        headers.push((String::from_str("x-operator-id"), self.operator_id.clone()));
        headers.push((String::from_str("Authorization"), self.bearer_value()));
        headers
    }
}

} // verus!
