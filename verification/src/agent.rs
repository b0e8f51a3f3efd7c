//! Pairing-agent policy.
//!
//! During pairing the bus asks the registered agent to answer PIN,
//! passkey, confirmation and authorization prompts.  The policy here is
//! a fixed response per request kind — a door without a lock: an empty
//! PIN, passkey zero, and acceptance of every confirmation and
//! authorization.  The caller's I/O layer wires these answers into the
//! bus library's callback table.

use vstd::prelude::*;

verus! {

/// One pairing prompt, as a tagged request.
#[derive(Clone, Copy, Debug, PartialEq, Eq, Structural)]
pub enum AgentRequest {
    /// The device asks for a PIN code.
    PinCode,
    /// The device asks for a numeric passkey.
    Passkey,
    /// The device shows a passkey and asks for confirmation.
    Confirmation { passkey: u32 },
    /// A service asks to be authorized.
    AuthorizeService,
    /// The device asks for a generic authorization.
    Authorize,
}

/// The agent's answer to one prompt.
#[derive(Debug)]
pub enum AgentResponse {
    /// Answer a PIN prompt with this code.
    ProvidePinCode { pin: String },
    /// Answer a passkey prompt with this number.
    ProvidePasskey { passkey: u32 },
    /// Accept the confirmation or authorization.
    Accept,
}

/// The fixed-response policy: an empty PIN for a PIN prompt, passkey
/// zero for a passkey prompt, and acceptance of everything else.
pub fn agent_response(req: &AgentRequest) -> (r: AgentResponse)
    ensures
        *req == AgentRequest::PinCode ==> (r matches AgentResponse::ProvidePinCode { pin }
            && pin@.len() == 0),
        *req == AgentRequest::Passkey ==> (r matches AgentResponse::ProvidePasskey { passkey }
            && passkey == 0),
        (req matches AgentRequest::Confirmation { .. }) ==> r is Accept,
        *req == AgentRequest::AuthorizeService ==> r is Accept,
        *req == AgentRequest::Authorize ==> r is Accept,
{
    match req {
        AgentRequest::PinCode => AgentResponse::ProvidePinCode { pin: String::new() },
        AgentRequest::Passkey => AgentResponse::ProvidePasskey { passkey: 0 },
        AgentRequest::Confirmation { .. } => AgentResponse::Accept,
        AgentRequest::AuthorizeService => AgentResponse::Accept,
        AgentRequest::Authorize => AgentResponse::Accept,
    }
}

} // verus!
