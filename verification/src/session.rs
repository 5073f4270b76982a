//! Decisions around an agent run and the floating panel: which agent runs,
//! what voice transcription says when it cannot run, and when the panel
//! hides itself.
use vstd::prelude::*;

use crate::text::{cat, str_eq};

verus! {

/// The agent that answers a message.
#[derive(Clone, Copy, Debug, PartialEq, Eq, Structural)]
pub enum Agent {
    Groq,
    Gemini,
}

/// The configured provider `groq` selects the Groq agent; any other value
/// selects Gemini.
pub open spec fn agent_for(provider: Seq<char>) -> Agent {
    if provider == "groq"@ {
        Agent::Groq
    } else {
        Agent::Gemini
    }
}

/// Chooses the agent for the configured provider.
pub fn choose_agent(provider: &str) -> (r: Agent)
    ensures
        r == agent_for(provider@),
{
    if str_eq(provider, "groq") {
        Agent::Groq
    } else {
        Agent::Gemini
    }
}

/// The refusal to transcribe without a Groq key.
pub const NO_VOICE_KEY: &'static str = "A Groq API key is required for voice transcription. Add one in ⚙️ Settings.";
/// The speech model used for transcription.
pub const WHISPER_MODEL: &'static str = "whisper-large-v3-turbo";

/// Whether transcription may be attempted: only with a Groq key.
pub fn voice_precheck(groq_key: &str) -> (r: Result<(), String>)
    ensures
        groq_key@.len() == 0 ==> (r matches Err(e) && e@ == NO_VOICE_KEY@),
        groq_key@.len() > 0 ==> r is Ok,
{
    if groq_key.unicode_len() == 0 {
        Err(crate::text::owned(NO_VOICE_KEY))
    } else {
        Ok(())
    }
}

/// The error when the transcription service answered with a failure status.
pub fn whisper_error(body: &str) -> (r: String)
    ensures
        r@ == "Whisper API error: "@ + body@,
{
    cat("Whisper API error: ", body)
}

/// Milliseconds the panel waits after the pointer leaves before hiding.
pub const HIDE_DELAY_MS: u64 = 800;

/// After the delay the panel hides unless the pointer came back or the
/// panel has focus (an unknown focus counts as focused).
pub open spec fn hides_panel(cancelled: bool, focused: Option<bool>) -> bool {
    !cancelled && focused == Some(false)
}

/// Decides whether the panel hides after the delay.
pub fn should_hide_panel(cancelled: bool, focused: Option<bool>) -> (r: bool)
    ensures
        r == hides_panel(cancelled, focused),
{
    if cancelled {
        false
    } else {
        match focused {
            Some(f) => !f,
            None => false,
        }
    }
}

} // verus!
