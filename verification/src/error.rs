//! The two failures the client itself can detect, and credential resolution.

use vstd::prelude::*;

verus! {

/// What went wrong. Network failures are reported by the transport and are
/// not values of this type.
#[derive(Clone, Copy, Debug, PartialEq, Eq, Structural)]
pub enum ChatError {
    /// No credential was given on the command line and none was found in the
    /// environment.
    MissingApiKey,
    /// The completion endpoint answered with zero choices.
    NoChoices,
}

/// The report shown when no credential can be found.
pub open spec fn missing_key_note() -> Seq<char> {
    "You need to set API key to the `OPENAI_API_KEY`"@
}

/// The report shown when the endpoint returns no choices.
pub open spec fn no_choices_note() -> Seq<char> {
    "Can't read ChatGPT output"@
}

impl ChatError {
    /// The human-readable report for this failure.
    pub fn describe(&self) -> (s: String)
        ensures
            *self == ChatError::MissingApiKey ==> s@ == missing_key_note(),
            *self == ChatError::NoChoices ==> s@ == no_choices_note(),
    {
        match self {
            ChatError::MissingApiKey => "You need to set API key to the `OPENAI_API_KEY`".to_owned(),
            ChatError::NoChoices => "Can't read ChatGPT output".to_owned(),
        }
    }
}

/// Pick the credential for the session: a key given as a flag wins, otherwise
/// the one from the environment; with neither, the session must not start.
pub fn resolve_key(flag: Option<String>, env_value: Option<String>) -> (r: Result<
    String,
    ChatError,
>)
    ensures
        match (flag, env_value) {
            (Some(k), _) => r is Ok && r->Ok_0@ == k@,
            (None, Some(k)) => r is Ok && r->Ok_0@ == k@,
            (None, None) => r is Err && r->Err_0 == ChatError::MissingApiKey,
        },
{
    match flag {
        Some(k) => Ok(k),
        None => match env_value {
            Some(k) => Ok(k),
            None => Err(ChatError::MissingApiKey),
        },
    }
}

} // verus!
