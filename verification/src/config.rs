//! What the program has to be told before it starts.
use vstd::prelude::*;
use vstd::string::StringExecFns;

verus! {

/// The name under which the id of the program is given.
pub const CLIENT_ID_KEY: &'static str = "TWITCH_CLIENT_ID";

/// The name under which the secret of the program is given.
pub const CLIENT_SECRET_KEY: &'static str = "TWITCH_CLIENT_SECRET";

/// The id and the secret by which the program asks for an access token.
pub struct Configuration {
    pub client_id: String,
    pub client_secret: String,
}

/// The text of the error if nothing is given under the name `key`.
pub open spec fn missing_text(key: Seq<char>) -> Seq<char> {
    "cannot find '"@ + key + "' in env"@
}

/// The value given under the name `key`, or the text of the error if there is none.
fn env_var(key: &str, value: Option<String>) -> (r: Result<String, String>)
    ensures
        match value {
            Some(value) => r == Ok::<String, String>(value),
            None => r matches Err(text) && text@ == missing_text(key@),
        },
{
    match value {
        Some(value) => Ok(value),
        None => {
            let mut text = String::from_str("cannot find '");
            text.append(key);
            text.append("' in env");
            Err(text)
        },
    }
}

impl Configuration {
    /// Takes the id and the secret as they were found in the environment; the first that is
    /// missing is the one that the error names.
    pub fn from_env(client_id: Option<String>, client_secret: Option<String>) -> (r: Result<
        Self,
        String,
    >)
        ensures
            match (client_id, client_secret) {
                (Some(id), Some(secret)) => r == Ok::<Self, String>(
                    Configuration { client_id: id, client_secret: secret },
                ),
                (None, _) => r matches Err(text) && text@ == missing_text(CLIENT_ID_KEY@),
                (Some(_), None) => r matches Err(text) && text@ == missing_text(CLIENT_SECRET_KEY@),
            },
    {
        let client_id = env_var(CLIENT_ID_KEY, client_id)?;
        let client_secret = env_var(CLIENT_SECRET_KEY, client_secret)?;
        Ok(Configuration { client_id, client_secret })
    }
}

/// The error names the variable that is missing, as it is called in the environment.
pub proof fn errors_name_what_is_missing(key: Seq<char>)
    ensures
        missing_text(key) == "cannot find '"@ + key + "' in env"@,
        CLIENT_ID_KEY@ == "TWITCH_CLIENT_ID"@,
        CLIENT_SECRET_KEY@ == "TWITCH_CLIENT_SECRET"@,
{
}

} // verus!
