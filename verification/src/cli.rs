//! What the command line asks for, once its flags have been read.

use crate::types::{Api, ApiView};
use vstd::prelude::*;

verus! {

/// The flags of the `init` subcommand, each present or not.
#[derive(Clone, Debug)]
pub struct InitFlags {
    pub username: Option<String>,
    pub client_id: Option<String>,
    pub client_secret: Option<String>,
}

/// Why the command line gives no credentials.
#[derive(Clone, Copy, PartialEq, Eq, Debug, Structural)]
pub enum FlagError {
    /// There is no `init` subcommand.
    NoInit,
    /// `init` was given without a user name: nothing is configured.
    NoUsername,
    /// A user name was given, but no client identifier.
    NoClientId,
    /// A user name and a client identifier were given, but no secret.
    NoClientSecret,
}

impl FlagError {
    /// What to tell the user, where there is anything to tell.
    pub fn message(&self) -> (text: Option<&'static str>)
        ensures
            match *self {
                FlagError::NoClientId => text.is_some() && text.unwrap()@
                    == "ID not found, please provide --id <id>"@,
                FlagError::NoClientSecret => text.is_some() && text.unwrap()@
                    == "Secret not found, please provide --secret <secret>"@,
                _ => text.is_none(),
            },
    {
        match self {
            FlagError::NoClientId => Some("ID not found, please provide --id <id>"),
            FlagError::NoClientSecret => Some("Secret not found, please provide --secret <secret>"),
            _ => None,
        }
    }
}

/// The credentials that the flags give, or the first thing that is missing.
pub open spec fn credentials_of(init: Option<InitFlags>) -> Result<ApiView, FlagError> {
    match init {
        None => Err(FlagError::NoInit),
        Some(flags) => if flags.username.is_none() {
            Err(FlagError::NoUsername)
        } else if flags.client_id.is_none() {
            Err(FlagError::NoClientId)
        } else if flags.client_secret.is_none() {
            Err(FlagError::NoClientSecret)
        } else {
            Ok(
                ApiView {
                    id: flags.client_id.unwrap()@,
                    secret: flags.client_secret.unwrap()@,
                    username: flags.username.unwrap()@,
                },
            )
        },
    }
}

/// What a reading of the flags says, with the credentials as texts.
pub open spec fn reading_view(reading: Result<Api, FlagError>) -> Result<ApiView, FlagError> {
    match reading {
        Ok(api) => Ok(api@),
        Err(e) => Err(e),
    }
}

/// Reads the credentials out of the flags, or says what is missing.
pub fn read_flags(init: Option<InitFlags>) -> (reading: Result<Api, FlagError>)
    ensures
        reading_view(reading) == credentials_of(init),
{
    match init {
        None => Err(FlagError::NoInit),
        Some(flags) => {
            let InitFlags { username, client_id, client_secret } = flags;
            match username {
                None => Err(FlagError::NoUsername),
                Some(username) => match client_id {
                    None => Err(FlagError::NoClientId),
                    Some(id) => match client_secret {
                        None => Err(FlagError::NoClientSecret),
                        Some(secret) => Ok(Api { id, secret, username }),
                    },
                },
            }
        },
    }
}

/// The credentials that the flags give, if they give all three.
pub fn cli_flag_handler(init: Option<InitFlags>) -> (api: Option<Api>)
    ensures
        match api {
            Some(api) => credentials_of(init) == Ok::<ApiView, FlagError>(api@),
            None => credentials_of(init).is_err(),
        },
{
    match read_flags(init) {
        Ok(api) => Some(api),
        Err(_) => None,
    }
}

} // verus!
