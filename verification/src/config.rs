//! The stored configuration and how it maps to the credentials record.

use crate::types::{Api, ApiView};
use vstd::prelude::*;

verus! {

/// The configuration as it is stored between runs.
#[derive(Clone, Debug)]
pub struct Config {
    user_client: String,
    user_secret: String,
    tracked_user_name: String,
}

/// The three texts of a `Config`.
pub struct ConfigView {
    pub user_client: Seq<char>,
    pub user_secret: Seq<char>,
    pub tracked_user_name: Seq<char>,
}

impl View for Config {
    type V = ConfigView;

    closed spec fn view(&self) -> ConfigView {
        ConfigView {
            user_client: self.user_client@,
            user_secret: self.user_secret@,
            tracked_user_name: self.tracked_user_name@,
        }
    }
}

impl Default for Config {
    fn default() -> (config: Self)
        ensures
            config@ == (ConfigView {
                user_client: Seq::empty(),
                user_secret: Seq::empty(),
                tracked_user_name: Seq::empty(),
            }),
    {
        Config {
            user_client: String::new(),
            user_secret: String::new(),
            tracked_user_name: String::new(),
        }
    }
}

/// The credentials that a configuration stands for.
pub open spec fn api_of(config: ConfigView) -> ApiView {
    ApiView {
        id: config.user_client,
        secret: config.user_secret,
        username: config.tracked_user_name,
    }
}

/// The configuration that stores the given credentials.
pub open spec fn config_of(api: ApiView) -> ConfigView {
    ConfigView { user_client: api.id, user_secret: api.secret, tracked_user_name: api.username }
}

impl Config {
    /// The client's identifier.
    pub fn user_client(&self) -> (value: &String)
        ensures
            value@ == self@.user_client,
    {
        &self.user_client
    }

    /// The client's secret.
    pub fn user_secret(&self) -> (value: &String)
        ensures
            value@ == self@.user_secret,
    {
        &self.user_secret
    }

    /// The name of the tracked user.
    pub fn tracked_user_name(&self) -> (value: &String)
        ensures
            value@ == self@.tracked_user_name,
    {
        &self.tracked_user_name
    }

    /// Replaces the client's identifier and nothing else.
    pub fn set_user_client(&mut self, value: String)
        ensures
            final(self)@ == (ConfigView { user_client: value@, ..old(self)@ }),
    {
        self.user_client = value;
    }

    /// Replaces the client's secret and nothing else.
    pub fn set_user_secret(&mut self, value: String)
        ensures
            final(self)@ == (ConfigView { user_secret: value@, ..old(self)@ }),
    {
        self.user_secret = value;
    }

    /// Replaces the name of the tracked user and nothing else.
    pub fn set_tracked_user_name(&mut self, value: String)
        ensures
            final(self)@ == (ConfigView { tracked_user_name: value@, ..old(self)@ }),
    {
        self.tracked_user_name = value;
    }

    /// The configuration that stores the given credentials.
    pub fn from_api(api: Api) -> (config: Self)
        ensures
            config@ == config_of(api@),
    {
        let mut config = Config::default();
        config.set_user_client(api.id);
        config.set_user_secret(api.secret);
        config.set_tracked_user_name(api.username);
        config
    }

    /// The credentials that this configuration stands for.
    pub fn to_api(&self) -> (api: Api)
        ensures
            api@ == api_of(self@),
    {
        Api {
            id: self.user_client.clone(),
            secret: self.user_secret.clone(),
            username: self.tracked_user_name.clone(),
        }
    }
}

/// Storing credentials and reading them back gives the same credentials.
pub proof fn law_stored_credentials_come_back(api: ApiView)
    ensures
        api_of(config_of(api)) == api,
{
}

} // verus!
