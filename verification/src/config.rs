//! The settings of the connection to the platform, and the credential that
//! is minted once and then kept.

use vstd::prelude::*;
use vstd::string::*;

use crate::constants::AGENT_KEY_NAME;

verus! {

/// What the identity layer needs to mint a credential or to derive the
/// identifier of a twin.
#[derive(Debug, PartialEq, Eq)]
pub struct IdentityConfig {
    pub resolver_address: String,
    pub token_duration: i64,
    pub user_did: String,
    pub agent_did: String,
    pub agent_key_name: String,
    pub agent_name: String,
    pub agent_secret: String,
}

/// What an [`IdentityConfig`] says.
pub struct IdentityConfigView {
    pub resolver_address: Seq<char>,
    pub token_duration: i64,
    pub user_did: Seq<char>,
    pub agent_did: Seq<char>,
    pub agent_key_name: Seq<char>,
    pub agent_name: Seq<char>,
    pub agent_secret: Seq<char>,
}

impl View for IdentityConfig {
    type V = IdentityConfigView;

    open spec fn view(&self) -> IdentityConfigView {
        IdentityConfigView {
            resolver_address: self.resolver_address@,
            token_duration: self.token_duration,
            user_did: self.user_did@,
            agent_did: self.agent_did@,
            agent_key_name: self.agent_key_name@,
            agent_name: self.agent_name@,
            agent_secret: self.agent_secret@,
        }
    }
}

impl Clone for IdentityConfig {
    fn clone(&self) -> (copy: Self)
        ensures
            copy == *self,
    {
        IdentityConfig {
            resolver_address: self.resolver_address.clone(),
            token_duration: self.token_duration,
            user_did: self.user_did.clone(),
            agent_did: self.agent_did.clone(),
            agent_key_name: self.agent_key_name.clone(),
            agent_name: self.agent_name.clone(),
            agent_secret: self.agent_secret.clone(),
        }
    }
}

/// The settings of the connection: where the platform is, and who asks.
#[derive(Debug, PartialEq, Eq)]
pub struct ApiConfig {
    pub host_address: String,
    pub identity_config: IdentityConfig,
}

impl Clone for ApiConfig {
    fn clone(&self) -> (copy: Self)
        ensures
            copy == *self,
    {
        ApiConfig {
            host_address: self.host_address.clone(),
            identity_config: self.identity_config.clone(),
        }
    }
}

impl ApiConfig {
    /// The settings that the seven configured values give. The agent is
    /// known by `agent_name` behind a number sign, and signs with the key
    /// named [`AGENT_KEY_NAME`].
    pub fn new(
        host_address: String,
        resolver_address: String,
        user_did: String,
        agent_did: String,
        agent_name: &str,
        agent_secret: String,
        token_duration: i64,
    ) -> (config: ApiConfig)
        ensures
            config.host_address == host_address,
            config.identity_config@ == (IdentityConfigView {
                resolver_address: resolver_address@,
                token_duration,
                user_did: user_did@,
                agent_did: agent_did@,
                agent_key_name: AGENT_KEY_NAME@,
                agent_name: "#"@ + agent_name@,
                agent_secret: agent_secret@,
            }),
    {
        ApiConfig {
            host_address,
            identity_config: IdentityConfig {
                resolver_address,
                token_duration,
                user_did,
                agent_did,
                agent_key_name: String::from_str(AGENT_KEY_NAME),
                agent_name: String::from_str("#").concat(agent_name),
                agent_secret,
            },
        }
    }
}

/// The credential that `minted` becomes: the word `bearer`, a space, and the
/// token.
pub open spec fn bearer(minted: Seq<char>) -> Seq<char> {
    "bearer "@ + minted
}

/// The settings and the credential of one process. The credential is minted
/// when it is first asked for and kept from then on.
#[derive(Debug, PartialEq, Eq)]
pub struct AuthBuilder {
    api_config: ApiConfig,
    token: Option<String>,
}

impl AuthBuilder {
    /// The settings.
    pub closed spec fn api_config(&self) -> ApiConfig {
        self.api_config
    }

    /// The credential that is kept, if one was minted.
    pub closed spec fn token(&self) -> Option<Seq<char>> {
        match self.token {
            Some(token) => Some(token@),
            None => None,
        }
    }

    /// A provider with `api_config` for its settings and no credential yet.
    pub fn new(api_config: ApiConfig) -> (builder: AuthBuilder)
        ensures
            builder.api_config() == api_config,
            builder.token().is_none(),
    {
        AuthBuilder { api_config, token: None }
    }

    pub fn get_identity_config(&self) -> (config: IdentityConfig)
        ensures
            config == self.api_config().identity_config,
    {
        self.api_config.identity_config.clone()
    }

    pub fn get_host(&self) -> (host: String)
        ensures
            host == self.api_config().host_address,
    {
        self.api_config.host_address.clone()
    }

    /// The credential that is kept, if one was minted.
    pub fn get_token(&self) -> (token: Option<String>)
        ensures
            match token {
                Some(kept) => self.token() == Some(kept@),
                None => self.token().is_none(),
            },
    {
        match &self.token {
            Some(kept) => Some(kept.clone()),
            None => None,
        }
    }

    /// Keeps the credential made of the freshly minted token `minted`,
    /// unless one is kept already, and hands back the one that is kept: the
    /// first token minted stays for the life of the process.
    pub fn keep_token(&mut self, minted: &str) -> (token: String)
        ensures
            final(self).api_config() == old(self).api_config(),
            final(self).token() == Some(token@),
            token@ == match old(self).token() {
                Some(kept) => kept,
                None => bearer(minted@),
            },
    {
        match &self.token {
            Some(kept) => kept.clone(),
            None => {
                let token = String::from_str("bearer ").concat(minted);
                self.token = Some(token.clone());
                token
            },
        }
    }
}

} // verus!
