//! The verified core of the client.
//!
//! A `FuriosaClient` is the resolved endpoint plus the credential pair.  The
//! HTTP shells (asynchronous or blocking) hold one and drive the flow in
//! [`crate::flow`] with it; construction itself is the decision half of the
//! credential protocol, fed with the outcomes of the environment and file
//! reads.

use vstd::prelude::*;

use crate::config::config_load_error;
use crate::config::get_endpoint_from_env;
use crate::config::load_config_file;
use crate::config::normalized;
use crate::config::resolve_credentials;
use crate::config::ConfigFileOutcome;
use crate::config::Credentials;
use crate::config::EnvRead;
use crate::ClientError;
use crate::EnvVarError;

verus! {

/// The server's version report.
pub struct VersionInfo {
    pub version: String,
    pub revision: String,
    pub build_time: String,
}

/// The resolved client state every call is made with.
pub struct FuriosaClient {
    pub endpoint: String,
    pub credentials: Credentials,
}

/// Whether neither optional config file load propagated an error.
pub open spec fn loads_ok(config: ConfigFileOutcome, credential: ConfigFileOutcome) -> bool {
    config_load_error(config) is None && config_load_error(credential) is None
}

impl FuriosaClient {
    /// Builds a client from the outcomes of the start-up reads, in the order
    /// the protocol fixes: first the optional `config` file load, then the
    /// optional `credential` file load, then the two credential variables
    /// (missing either is `NoApiKey`: the client fails closed rather than
    /// hold an empty pair), then the endpoint override.
    pub fn new(
        config_outcome: ConfigFileOutcome,
        credential_outcome: ConfigFileOutcome,
        access_key_id: Option<String>,
        secret_access_key: Option<String>,
        endpoint_read: EnvRead,
    ) -> (r: Result<FuriosaClient, ClientError>)
        ensures
            (config_load_error(config_outcome) matches Some(e) ==> (r matches Err(err) && err
                == e)),
            (config_load_error(config_outcome) is None ==> (config_load_error(credential_outcome)
                matches Some(e) ==> (r matches Err(err) && err == e))),
            (loads_ok(config_outcome, credential_outcome) && (access_key_id is None
                || secret_access_key is None) ==> (r matches Err(err) && err is NoApiKey)),
            (loads_ok(config_outcome, credential_outcome) && access_key_id is Some
                && secret_access_key is Some && endpoint_read is NotUnicode ==> (r matches Err(err)
                && err == ClientError::ConfigEnvVar(EnvVarError::NotUnicode))),
            (loads_ok(config_outcome, credential_outcome) && access_key_id is Some
                && secret_access_key is Some && !(endpoint_read is NotUnicode) ==> (r matches Ok(c)
                && c.credentials.access_key_id == access_key_id->Some_0
                && c.credentials.secret_access_key == secret_access_key->Some_0
                && (endpoint_read matches EnvRead::Present(v) ==> c.endpoint@ == normalized(v@))
                && (endpoint_read is Absent ==> c.endpoint@ == "https://api.furiosa.ai"@))),
    {
        match load_config_file(config_outcome) {
            Ok(_) => {},
            Err(e) => {
                return Err(e);
            },
        }
        match load_config_file(credential_outcome) {
            Ok(_) => {},
            Err(e) => {
                return Err(e);
            },
        }
        let credentials = match resolve_credentials(access_key_id, secret_access_key) {
            Ok(c) => c,
            Err(e) => {
                return Err(e);
            },
        };
        let endpoint = match get_endpoint_from_env(endpoint_read) {
            Ok(s) => s,
            Err(e) => {
                return Err(e);
            },
        };
        Ok(FuriosaClient { endpoint, credentials })
    }

    /// The resolved endpoint the client talks to.
    pub fn endpoint(&self) -> (r: &str)
        ensures
            r@ == self.endpoint@,
    {
        self.endpoint.as_str()
    }

    /// A URL directly under the endpoint: `{endpoint}/{path}`.
    pub fn api_root_path(&self, path: &str) -> (r: String)
        ensures
            r@ == self.endpoint@ + "/"@ + path@,
    {
        let mut s = self.endpoint.clone();
        s.append("/");
        s.append(path);
        s
    }

    /// A URL under the v1 API: `{endpoint}/api/v1/{path}`.
    pub fn api_v1_path(&self, path: &str) -> (r: String)
        ensures
            r@ == self.endpoint@ + "/api/v1/"@ + path@,
    {
        let mut s = self.endpoint.clone();
        s.append("/api/v1/");
        s.append(path);
        s
    }

    /// A URL under a v1alpha1 API: `{endpoint}/api/{api}/v1alpha1/{path}`.
    pub fn api_v1alpha_path(&self, api: &str, path: &str) -> (r: String)
        ensures
            r@ == self.endpoint@ + "/api/"@ + api@ + "/v1alpha1/"@ + path@,
    {
        let mut s = self.endpoint.clone();
        s.append("/api/");
        s.append(api);
        s.append("/v1alpha1/");
        s.append(path);
        s
    }
}

} // verus!
