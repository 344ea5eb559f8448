//! Credential and endpoint resolution.
//!
//! The client reads its access key pair from two environment variables,
//! falling back to an optional per-user config file, and resolves the API
//! endpoint from an override variable or a built-in default.  The file and
//! environment reads themselves are I/O and happen outside this crate; the
//! functions here take their outcomes as plain values and make the decisions.

use vstd::prelude::*;

use crate::ClientError;
use crate::EnvVarError;
use crate::IoErrorKind;

verus! {

/// Name of the environment variable that overrides the API endpoint.
pub const FURIOSA_API_ENDPOINT_ENV: &'static str = "FURIOSA_API_ENDPOINT";

/// Name of the environment variable holding the access key id.
pub const ACCESS_KEY_ID_ENV: &'static str = "FURIOSA_ACCESS_KEY_ID";

/// Name of the environment variable holding the secret access key.
pub const SECRET_ACCESS_KEY_ENV: &'static str = "FURIOSA_SECRET_ACCESS_KEY";

/// Base URL used when no endpoint override is present.
pub const DEFAULT_FURIOSA_API_ENDPOINT: &'static str = "https://api.furiosa.ai";

/// The endpoint text with every trailing slash removed.
pub open spec fn normalized(s: Seq<char>) -> Seq<char>
    decreases s.len(),
{
    if s.len() > 0 && s.last() == '/' {
        normalized(s.drop_last())
    } else {
        s
    }
}

/// A normalized endpoint is empty or does not end in a slash.
pub proof fn lemma_normalized_no_trailing_slash(s: Seq<char>)
    ensures
        normalized(s).len() == 0 || normalized(s).last() != '/',
    decreases s.len(),
{
    if s.len() > 0 && s.last() == '/' {
        lemma_normalized_no_trailing_slash(s.drop_last());
    }
}

/// Normalization is idempotent: stripping trailing slashes from an already
/// stripped endpoint changes nothing.
pub proof fn lemma_normalized_idempotent(s: Seq<char>)
    ensures
        normalized(normalized(s)) == normalized(s),
{
    lemma_normalized_no_trailing_slash(s);
}

/// Strips every trailing `/` from an endpoint.
pub fn normalize_endpoint(s: &str) -> (r: String)
    ensures
        r@ == normalized(s@),
{
    let n: usize = s.unicode_len();
    let mut cut: usize = n;
    proof {
        assert(s@.subrange(0, n as int) =~= s@);
    }
    while cut > 0 && s.get_char(cut - 1) == '/'
        invariant
            cut <= n,
            n == s@.len(),
            normalized(s@) == normalized(s@.subrange(0, cut as int)),
        decreases cut,
    {
        proof {
            let pre = s@.subrange(0, cut as int);
            assert(pre.last() == s@[cut - 1]);
            assert(pre.drop_last() =~= s@.subrange(0, cut - 1));
        }
        cut = cut - 1;
    }
    proof {
        let pre = s@.subrange(0, cut as int);
        if cut > 0 {
            assert(pre.last() == s@[cut - 1]);
        }
        assert(normalized(pre) == pre);
    }
    let r: &str = s.substring_char(0, cut);
    r.to_owned()
}

/// How a read of one environment variable ended, as plain data.
pub enum EnvRead {
    /// The variable was set to this text.
    Present(String),
    /// The variable was not set.
    Absent,
    /// The variable was set but not to valid unicode.
    NotUnicode,
}

/// Resolves the API endpoint from a read of the override variable: a present
/// value is used with its trailing slashes stripped, an absent one falls back
/// to the default base URL, and a non-unicode value is an error.
pub fn get_endpoint_from_env(read: EnvRead) -> (r: Result<String, ClientError>)
    ensures
        (read matches EnvRead::Present(v) ==> (r matches Ok(e) && e@ == normalized(v@))),
        (read is Absent ==> (r matches Ok(e) && e@ == "https://api.furiosa.ai"@)),
        (read is NotUnicode ==> r == Result::<String, ClientError>::Err(
            ClientError::ConfigEnvVar(EnvVarError::NotUnicode),
        )),
{
    match read {
        EnvRead::Present(v) => Ok(normalize_endpoint(v.as_str())),
        EnvRead::Absent => Ok(DEFAULT_FURIOSA_API_ENDPOINT.to_owned()),
        EnvRead::NotUnicode => Err(ClientError::ConfigEnvVar(EnvVarError::NotUnicode)),
    }
}

/// How an attempt to load the optional per-user config file ended.  The file
/// read and parse are I/O and happen outside this crate; this is their
/// outcome as plain data.
pub enum ConfigFileOutcome {
    /// The file existed, parsed, and its variables were applied.
    Applied,
    /// The file could not be read.
    IoFailure(IoErrorKind, String),
    /// A line of the file did not parse: the line text and its index.
    ParseFailure(String, usize),
    /// A variable in the file could not be read back.
    EnvVarFailure(EnvVarError),
}

/// The error, if any, that loading the optional config file propagates: a
/// missing file is none (the file is optional), every other failure is typed.
pub open spec fn config_load_error(o: ConfigFileOutcome) -> Option<ClientError> {
    match o {
        ConfigFileOutcome::Applied => None,
        ConfigFileOutcome::IoFailure(k, m) => if k is NotFound {
            None
        } else {
            Some(ClientError::Io(k, m))
        },
        ConfigFileOutcome::ParseFailure(line, idx) => Some(ClientError::ConfigParse(line, idx)),
        ConfigFileOutcome::EnvVarFailure(v) => Some(ClientError::ConfigEnvVar(v)),
    }
}

/// Decides what an attempt to load the optional config file means: a missing
/// file is not an error (the file is optional), while every other failure is
/// propagated as a typed error.
pub fn load_config_file(outcome: ConfigFileOutcome) -> (r: Result<(), ClientError>)
    ensures
        (config_load_error(outcome) matches Some(e) ==> r == Result::<(), ClientError>::Err(e)),
        (config_load_error(outcome) is None ==> r is Ok),
{
    match outcome {
        ConfigFileOutcome::Applied => Ok(()),
        ConfigFileOutcome::IoFailure(kind, msg) => {
            if kind == IoErrorKind::NotFound {
                // The credential/config file is optional: absence is fine.
                Ok(())
            } else {
                Err(ClientError::Io(kind, msg))
            }
        },
        ConfigFileOutcome::ParseFailure(line, idx) => Err(ClientError::ConfigParse(line, idx)),
        ConfigFileOutcome::EnvVarFailure(v) => Err(ClientError::ConfigEnvVar(v)),
    }
}

/// An access key pair, resolved and known to be present.
pub struct Credentials {
    pub access_key_id: String,
    pub secret_access_key: String,
}

/// Produces the credential pair from the two variable reads, failing closed:
/// unless both keys are present the result is `NoApiKey`, never an empty or
/// partial pair.
pub fn resolve_credentials(
    access_key_id: Option<String>,
    secret_access_key: Option<String>,
) -> (r: Result<Credentials, ClientError>)
    ensures
        (access_key_id is Some && secret_access_key is Some ==> (r matches Ok(c)
            && c.access_key_id == access_key_id->Some_0
            && c.secret_access_key == secret_access_key->Some_0)),
        (access_key_id is None || secret_access_key is None ==> (r matches Err(e)
            && e == ClientError::NoApiKey)),
{
    match access_key_id {
        Some(a) => match secret_access_key {
            Some(s) => Ok(Credentials { access_key_id: a, secret_access_key: s }),
            None => Err(ClientError::NoApiKey),
        },
        None => Err(ClientError::NoApiKey),
    }
}

} // verus!
