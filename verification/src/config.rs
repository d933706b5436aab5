//! Configuration values: the broker endpoint, the temporary directory, the
//! module list, and per-module key/value overrides.
//!
//! Reading the configuration file and the environment is the host program's
//! work; it hands the raw values here. Combining them is this module's
//! verified logic: an environment-provided value takes precedence over a
//! file-provided one, the temporary directory falls back to a default, and
//! a required value missing from both sources is a configuration error.

use vstd::prelude::*;
use vstd::string::StringExecFns;

use crate::error::Error;
use crate::kv::{lookup, spec_lookup};
use crate::text::{push_char, spec_decimal, u32_to_string};

verus! {

/// The default temporary directory, used when neither source names one.
pub const DEFAULT_TMP_DIR: &'static str = "/tmp";

/// The broker endpoint and process-wide settings.
#[derive(Debug)]
pub struct AlfredConfig {
    pub url: String,
    pub pub_port: u32,
    pub sub_port: u32,
    pub tmp_dir: String,
    pub modules: Vec<String>,
}

/// The settings the environment provides; each is optional.
#[derive(Debug)]
pub struct EnvAlfredConfig {
    pub url: Option<String>,
    pub pub_port: Option<u32>,
    pub sub_port: Option<u32>,
    pub tmp_dir: Option<String>,
}

/// The settings the configuration file provides; each is optional, so that
/// a value missing from both sources can be reported rather than assumed.
#[derive(Debug)]
pub struct FromFileAlfredConfig {
    pub url: Option<String>,
    pub pub_port: Option<u32>,
    pub sub_port: Option<u32>,
    pub tmp_dir: Option<String>,
    pub modules: Vec<String>,
}

impl AlfredConfig {
    /// Combines environment-provided and file-provided settings. The
    /// environment takes precedence; the temporary directory falls back to
    /// the default; `url`, `pub_port` and `sub_port` are required, and the
    /// first one missing from both sources is the reported error.
    pub fn merge(env: EnvAlfredConfig, file: FromFileAlfredConfig) -> (r: Result<
        AlfredConfig,
        Error,
    >)
        ensures
            r is Ok <==> ((env.url is Some || file.url is Some) && (env.pub_port is Some
                || file.pub_port is Some) && (env.sub_port is Some || file.sub_port is Some)),
            r matches Ok(c) ==> {
                &&& c.url@ == (match env.url {
                    Some(u) => u@,
                    None => file.url->0@,
                })
                &&& c.pub_port == (match env.pub_port {
                    Some(p) => p,
                    None => file.pub_port->0,
                })
                &&& c.sub_port == (match env.sub_port {
                    Some(p) => p,
                    None => file.sub_port->0,
                })
                &&& c.tmp_dir@ == (match env.tmp_dir {
                    Some(d) => d@,
                    None => match file.tmp_dir {
                        Some(d) => d@,
                        None => "/tmp"@,
                    },
                })
                &&& c.modules == file.modules
            },
            r matches Err(e) ==> {
                &&& e is MissingFilePropertyError
                &&& env.url is None && file.url is None ==> e->MissingFilePropertyError_0@
                    == "alfred.url"@
                &&& (env.url is Some || file.url is Some) && env.pub_port is None
                    && file.pub_port is None ==> e->MissingFilePropertyError_0@
                    == "alfred.pub_port"@
                &&& (env.url is Some || file.url is Some) && (env.pub_port is Some
                    || file.pub_port is Some) ==> e->MissingFilePropertyError_0@
                    == "alfred.sub_port"@
            },
    {
        let url = match env.url {
            Some(u) => u,
            None => match file.url {
                Some(u) => u,
                None => {
                    return Err(Error::MissingFilePropertyError(String::from_str("alfred.url")));
                },
            },
        };
        let pub_port = match env.pub_port {
            Some(p) => p,
            None => match file.pub_port {
                Some(p) => p,
                None => {
                    return Err(
                        Error::MissingFilePropertyError(String::from_str("alfred.pub_port")),
                    );
                },
            },
        };
        let sub_port = match env.sub_port {
            Some(p) => p,
            None => match file.sub_port {
                Some(p) => p,
                None => {
                    return Err(
                        Error::MissingFilePropertyError(String::from_str("alfred.sub_port")),
                    );
                },
            },
        };
        let tmp_dir = match env.tmp_dir {
            Some(d) => d,
            None => match file.tmp_dir {
                Some(d) => d,
                None => String::from_str(DEFAULT_TMP_DIR),
            },
        };
        Ok(AlfredConfig { url, pub_port, sub_port, tmp_dir, modules: file.modules })
    }
}

/// The whole configuration of one module process: the shared settings and
/// the module's own key/value overrides.
#[derive(Debug)]
pub struct Config {
    pub alfred: AlfredConfig,
    pub module: Vec<(String, String)>,
}

/// The `host:port` form of an endpoint.
pub open spec fn spec_endpoint(url: Seq<char>, port: u32) -> Seq<char> {
    url + seq![':'] + spec_decimal(port as int)
}

impl Config {
    /// Assembles a configuration from the shared settings and one module's
    /// key/value overrides.
    pub fn new(alfred: AlfredConfig, module: Vec<(String, String)>) -> (r: Self)
        ensures
            r.alfred == alfred,
            r.module@ == module@,
    {
        Config { alfred, module }
    }

    /// The endpoint modules publish to, as `url:pub_port`.
    pub fn get_alfred_pub_url(&self) -> (r: String)
        ensures
            r@ == spec_endpoint(self.alfred.url@, self.alfred.pub_port),
    {
        let mut s = self.alfred.url.clone();
        push_char(&mut s, ':');
        let port = u32_to_string(self.alfred.pub_port);
        s.append(port.as_str());
        proof {
            assert(s@ =~= spec_endpoint(self.alfred.url@, self.alfred.pub_port));
        }
        s
    }

    /// The endpoint modules subscribe to, as `url:sub_port`.
    pub fn get_alfred_sub_url(&self) -> (r: String)
        ensures
            r@ == spec_endpoint(self.alfred.url@, self.alfred.sub_port),
    {
        let mut s = self.alfred.url.clone();
        push_char(&mut s, ':');
        let port = u32_to_string(self.alfred.sub_port);
        s.append(port.as_str());
        proof {
            assert(s@ =~= spec_endpoint(self.alfred.url@, self.alfred.sub_port));
        }
        s
    }

    /// The module's own value under a key, if the key is set.
    pub fn get_module_value(&self, key: &str) -> (r: Option<String>)
        ensures
            r matches Some(v) ==> spec_lookup(self.module@, key@) == Some(v@),
            r is None <==> spec_lookup(self.module@, key@) is None,
    {
        lookup(&self.module, key)
    }
}

} // verus!
