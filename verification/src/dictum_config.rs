//! The shared Dictum server endpoint.
//!
//! The desktop app and the Dictum server must agree on one base URL; it is
//! part of a build's identity, not a user preference. Every derived endpoint
//! joins with `/`, so the base URL is normalised once, without a trailing
//! slash.

use vstd::prelude::*;
use vstd::string::*;
use crate::text::{trim_end_char, trim_end_matches_char};

verus! {

/// The configured base URL of the Dictum server, as written in the build's
/// configuration.
pub const SERVER_BASE_URL_SETTING: &'static str = "http://localhost:8000/dictum";

/// The post-processing model the build asks the gateway for.
pub const POST_PROCESS_MODEL_SETTING: &'static str = "openai/gpt-5.6-luna";

/// The normalised form of a configured base URL: trailing slashes removed.
pub open spec fn normalized_base_url(configured: Seq<char>) -> Seq<char> {
    trim_end_char(configured, '/')
}

/// The Dictum configuration of a build.
pub struct DictumConfig {
    server_base_url: String,
    post_process_model: String,
}

impl DictumConfig {
    /// A configuration from its two settings, the base URL normalised.
    pub fn new(server_base_url: &str, post_process_model: &str) -> (res: DictumConfig)
        ensures
            res.base_url() == normalized_base_url(server_base_url@),
            res.model() == post_process_model@,
    {
        DictumConfig {
            server_base_url: trim_end_matches_char(server_base_url, '/'),
            post_process_model: String::from_str(post_process_model),
        }
    }

    /// The normalised base URL.
    pub closed spec fn base_url(&self) -> Seq<char> {
        self.server_base_url@
    }

    /// The post-processing model.
    pub closed spec fn model(&self) -> Seq<char> {
        self.post_process_model@
    }

    /// Base URL of the Dictum server, without a trailing slash.
    pub fn server_base_url(&self) -> (res: String)
        ensures
            res@ == self.base_url(),
    {
        self.server_base_url.clone()
    }

    /// The model Dictum asks the gateway for.
    pub fn post_process_model(&self) -> (res: String)
        ensures
            res@ == self.model(),
    {
        self.post_process_model.clone()
    }

    /// Endpoint of the model mirror (`{base}/api/hf`), in the shape hf-hub
    /// takes as its API endpoint.
    pub fn model_mirror_endpoint(&self) -> (res: String)
        ensures
            res@ == self.base_url() + "/api/hf"@,
    {
        let mut s = self.server_base_url.clone();
        s.append("/api/hf");
        s
    }

    /// Base URL of the post-processing gateway (`{base}/api/post-process`).
    pub fn post_process_base_url(&self) -> (res: String)
        ensures
            res@ == self.base_url() + "/api/post-process"@,
    {
        let mut s = self.server_base_url.clone();
        s.append("/api/post-process");
        s
    }
}

/// The build's configuration.
pub fn build_config() -> (res: DictumConfig)
    ensures
        res.base_url() == normalized_base_url(SERVER_BASE_URL_SETTING@),
        res.model() == POST_PROCESS_MODEL_SETTING@,
{
    DictumConfig::new(SERVER_BASE_URL_SETTING, POST_PROCESS_MODEL_SETTING)
}

/// Base URL of the Dictum server, without a trailing slash.
pub fn server_base_url() -> (res: String)
    ensures
        res@ == normalized_base_url(SERVER_BASE_URL_SETTING@),
{
    build_config().server_base_url()
}

/// The model Dictum asks the gateway for.
pub fn post_process_model() -> (res: String)
    ensures
        res@ == POST_PROCESS_MODEL_SETTING@,
{
    build_config().post_process_model()
}

/// Law: a normalised base URL never ends with a slash, normalising it again
/// changes nothing, and it is the configured URL up to trailing slashes.
pub proof fn law_base_url_normalisation(configured: Seq<char>)
    ensures
        normalized_base_url(configured).len() == 0 || normalized_base_url(configured).last() != '/',
        normalized_base_url(normalized_base_url(configured)) == normalized_base_url(configured),
        configured.len() >= normalized_base_url(configured).len(),
        configured.take(normalized_base_url(configured).len() as int) == normalized_base_url(configured),
    decreases configured.len(),
{
    if configured.len() > 0 && configured.last() == '/' {
        law_base_url_normalisation(configured.drop_last());
        assert(configured.take(normalized_base_url(configured).len() as int) == configured.drop_last().take(
            normalized_base_url(configured).len() as int,
        ));
    } else {
        assert(configured.take(configured.len() as int) == configured);
    }
}

} // verus!
