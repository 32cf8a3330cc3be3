//! Run configuration: the three values a session runs with, each with a
//! hardcoded default used when the command line leaves it unset.

use vstd::prelude::*;
use vstd::string::*;

verus! {

/// The command-line values as given; any of them may be absent.
pub struct GPTArgs {
    pub api_url: Option<String>,
    pub gpt_model: Option<String>,
    pub api_key: Option<String>,
}

/// The default completion endpoint base URL.
pub open spec fn spec_default_base_url() -> Seq<char> {
    "https://api.openai.com/v1/"@
}

/// The default model identifier.
pub open spec fn spec_default_model() -> Seq<char> {
    "gpt-3.5-turbo"@
}

/// The default API credential: a placeholder, non-functional until
/// overridden.
pub open spec fn spec_default_api_key() -> Seq<char> {
    "ABCD1234"@
}

/// The given value where present, the fallback where absent.
pub open spec fn resolved_value(given: Option<String>, fallback: Seq<char>) -> Seq<char> {
    match given {
        Some(v) => v@,
        None => fallback,
    }
}

/// The settings a session runs with, every value present.
pub struct Config {
    pub api_url: String,
    pub gpt_model: String,
    pub api_key: String,
}

impl GPTArgs {
    /// Fill each absent value with its default.
    pub fn resolve(self) -> (c: Config)
        ensures
            c.api_url@ == resolved_value(self.api_url, spec_default_base_url()),
            c.gpt_model@ == resolved_value(self.gpt_model, spec_default_model()),
            c.api_key@ == resolved_value(self.api_key, spec_default_api_key()),
    {
        let api_url = match self.api_url {
            Some(v) => v,
            None => "https://api.openai.com/v1/".to_owned(),
        };
        let gpt_model = match self.gpt_model {
            Some(v) => v,
            None => "gpt-3.5-turbo".to_owned(),
        };
        let api_key = match self.api_key {
            Some(v) => v,
            None => "ABCD1234".to_owned(),
        };
        Config { api_url, gpt_model, api_key }
    }
}

} // verus!
