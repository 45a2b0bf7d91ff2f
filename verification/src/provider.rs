//! The model providers a session can be built on, and the configuration
//! checks tied to them.
//!
//! Reading the process environment is the surrounding application's job: it
//! hands in the names of the variables that are set, and the decisions here
//! are made over those plain values.

use vstd::prelude::*;
use crate::errors::ConfigError;
use crate::strutil::{str_eqs, push_chars, string_from_chars};

verus! {

/// The supported model providers.
#[derive(Debug, Clone, Copy, PartialEq, Eq, Structural)]
pub enum Provider {
    Anthropic,
    OpenAI,
    Ollama,
}

/// The names of the environment variables a provider cannot run without.
pub open spec fn required_names(p: Provider) -> Seq<Seq<char>> {
    match p {
        Provider::Anthropic => seq!["ANTHROPIC_API_KEY"@],
        Provider::OpenAI => seq!["OPENAI_API_KEY"@],
        Provider::Ollama => Seq::<Seq<char>>::empty(),
    }
}

/// Whether `name` occurs among `names`.
pub open spec fn name_present(names: Seq<Seq<char>>, name: Seq<char>) -> bool {
    exists|i: int| 0 <= i < names.len() && names[i] == name
}

/// The views of a vector of strings.
pub open spec fn name_views(v: Seq<String>) -> Seq<Seq<char>> {
    v.map_values(|s: String| s@)
}

impl Provider {
    /// The provider's display name.
    pub fn display_name(&self) -> (r: &'static str)
        ensures
            match self {
                Provider::Anthropic => r@ == "anthropic"@,
                Provider::OpenAI => r@ == "open-ai"@,
                Provider::Ollama => r@ == "ollama"@,
            },
    {
        match self {
            Provider::Anthropic => "anthropic",
            Provider::OpenAI => "open-ai",
            Provider::Ollama => "ollama",
        }
    }

    /// The environment variables this provider requires.
    pub fn required_env_vars(&self) -> (r: Vec<&'static str>)
        ensures
            r@.map_values(|s: &str| s@) == required_names(*self),
    {
        let r: Vec<&'static str> = match self {
            Provider::Anthropic => vec!["ANTHROPIC_API_KEY"],
            Provider::OpenAI => vec!["OPENAI_API_KEY"],
            Provider::Ollama => Vec::new(),
        };
        proof {
            assert(r@.map_values(|s: &str| s@) =~= required_names(*self));
        }
        r
    }

    /// Checks that every environment variable the provider requires is among
    /// the given set names. On failure the error names the missing variable.
    pub fn validate_configuration(&self, available: &Vec<String>) -> (r: Result<(), ConfigError>)
        ensures
            r is Ok <==> (forall|j: int|
                0 <= j < required_names(*self).len() ==> name_present(
                    name_views(available@),
                    #[trigger] required_names(*self)[j],
                )),
            r matches Err(e) ==> (e matches ConfigError::Missing { reason } && reason@
                == "environment variable: "@ + required_names(*self)[0]),
    {
        let required = self.required_env_vars();
        let mut j: usize = 0;
        while j < required.len()
            invariant
                j <= required@.len(),
                required@.map_values(|s: &str| s@) == required_names(*self),
                forall|k: int|
                    0 <= k < j ==> name_present(
                        name_views(available@),
                        #[trigger] required_names(*self)[k],
                    ),
            decreases required@.len() - j,
        {
            let name = required[j];
            let mut found = false;
            let mut i: usize = 0;
            while i < available.len()
                invariant
                    i <= available@.len(),
                    name@ == required_names(*self)[j as int],
                    found ==> name_present(name_views(available@), name@),
                    !found ==> forall|k: int|
                        0 <= k < i ==> name_views(available@)[k] != name@,
                decreases available@.len() - i,
            {
                if str_eqs(available[i].as_str(), name) {
                    found = true;
                    proof {
                        assert(name_views(available@)[i as int] == name@);
                    }
                }
                i = i + 1;
            }
            if !found {
                let mut v: Vec<char> = Vec::new();
                push_chars(&mut v, "environment variable: ");
                push_chars(&mut v, name);
                proof {
                    assert(!name_present(name_views(available@), required_names(*self)[j as int]));
                    match *self {
                        Provider::Anthropic => assert(required_names(*self).len() == 1),
                        Provider::OpenAI => assert(required_names(*self).len() == 1),
                        Provider::Ollama => assert(required_names(*self).len() == 0),
                    }
                    assert(j == 0);
                }
                return Result::Err(ConfigError::Missing { reason: string_from_chars(&v) });
            }
            j = j + 1;
        }
        Result::Ok(())
    }
}

/// Resolves the endpoint override for a session. Only the Ollama provider
/// has a default endpoint built from its host variable; for the others the
/// override is used as given.
pub fn resolved_base_url(
    provider: &Provider,
    base_url: &Option<String>,
    ollama_host: &Option<String>,
) -> (r: Option<String>)
    ensures
        match provider {
            Provider::Ollama => r matches Some(u) && u@ == (match base_url {
                Option::Some(b) => b@,
                Option::None => "http://"@ + (match ollama_host {
                    Option::Some(h) => h@,
                    Option::None => "localhost:11434"@,
                }) + "/v1"@,
            }),
            _ => crate::message::view_opt_string(r) == crate::message::view_opt_string(*base_url),
        },
{
    match provider {
        Provider::Ollama => match base_url {
            Option::Some(u) => Option::Some(u.clone()),
            Option::None => {
                let mut v: Vec<char> = Vec::new();
                push_chars(&mut v, "http://");
                match ollama_host {
                    Option::Some(h) => push_chars(&mut v, h.as_str()),
                    Option::None => push_chars(&mut v, "localhost:11434"),
                }
                push_chars(&mut v, "/v1");
                Option::Some(string_from_chars(&v))
            },
        },
        _ => crate::message::clone_opt_string(base_url),
    }
}

} // verus!
