//! Which model-backed services a client is set up with: the embedding
//! provider chosen by its provider name, and the endpoints of the extraction
//! and conflict-resolution services, which fall back to the embedding's key
//! and base URL, and for a local Ollama provider to its default address.

use vstd::prelude::*;

use crate::embedding_config::EmbeddingConfig;
use crate::text::{opt_text, owned, str_eq};

verus! {

/// The address of a local Ollama server.
pub open spec fn ollama_default_url() -> Seq<char> {
    "http://localhost:11434/v1"@
}

/// The configuration an embedding provider is created from, if any: an
/// `openai` provider needs an API key; an `ollama` provider is local and
/// defaults to the local address; other providers get none.
pub fn embedding_setup(config: &EmbeddingConfig) -> (r: Option<EmbeddingConfig>)
    ensures
        config.provider@ == "openai"@ && config.api_key is Some ==> r == Some(*config),
        config.provider@ == "ollama"@ ==> (r matches Some(c) && c == (EmbeddingConfig {
            base_url: c.base_url,
            ..*config
        }) && opt_text(c.base_url) == (match config.base_url {
            Some(b) => Some(b@),
            None => Some(ollama_default_url()),
        })),
        !(config.provider@ == "openai"@ && config.api_key is Some) && config.provider@ != "ollama"@
            ==> r is None,
{
    proof {
        reveal_strlit("openai");
        reveal_strlit("ollama");
        assert("openai"@ != "ollama"@ ) by {
            assert("openai"@[1] != "ollama"@[1]);
        }
    }
    if str_eq(config.provider.as_str(), "openai") && config.api_key.is_some() {
        Some(config.duplicate())
    } else if str_eq(config.provider.as_str(), "ollama") {
        let base_url = match &config.base_url {
            Some(b) => Some(b.clone()),
            None => Some(owned("http://localhost:11434/v1")),
        };
        Some(EmbeddingConfig { base_url, ..config.duplicate() })
    } else {
        None
    }
}

/// The API key and base URL of an extraction or conflict-resolution
/// service: its own when set, else the embedding's; a base URL still unset
/// for an `ollama` provider is the local address.
pub fn fallback_endpoint(
    own_key: Option<String>,
    own_base_url: Option<String>,
    provider: &str,
    embedding_key: Option<String>,
    embedding_base_url: Option<String>,
) -> (r: (Option<String>, Option<String>))
    ensures
        opt_text(r.0) == (if own_key is Some {
            opt_text(own_key)
        } else {
            opt_text(embedding_key)
        }),
        opt_text(r.1) == (if own_base_url is Some {
            opt_text(own_base_url)
        } else if embedding_base_url is Some {
            opt_text(embedding_base_url)
        } else if provider@ == "ollama"@ {
            Some(ollama_default_url())
        } else {
            None
        }),
{
    let key = match own_key {
        Some(k) => Some(k),
        None => embedding_key,
    };
    let base_url = match own_base_url {
        Some(b) => Some(b),
        None => match embedding_base_url {
            Some(b) => Some(b),
            None => if str_eq(provider, "ollama") {
                Some(owned("http://localhost:11434/v1"))
            } else {
                None
            },
        },
    };
    (key, base_url)
}

} // verus!
