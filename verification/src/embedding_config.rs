//! Embedding provider settings: which provider and model, how to reach it,
//! and the vector dimension it produces.

use vstd::prelude::*;

use crate::text::{opt_text, owned, str_eq};

verus! {

/// The dimension of OpenAI's `text-embedding-ada-002` vectors.
pub const OPENAI_ADA_002: usize = 1536;

/// The embedding dimension known for a model name; 1536 (the OpenAI
/// default) for any other name.
pub open spec fn inferred_dimension(m: Seq<char>) -> usize {
    if m == "text-embedding-3-large"@ {
        3072
    } else if m == "text-embedding-3-small"@ {
        1536
    } else if m == "text-embedding-ada-002"@ {
        1536
    } else if m == "nomic-embed-text"@ {
        768
    } else if m == "all-minilm"@ || m == "all-minilm:l6-v2"@ {
        384
    } else if m == "mxbai-embed-large"@ {
        1024
    } else if m == "snowflake-arctic-embed"@ {
        1024
    } else if m == "bge-large"@ {
        1024
    } else if m == "bge-m3"@ {
        1024
    } else {
        1536
    }
}

/// Infer embedding dimension from a known model name.
///
/// Covers OpenAI and common Ollama embedding models. Returns 1536 for
/// unrecognised models (the OpenAI default).
pub fn infer_embedding_dimension(model: &str) -> (d: usize)
    ensures
        d == inferred_dimension(model@),
{
    if str_eq(model, "text-embedding-3-large") {
        3072
    } else if str_eq(model, "text-embedding-3-small") {
        1536
    } else if str_eq(model, "text-embedding-ada-002") {
        1536
    } else if str_eq(model, "nomic-embed-text") {
        768
    } else if str_eq(model, "all-minilm") || str_eq(model, "all-minilm:l6-v2") {
        384
    } else if str_eq(model, "mxbai-embed-large") {
        1024
    } else if str_eq(model, "snowflake-arctic-embed") {
        1024
    } else if str_eq(model, "bge-large") {
        1024
    } else if str_eq(model, "bge-m3") {
        1024
    } else {
        1536
    }
}

/// A no-op embedding provider for testing or when embeddings are disabled:
/// every text embeds to the zero vector of the configured dimension.
pub struct NoOpEmbeddingProvider {
    dimension: usize,
}

impl NoOpEmbeddingProvider {
    /// Create a new no-op provider with specified dimension.
    pub fn new(dimension: usize) -> (r: Self)
        ensures
            r.spec_dimension() == dimension,
    {
        NoOpEmbeddingProvider { dimension }
    }

    /// The configured dimension.
    pub closed spec fn spec_dimension(&self) -> usize {
        self.dimension
    }

    /// Get the embedding dimension for this provider.
    pub fn dimension(&self) -> (d: usize)
        ensures
            d == self.spec_dimension(),
    {
        self.dimension
    }

    /// Get the provider name.
    pub fn name(&self) -> (r: &'static str)
        ensures
            r@ == "no-op"@,
    {
        "no-op"
    }

    /// Get the model identifier.
    pub fn model(&self) -> (r: &'static str)
        ensures
            r@ == "none"@,
    {
        "none"
    }

    /// Maximum input length this provider can handle: unbounded.
    pub fn max_input_length(&self) -> (r: usize)
        ensures
            r == usize::MAX,
    {
        usize::MAX
    }
}

impl Default for NoOpEmbeddingProvider {
    fn default() -> (r: Self)
        ensures
            r.spec_dimension() == OPENAI_ADA_002,
    {
        Self::new(OPENAI_ADA_002)
    }
}

/// Configuration for embedding providers.
#[derive(Debug, Clone)]
pub struct EmbeddingConfig {
    /// Provider name (openai, cohere, local, etc.)
    pub provider: String,
    /// Model identifier
    pub model: String,
    /// API key (if needed)
    pub api_key: Option<String>,
    /// API base URL (for custom endpoints)
    pub base_url: Option<String>,
    /// Explicit embedding dimension override; takes precedence over the
    /// dimension inferred from the model name.
    pub dimension: Option<usize>,
    /// Maximum batch size
    pub batch_size: usize,
    /// Request timeout in seconds
    pub timeout_secs: u64,
    /// Number of retries
    pub retries: u32,
}

/// The request settings every constructor leaves at their defaults.
pub open spec fn request_settings_are_default(c: EmbeddingConfig) -> bool {
    &&& c.dimension is None
    &&& c.batch_size == 100
    &&& c.timeout_secs == 30
    &&& c.retries == 3
}

impl Default for EmbeddingConfig {
    fn default() -> (r: Self)
        ensures
            r.provider@ == "openai"@,
            r.model@ == "text-embedding-ada-002"@,
            r.api_key is None,
            r.base_url is None,
            request_settings_are_default(r),
    {
        EmbeddingConfig {
            provider: owned("openai"),
            model: owned("text-embedding-ada-002"),
            api_key: None,
            base_url: None,
            dimension: None,
            batch_size: 100,
            timeout_secs: 30,
            retries: 3,
        }
    }
}

impl EmbeddingConfig {
    /// Create config for OpenAI.
    pub fn openai(model: &str) -> (r: Self)
        ensures
            r.provider@ == "openai"@,
            r.model@ == model@,
            r.api_key is None,
            r.base_url is None,
            request_settings_are_default(r),
    {
        EmbeddingConfig { provider: owned("openai"), model: owned(model), ..Default::default() }
    }

    /// Create config for Cohere.
    pub fn cohere(model: &str) -> (r: Self)
        ensures
            r.provider@ == "cohere"@,
            r.model@ == model@,
            r.api_key is None,
            r.base_url is None,
            request_settings_are_default(r),
    {
        EmbeddingConfig { provider: owned("cohere"), model: owned(model), ..Default::default() }
    }

    /// Create config for local/self-hosted model.
    pub fn local(base_url: &str, model: &str) -> (r: Self)
        ensures
            r.provider@ == "local"@,
            r.model@ == model@,
            opt_text(r.base_url) == Some(base_url@),
            r.api_key is None,
            request_settings_are_default(r),
    {
        EmbeddingConfig {
            provider: owned("local"),
            model: owned(model),
            base_url: Some(owned(base_url)),
            api_key: None,
            ..Default::default()
        }
    }

    /// Set API key.
    pub fn with_api_key(self, key: &str) -> (r: Self)
        ensures
            r == (EmbeddingConfig { api_key: r.api_key, ..self }),
            opt_text(r.api_key) == Some(key@),
    {
        EmbeddingConfig { api_key: Some(owned(key)), ..self }
    }

    /// Set batch size.
    pub fn with_batch_size(self, size: usize) -> (r: Self)
        ensures
            r == (EmbeddingConfig { batch_size: size, ..self }),
    {
        EmbeddingConfig { batch_size: size, ..self }
    }

    /// Set timeout.
    pub fn with_timeout(self, secs: u64) -> (r: Self)
        ensures
            r == (EmbeddingConfig { timeout_secs: secs, ..self }),
    {
        EmbeddingConfig { timeout_secs: secs, ..self }
    }

    /// An equal copy of this configuration.
    pub fn duplicate(&self) -> (r: Self)
        ensures
            r == *self,
    {
        EmbeddingConfig {
            provider: self.provider.clone(),
            model: self.model.clone(),
            api_key: match &self.api_key {
                Some(k) => Some(k.clone()),
                None => None,
            },
            base_url: match &self.base_url {
                Some(b) => Some(b.clone()),
                None => None,
            },
            dimension: self.dimension,
            batch_size: self.batch_size,
            timeout_secs: self.timeout_secs,
            retries: self.retries,
        }
    }

    /// The dimension vectors from this configuration have: the explicit
    /// override when set, otherwise the dimension known for the model.
    pub fn effective_dimension(&self) -> (d: usize)
        ensures
            d == (match self.dimension {
                Some(x) => x,
                None => inferred_dimension(self.model@),
            }),
    {
        match self.dimension {
            Some(x) => x,
            None => infer_embedding_dimension(self.model.as_str()),
        }
    }

    /// The base URL requests go to: the configured one, otherwise the public
    /// OpenAI endpoint.
    pub fn effective_base_url(&self) -> (u: String)
        ensures
            u@ == (match self.base_url {
                Some(b) => b@,
                None => "https://api.openai.com/v1"@,
            }),
    {
        match &self.base_url {
            Some(b) => b.clone(),
            None => owned("https://api.openai.com/v1"),
        }
    }
}

} // verus!
