//! Settings of the agent and of the model endpoints it may use.
use vstd::prelude::*;
use vstd::string::StringExecFns;

verus! {

/// Settings of the agent loop.
#[derive(Debug, Clone)]
pub struct AgentConfig {
    pub max_iterations: Option<usize>,
    pub default_llm: String,
}

/// One model endpoint.
#[derive(Debug, Clone)]
pub struct LLMConfig {
    pub model: String,
    pub base_url: String,
    pub api_key: String,
    pub max_tokens: Option<usize>,
}

/// All settings.
#[derive(Debug, Clone)]
pub struct Config {
    pub agent: AgentConfig,
    pub llm: Vec<LLMConfig>,
}

/// Why no endpoint could be chosen.
#[derive(Debug, Clone, PartialEq)]
pub enum ConfigError {
    /// No endpoint has this model name.
    NotFound(String),
}

impl LLMConfig {
    /// The completion budget: the configured one, else 4096.
    pub fn max_tokens(&self) -> (r: usize)
        ensures
            r == match self.max_tokens {
                Some(n) => n,
                None => 4096,
            },
    {
        match self.max_tokens {
            Some(n) => n,
            None => 4096,
        }
    }

    pub fn duplicate(&self) -> (r: LLMConfig)
        ensures
            r.model@ == self.model@,
            r.base_url@ == self.base_url@,
            r.api_key@ == self.api_key@,
            r.max_tokens == self.max_tokens,
    {
        LLMConfig {
            model: self.model.clone(),
            base_url: self.base_url.clone(),
            api_key: self.api_key.clone(),
            max_tokens: self.max_tokens,
        }
    }
}

impl AgentConfig {
    /// The turn budget: the configured one, else 10.
    pub fn max_iterations(&self) -> (r: usize)
        ensures
            r == match self.max_iterations {
                Some(n) => n,
                None => 10,
            },
    {
        match self.max_iterations {
            Some(n) => n,
            None => 10,
        }
    }
}

impl Config {
    /// The endpoint for `model`, or for the default model when none is given: the first
    /// one with that name.
    pub fn get_llm(&self, model: Option<&str>) -> (r: Result<LLMConfig, ConfigError>)
        ensures
            ({
                let target = match model {
                    Some(m) => m@,
                    None => self.agent.default_llm@,
                };
                match r {
                    Ok(c) => exists|i: int|
                        0 <= i < self.llm@.len() && self.llm@[i].model@ == target && (forall|
                            j: int,
                        | 0 <= j < i ==> self.llm@[j].model@ != target) && c.model@
                            == self.llm@[i].model@ && c.base_url@ == self.llm@[i].base_url@
                            && c.api_key@ == self.llm@[i].api_key@ && c.max_tokens
                            == self.llm@[i].max_tokens,
                    Err(ConfigError::NotFound(t)) => t@ == target && forall|i: int|
                        0 <= i < self.llm@.len() ==> self.llm@[i].model@ != target,
                }
            }),
    {
        let target = match model {
            Some(m) => String::from_str(m),
            None => self.agent.default_llm.clone(),
        };
        let mut i: usize = 0;
        while i < self.llm.len()
            invariant
                i <= self.llm.len(),
                target@ == match model {
                    Some(m) => m@,
                    None => self.agent.default_llm@,
                },
                forall|j: int| 0 <= j < i ==> self.llm@[j].model@ != target@,
            decreases self.llm.len() - i,
        {
            if self.llm[i].model == target {
                return Ok(self.llm[i].duplicate());
            }
            i = i + 1;
        }
        Err(ConfigError::NotFound(target))
    }
}

} // verus!
