//! Configuration keys and environments.

use vstd::prelude::*;

verus! {

/// Failures of configuration operations.
#[derive(Debug, Clone)]
pub enum ConfigAdapterError {
    /// No value is stored under `namespace`/`key`.
    NotFound { namespace: String, key: String },
    /// A value has another type than the one asked for.
    InvalidType { key: String, expected: String, actual: String },
    /// The configuration manager failed.
    ManagerError(String),
    /// The storage path is unusable.
    InvalidPath(String),
    /// The text names no known environment.
    InvalidEnvironment(String),
}

/// The configuration settings of the observatory.
#[derive(Debug, Clone, Copy, PartialEq, Eq, Hash, Structural)]
pub enum ObservatoryConfigKey {
    OtlpEndpoint,
    OtlpPort,
    SamplingRate,
    EnablePiiRedaction,
    EnableCostCalculation,
    BatchSize,
    BatchTimeoutMs,
    DatabaseUrl,
    RedisUrl,
    LogLevel,
}

impl ObservatoryConfigKey {
    /// The namespace that `namespace` gives.
    pub open spec fn spec_namespace(self) -> Seq<char> {
        match self {
            ObservatoryConfigKey::OtlpEndpoint
            | ObservatoryConfigKey::OtlpPort
            | ObservatoryConfigKey::SamplingRate => "collector"@,
            ObservatoryConfigKey::EnablePiiRedaction
            | ObservatoryConfigKey::EnableCostCalculation => "processor"@,
            ObservatoryConfigKey::BatchSize | ObservatoryConfigKey::BatchTimeoutMs => "processing"@,
            ObservatoryConfigKey::DatabaseUrl | ObservatoryConfigKey::RedisUrl => "storage"@,
            ObservatoryConfigKey::LogLevel => "observability"@,
        }
    }

    /// The key that `key` gives.
    pub open spec fn spec_key(self) -> Seq<char> {
        match self {
            ObservatoryConfigKey::OtlpEndpoint => "otlp_endpoint"@,
            ObservatoryConfigKey::OtlpPort => "otlp_port"@,
            ObservatoryConfigKey::SamplingRate => "sampling_rate"@,
            ObservatoryConfigKey::EnablePiiRedaction => "enable_pii_redaction"@,
            ObservatoryConfigKey::EnableCostCalculation => "enable_cost_calculation"@,
            ObservatoryConfigKey::BatchSize => "batch_size"@,
            ObservatoryConfigKey::BatchTimeoutMs => "batch_timeout_ms"@,
            ObservatoryConfigKey::DatabaseUrl => "database_url"@,
            ObservatoryConfigKey::RedisUrl => "redis_url"@,
            ObservatoryConfigKey::LogLevel => "log_level"@,
        }
    }

    /// The namespace the setting lives in.
    pub fn namespace(&self) -> (r: &'static str)
        ensures
            r@ == self.spec_namespace(),
    {
        match self {
            ObservatoryConfigKey::OtlpEndpoint
            | ObservatoryConfigKey::OtlpPort
            | ObservatoryConfigKey::SamplingRate => "collector",
            ObservatoryConfigKey::EnablePiiRedaction
            | ObservatoryConfigKey::EnableCostCalculation => "processor",
            ObservatoryConfigKey::BatchSize | ObservatoryConfigKey::BatchTimeoutMs => "processing",
            ObservatoryConfigKey::DatabaseUrl | ObservatoryConfigKey::RedisUrl => "storage",
            ObservatoryConfigKey::LogLevel => "observability",
        }
    }

    /// The setting's key within its namespace.
    pub fn key(&self) -> (r: &'static str)
        ensures
            r@ == self.spec_key(),
    {
        match self {
            ObservatoryConfigKey::OtlpEndpoint => "otlp_endpoint",
            ObservatoryConfigKey::OtlpPort => "otlp_port",
            ObservatoryConfigKey::SamplingRate => "sampling_rate",
            ObservatoryConfigKey::EnablePiiRedaction => "enable_pii_redaction",
            ObservatoryConfigKey::EnableCostCalculation => "enable_cost_calculation",
            ObservatoryConfigKey::BatchSize => "batch_size",
            ObservatoryConfigKey::BatchTimeoutMs => "batch_timeout_ms",
            ObservatoryConfigKey::DatabaseUrl => "database_url",
            ObservatoryConfigKey::RedisUrl => "redis_url",
            ObservatoryConfigKey::LogLevel => "log_level",
        }
    }
}

/// The deployment environments.
#[derive(Debug, Clone, Copy, PartialEq, Eq, Structural)]
pub enum ObservatoryEnvironment {
    Development,
    Staging,
    Production,
}

/// What `str::to_lowercase` makes of `s`.
pub uninterp spec fn lower_of(s: Seq<char>) -> Seq<char>;

/// Relies on `str::to_lowercase`: the lowercase form of `s`, which depends
/// on the characters of `s` alone.
#[verifier::external_body]
fn lowercase(s: &str) -> (r: String)
    ensures
        r@ == lower_of(s@),
{
    s.to_lowercase()
}

/// The environment that a lowercase name stands for, if any.
pub open spec fn environment_named(name: Seq<char>) -> Option<ObservatoryEnvironment> {
    if name == "dev"@ || name == "development"@ {
        Some(ObservatoryEnvironment::Development)
    } else if name == "staging"@ || name == "stage"@ {
        Some(ObservatoryEnvironment::Staging)
    } else if name == "prod"@ || name == "production"@ {
        Some(ObservatoryEnvironment::Production)
    } else {
        None
    }
}

impl ObservatoryEnvironment {
    /// The environment that the already lowercased `name` stands for: `dev`
    /// or `development`, `staging` or `stage`, `prod` or `production`.
    pub fn from_lowercase(name: &str) -> (r: Option<ObservatoryEnvironment>)
        ensures
            r == environment_named(name@),
    {
        let n = String::from_str(name);
        if n == String::from_str("dev") || n == String::from_str("development") {
            Some(ObservatoryEnvironment::Development)
        } else if n == String::from_str("staging") || n == String::from_str("stage") {
            Some(ObservatoryEnvironment::Staging)
        } else if n == String::from_str("prod") || n == String::from_str("production") {
            Some(ObservatoryEnvironment::Production)
        } else {
            None
        }
    }

    /// Parses an environment name in any letter case.
    pub fn try_from(s: &str) -> (r: Result<ObservatoryEnvironment, ConfigAdapterError>)
        ensures
            match environment_named(lower_of(s@)) {
                Some(e) => r == Ok::<ObservatoryEnvironment, ConfigAdapterError>(e),
                None => r matches Err(ConfigAdapterError::InvalidEnvironment(m)) && m@ == s@,
            },
    {
        let lowered = lowercase(s);
        match ObservatoryEnvironment::from_lowercase(lowered.as_str()) {
            Some(e) => Ok(e),
            None => Err(ConfigAdapterError::InvalidEnvironment(String::from_str(s))),
        }
    }
}

} // verus!
