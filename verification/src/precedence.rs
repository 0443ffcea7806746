//! The order in which the sources of an argument's value are consulted.

use vstd::prelude::*;

verus! {

/// Where the value of an argument came from.
#[derive(Debug, Clone, Copy, PartialEq, Eq, Structural)]
pub enum ValueSource {
    /// It was written on the command line.
    CommandLine,
    /// It was read from the environment variable of the argument.
    EnvVariable,
    /// It was derived from the configuration.
    Configuration,
    /// None of these had one: it is the default of the argument's type.
    TypeDefault,
}

impl ValueSource {
    /// Whether the user supplied the value, on the command line or through
    /// the environment. An argument with such a value counts as present
    /// where two arguments exclude one another.
    pub open spec fn is_supplied(self) -> bool {
        self == ValueSource::CommandLine || self == ValueSource::EnvVariable
    }

    /// Whether the user supplied the value.
    pub fn supplied(self) -> (r: bool)
        ensures
            r == self.is_supplied(),
    {
        match self {
            ValueSource::CommandLine => true,
            ValueSource::EnvVariable => true,
            ValueSource::Configuration => false,
            ValueSource::TypeDefault => false,
        }
    }
}

/// The value of an argument: what the command line gave, else what the
/// environment gave, else what the configuration gave, else the fallback.
pub open spec fn layered<T>(
    explicit: Option<T>,
    env: Option<T>,
    computed: Option<T>,
    fallback: T,
) -> T {
    match explicit {
        Some(v) => v,
        None => match env {
            Some(v) => v,
            None => match computed {
                Some(v) => v,
                None => fallback,
            },
        },
    }
}

/// The source that `layered` takes the value from.
pub open spec fn layered_source<T>(
    explicit: Option<T>,
    env: Option<T>,
    computed: Option<T>,
) -> ValueSource {
    if explicit is Some {
        ValueSource::CommandLine
    } else if env is Some {
        ValueSource::EnvVariable
    } else if computed is Some {
        ValueSource::Configuration
    } else {
        ValueSource::TypeDefault
    }
}

/// The value of an argument that may stay without one: what the command
/// line gave, else what the environment gave, else none.
pub open spec fn layered_optional<T>(explicit: Option<T>, env: Option<T>) -> Option<T> {
    match explicit {
        Some(v) => Some(v),
        None => env,
    }
}

/// Picks the value of an argument that may stay without one.
pub fn resolve_optional<T>(explicit: Option<T>, env: Option<T>) -> (r: Option<T>)
    ensures
        r == layered_optional(explicit, env),
{
    match explicit {
        Some(v) => Some(v),
        None => env,
    }
}

/// Picks the value of an argument from its sources, in their order.
pub fn resolve_layered<T>(
    explicit: Option<T>,
    env: Option<T>,
    computed: Option<T>,
    fallback: T,
) -> (r: T)
    ensures
        r == layered(explicit, env, computed, fallback),
{
    match explicit {
        Some(v) => v,
        None => match env {
            Some(v) => v,
            None => match computed {
                Some(v) => v,
                None => fallback,
            },
        },
    }
}

/// Tells which source the value of an argument is taken from.
pub fn source_of<T>(explicit: &Option<T>, env: &Option<T>, computed: &Option<T>) -> (r:
    ValueSource)
    ensures
        r == layered_source(*explicit, *env, *computed),
{
    if explicit.is_some() {
        ValueSource::CommandLine
    } else if env.is_some() {
        ValueSource::EnvVariable
    } else if computed.is_some() {
        ValueSource::Configuration
    } else {
        ValueSource::TypeDefault
    }
}

/// A source that has a value is never passed over for a later one: the
/// value is that of the first source, in the order command line,
/// environment, configuration, that has one.
pub proof fn lemma_earlier_source_wins<T>(
    explicit: Option<T>,
    env: Option<T>,
    computed: Option<T>,
    fallback: T,
)
    ensures
        explicit is Some ==> layered(explicit, env, computed, fallback) == explicit->0,
        explicit is None && env is Some ==> layered(explicit, env, computed, fallback) == env->0,
        explicit is None && env is None && computed is Some ==> layered(
            explicit,
            env,
            computed,
            fallback,
        ) == computed->0,
        explicit is None && env is None && computed is None ==> layered(
            explicit,
            env,
            computed,
            fallback,
        ) == fallback,
{
}

} // verus!
