//! Log namespaces: how a source lays out the metadata of its events.

use vstd::prelude::*;
use vstd::std_specs::convert::{FromSpec, FromSpecImpl};

verus! {

/// Where the metadata of an event goes.
#[derive(Clone, Copy, Debug, PartialEq, Eq, Structural)]
pub enum LogNamespace {
    /// Into the metadata of the event, apart from its fields.
    Vector,
    /// Among the fields of the event.
    Legacy,
}

impl From<bool> for LogNamespace {
    fn from(enabled: bool) -> (namespace: Self) {
        if enabled {
            LogNamespace::Vector
        } else {
            LogNamespace::Legacy
        }
    }
}

impl FromSpecImpl<bool> for LogNamespace {
    open spec fn obeys_from_spec() -> bool {
        true
    }

    open spec fn from_spec(enabled: bool) -> Self {
        if enabled {
            LogNamespace::Vector
        } else {
            LogNamespace::Legacy
        }
    }
}

/// The namespace that an optional setting stands for: legacy unless it is on.
pub open spec fn namespace_of(setting: Option<bool>) -> LogNamespace {
    if setting == Some(true) {
        LogNamespace::Vector
    } else {
        LogNamespace::Legacy
    }
}

impl LogNamespace {
    /// The namespace that `override_value` says, or this one if it says none.
    pub fn merge(&self, override_value: Option<LogNamespace>) -> (merged: LogNamespace)
        ensures
            merged == match override_value {
                Some(namespace) => namespace,
                None => *self,
            },
    {
        match override_value {
            Some(namespace) => namespace,
            None => *self,
        }
    }
}

/// What a source is told of the pipeline that it is built for.
#[derive(Clone, Copy, Debug)]
pub struct SourceContext {
    /// Whether the pipeline as a whole uses log namespaces, if it says so.
    pub schema_log_namespace: Option<bool>,
}

impl SourceContext {
    /// The setting that counts: the source's own, and where the source has none,
    /// the pipeline's.
    pub open spec fn effective(self, own: Option<bool>) -> Option<bool> {
        match own {
            Some(_) => own,
            None => self.schema_log_namespace,
        }
    }

    /// The namespace of a source with the setting `own`.
    pub fn log_namespace(&self, own: Option<bool>) -> (namespace: LogNamespace)
        ensures
            namespace == namespace_of(self.effective(own)),
    {
        match own {
            Some(enabled) => LogNamespace::from(enabled),
            None => match self.schema_log_namespace {
                Some(enabled) => LogNamespace::from(enabled),
                None => LogNamespace::from(false),
            },
        }
    }
}

/// Metadata is kept apart exactly if the setting is on. A source's own setting
/// counts, whatever the pipeline says, and the pipeline's where there is none.
pub proof fn law_setting(cx: SourceContext, own: Option<bool>, enabled: bool)
    ensures
        <LogNamespace as FromSpec<bool>>::from_spec(enabled) == LogNamespace::Vector <==> enabled,
        namespace_of(own) == LogNamespace::Vector <==> own == Some(true),
        cx.effective(Some(enabled)) == Some(enabled),
        cx.effective(None) == cx.schema_log_namespace,
        namespace_of(cx.effective(own)) == LogNamespace::Vector <==> (own == Some(true) || (
        own is None && cx.schema_log_namespace == Some(true))),
{
}

/// The namespace of a source is what its own setting says, and what the pipeline
/// says where there is none. One namespace merged with another is the other.
pub proof fn law_namespace_of_source(
    cx: SourceContext,
    own: Option<bool>,
    namespace: LogNamespace,
    global: LogNamespace,
    override_value: Option<LogNamespace>,
    merged: LogNamespace,
)
    requires
        call_ensures(SourceContext::log_namespace, (&cx, own), namespace),
        call_ensures(LogNamespace::merge, (&global, override_value), merged),
    ensures
        namespace == LogNamespace::Vector <==> (own == Some(true) || (own is None
            && cx.schema_log_namespace == Some(true))),
        override_value is Some ==> merged == override_value->0,
        override_value is None ==> merged == global,
{
}

} // verus!
