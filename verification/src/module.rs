//! Entry points of the module: its start and the filter that it offers.

use crate::config::{
    configured, parsed_view, ConfigError, ConfigErrorView, FilterConfig, FilterConfigView,
    ModuleConfig, ModuleConfigView,
};
use crate::text::{join, same_text};
use vstd::prelude::*;

verus! {

/// How the start of the module goes on.
#[derive(Clone, Copy, Debug, PartialEq, Eq, Structural)]
pub enum InitStep {
    /// Install the TLS crypto provider.
    InstallProvider,
    Ready,
    Failed,
}

/// How the start of the module goes on, given whether a crypto provider is installed and, after an
/// attempt to install one, whether that succeeded. Somebody else may have installed one meanwhile.
pub fn init(provider_installed: bool, attempt: Option<bool>) -> (step: InitStep)
    ensures
        step == match attempt {
            None => if provider_installed {
                InitStep::Ready
            } else {
                InitStep::InstallProvider
            },
            Some(succeeded) => if succeeded || provider_installed {
                InitStep::Ready
            } else {
                InitStep::Failed
            },
        },
{
    match attempt {
        None => {
            if provider_installed {
                InitStep::Ready
            } else {
                InitStep::InstallProvider
            }
        },
        Some(succeeded) => {
            if succeeded || provider_installed {
                InitStep::Ready
            } else {
                InitStep::Failed
            }
        },
    }
}

/// Whether the module offers a filter of this name.
pub fn supports_filter(name: &str) -> (supported: bool)
    ensures
        supported == (name@ == "spanner_request_mapper"@),
{
    same_text(name, "spanner_request_mapper")
}

/// Why no filter configuration is handed to Envoy.
#[derive(Debug, PartialEq, Eq)]
pub enum Refusal {
    /// The module offers no filter of this name.
    UnsupportedName(String),
    Config(ConfigError),
}

/// The model of a `Refusal`.
pub enum RefusalView {
    UnsupportedName(Seq<char>),
    Config(ConfigErrorView),
}

impl View for Refusal {
    type V = RefusalView;

    open spec fn view(&self) -> RefusalView {
        match self {
            Refusal::UnsupportedName(name) => RefusalView::UnsupportedName(name@),
            Refusal::Config(error) => RefusalView::Config(error@),
        }
    }
}

impl RefusalView {
    /// The message shown to operators.
    pub open spec fn message(self) -> Seq<char> {
        match self {
            RefusalView::UnsupportedName(name) => "unsupported filter name: "@ + name,
            RefusalView::Config(error) => "failed to create filter config: "@ + error.message(),
        }
    }
}

impl Refusal {
    /// The message shown to operators.
    pub fn to_string(&self) -> (text: String)
        ensures
            text@ == self@.message(),
    {
        match self {
            Refusal::UnsupportedName(name) => join("unsupported filter name: ", name.as_str()),
            Refusal::Config(error) => {
                let message = error.to_string();
                join("failed to create filter config: ", message.as_str())
            },
        }
    }
}

/// The filter configuration that Envoy is handed for a filter of this name, or why there is none.
/// The name is looked at before the configuration.
pub open spec fn offered(
    name: Seq<char>,
    parsed: Result<ModuleConfigView, Seq<char>>,
    validation_only: bool,
) -> Result<FilterConfigView, RefusalView> {
    if name != "spanner_request_mapper"@ {
        Err(RefusalView::UnsupportedName(name))
    } else {
        match configured(parsed, validation_only) {
            Ok(config) => Ok(config),
            Err(error) => Err(RefusalView::Config(error)),
        }
    }
}

/// Makes the filter configuration for a filter of this name.
pub fn new_filter_config(
    name: &str,
    parsed: Result<ModuleConfig, String>,
    validation_only: bool,
) -> (result: Result<FilterConfig, Refusal>)
    ensures
        match result {
            Ok(config) => offered(name@, parsed_view(parsed), validation_only) == Ok::<
                FilterConfigView,
                RefusalView,
            >(config@),
            Err(refusal) => offered(name@, parsed_view(parsed), validation_only) == Err::<
                FilterConfigView,
                RefusalView,
            >(refusal@),
        },
{
    if !supports_filter(name) {
        return Err(Refusal::UnsupportedName(name.to_owned()));
    }
    match FilterConfig::new(parsed, validation_only) {
        Ok(config) => Ok(config),
        Err(error) => Err(Refusal::Config(error)),
    }
}

} // verus!
