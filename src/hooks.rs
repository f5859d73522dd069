//! Hook configuration: validation of the raw configuration table into typed
//! hook specifications.
use vstd::prelude::*;
use crate::text::{copy_strings, same_text};

verus! {

/// The timeout of a hook whose table gives none.
pub const DEFAULT_HOOK_TIMEOUT_MS: u64 = 2000;

/// Where a hook's output is delivered.
#[derive(Debug, Clone, Copy, PartialEq, Eq, Structural)]
pub enum HookRoute {
    Ui,
    Llm,
    Both,
}

/// What happens when a hook fails.
#[derive(Debug, Clone, Copy, PartialEq, Eq, Structural)]
pub enum HookOnError {
    FailOpen,
    FailClosed,
}

/// One hook as written in the configuration, every field optional.
#[derive(Debug, Clone, Default)]
pub struct HookToml {
    pub command: Option<Vec<String>>,
    pub route: Option<String>,
    pub timeout_ms: Option<u64>,
    pub on_error: Option<String>,
}

/// The hooks table as written in the configuration.
#[derive(Debug, Clone, Default)]
pub struct HooksToml {
    pub session_start: Option<HookToml>,
    pub session_end: Option<HookToml>,
    pub pre_command: Option<HookToml>,
    pub post_command: Option<HookToml>,
}

/// A validated hook.
#[derive(Debug, Clone, PartialEq, Eq)]
pub struct HookSpec {
    pub command: Vec<String>,
    pub route: HookRoute,
    pub timeout_ms: u64,
    pub on_error: HookOnError,
}

/// The validated hooks.
#[derive(Debug, Clone, PartialEq, Eq)]
pub struct HooksConfig {
    pub session_start: Option<HookSpec>,
    pub session_end: Option<HookSpec>,
    pub pre_command: Option<HookSpec>,
    pub post_command: Option<HookSpec>,
}

/// Why a hook table is refused.
#[derive(Debug, Clone, PartialEq, Eq)]
pub enum HookError {
    /// A hook has no `command`.
    MissingCommand,
    /// A hook's `route` is not one of `ui`, `llm`, `both`.
    InvalidRoute(String),
    /// A hook's `on_error` is not one of `fail-open`, `fail-closed`.
    InvalidOnError(String),
}

/// A hook error with its text as characters.
pub enum HookErrorModel {
    MissingCommand,
    InvalidRoute(Seq<char>),
    InvalidOnError(Seq<char>),
}

impl View for HookError {
    type V = HookErrorModel;

    open spec fn view(&self) -> HookErrorModel {
        match self {
            HookError::MissingCommand => HookErrorModel::MissingCommand,
            HookError::InvalidRoute(s) => HookErrorModel::InvalidRoute(s@),
            HookError::InvalidOnError(s) => HookErrorModel::InvalidOnError(s@),
        }
    }
}

/// The route that a `route` value names; an absent one means `ui`.
pub open spec fn route_of(r: Option<String>) -> Option<HookRoute> {
    match r {
        None => Some(HookRoute::Ui),
        Some(s) => if s@ == "ui"@ {
            Some(HookRoute::Ui)
        } else if s@ == "llm"@ {
            Some(HookRoute::Llm)
        } else if s@ == "both"@ {
            Some(HookRoute::Both)
        } else {
            None
        },
    }
}

/// The policy that an `on_error` value names; an absent one means fail-open.
pub open spec fn on_error_of(r: Option<String>) -> Option<HookOnError> {
    match r {
        None => Some(HookOnError::FailOpen),
        Some(s) => if s@ == "fail-closed"@ {
            Some(HookOnError::FailClosed)
        } else if s@ == "fail-open"@ {
            Some(HookOnError::FailOpen)
        } else {
            None
        },
    }
}

/// The error that validating one hook gives, checked in the order command,
/// route, on_error; `None` when the hook is valid.
pub open spec fn hook_error(ht: HookToml) -> Option<HookErrorModel> {
    if ht.command is None {
        Some(HookErrorModel::MissingCommand)
    } else if route_of(ht.route) is None {
        Some(HookErrorModel::InvalidRoute(ht.route->Some_0@))
    } else if on_error_of(ht.on_error) is None {
        Some(HookErrorModel::InvalidOnError(ht.on_error->Some_0@))
    } else {
        None
    }
}

/// `s` is the validated form of the valid hook `ht`.
pub open spec fn validated(ht: HookToml, s: HookSpec) -> bool {
    &&& s.command.deep_view() == ht.command->Some_0.deep_view()
    &&& Some(s.route) == route_of(ht.route)
    &&& Some(s.on_error) == on_error_of(ht.on_error)
    &&& s.timeout_ms == match ht.timeout_ms {
        Some(t) => t,
        None => DEFAULT_HOOK_TIMEOUT_MS,
    }
}

/// The error of an optional hook.
pub open spec fn slot_error(h: Option<HookToml>) -> Option<HookErrorModel> {
    match h {
        None => None,
        Some(ht) => hook_error(ht),
    }
}

/// `s` is the validated form of the optional hook `h`.
pub open spec fn slot_validated(h: Option<HookToml>, s: Option<HookSpec>) -> bool {
    match h {
        None => s is None,
        Some(ht) => s is Some && validated(ht, s->Some_0),
    }
}

/// The first error among the four hooks, in the order session_start,
/// session_end, pre_command, post_command.
pub open spec fn hooks_error(t: HooksToml) -> Option<HookErrorModel> {
    if slot_error(t.session_start) is Some {
        slot_error(t.session_start)
    } else if slot_error(t.session_end) is Some {
        slot_error(t.session_end)
    } else if slot_error(t.pre_command) is Some {
        slot_error(t.pre_command)
    } else {
        slot_error(t.post_command)
    }
}

fn parse_route(r: &Option<String>) -> (out: Option<HookRoute>)
    ensures
        out == route_of(*r),
{
    match r {
        None => Some(HookRoute::Ui),
        Some(s) => if same_text(s.as_str(), "ui") {
            Some(HookRoute::Ui)
        } else if same_text(s.as_str(), "llm") {
            Some(HookRoute::Llm)
        } else if same_text(s.as_str(), "both") {
            Some(HookRoute::Both)
        } else {
            None
        },
    }
}

fn parse_on_error(r: &Option<String>) -> (out: Option<HookOnError>)
    ensures
        out == on_error_of(*r),
{
    match r {
        None => Some(HookOnError::FailOpen),
        Some(s) => if same_text(s.as_str(), "fail-closed") {
            Some(HookOnError::FailClosed)
        } else if same_text(s.as_str(), "fail-open") {
            Some(HookOnError::FailOpen)
        } else {
            None
        },
    }
}

/// Validates one hook.
pub fn hook_spec_from_toml(ht: &HookToml) -> (r: Result<HookSpec, HookError>)
    ensures
        match r {
            Ok(s) => hook_error(*ht) is None && validated(*ht, s),
            Err(e) => hook_error(*ht) == Some(e@),
        },
{
    let cmd = match &ht.command {
        Some(c) => copy_strings(c),
        None => return Err(HookError::MissingCommand),
    };
    let route = match parse_route(&ht.route) {
        Some(r) => r,
        None => return Err(HookError::InvalidRoute(ht.route.as_ref().unwrap().clone())),
    };
    let on_error = match parse_on_error(&ht.on_error) {
        Some(o) => o,
        None => return Err(HookError::InvalidOnError(ht.on_error.as_ref().unwrap().clone())),
    };
    let timeout_ms = match ht.timeout_ms {
        Some(t) => t,
        None => DEFAULT_HOOK_TIMEOUT_MS,
    };
    Ok(HookSpec { command: cmd, route, timeout_ms, on_error })
}

fn slot_from_toml(h: &Option<HookToml>) -> (r: Result<Option<HookSpec>, HookError>)
    ensures
        match r {
            Ok(s) => slot_error(*h) is None && slot_validated(*h, s),
            Err(e) => slot_error(*h) == Some(e@),
        },
{
    match h {
        None => Ok(None),
        Some(ht) => match hook_spec_from_toml(ht) {
            Ok(s) => Ok(Some(s)),
            Err(e) => Err(e),
        },
    }
}

impl HooksConfig {
    /// Validates the hooks table: every hook present needs a command, a
    /// known route (default `ui`) and a known failure policy (default
    /// fail-open); its timeout defaults to two seconds. The first invalid
    /// hook, in declaration order, gives the error.
    pub fn from_toml(t: &HooksToml) -> (r: Result<HooksConfig, HookError>)
        ensures
            match r {
                Ok(c) => {
                    &&& hooks_error(*t) is None
                    &&& slot_validated(t.session_start, c.session_start)
                    &&& slot_validated(t.session_end, c.session_end)
                    &&& slot_validated(t.pre_command, c.pre_command)
                    &&& slot_validated(t.post_command, c.post_command)
                },
                Err(e) => hooks_error(*t) == Some(e@),
            },
    {
        let session_start = match slot_from_toml(&t.session_start) {
            Ok(s) => s,
            Err(e) => return Err(e),
        };
        let session_end = match slot_from_toml(&t.session_end) {
            Ok(s) => s,
            Err(e) => return Err(e),
        };
        let pre_command = match slot_from_toml(&t.pre_command) {
            Ok(s) => s,
            Err(e) => return Err(e),
        };
        let post_command = match slot_from_toml(&t.post_command) {
            Ok(s) => s,
            Err(e) => return Err(e),
        };
        Ok(HooksConfig { session_start, session_end, pre_command, post_command })
    }
}

} // verus!
