//! Settings of the headless mode read from the `[exec]` section of the
//! configuration file: the automation mode and its template files.
use vstd::prelude::*;
use crate::driver::AutoSummary;
use crate::text::same_text;

verus! {

/// The `[exec.prompts]` table.
#[derive(Debug, Clone, Default)]
pub struct ExecPromptsCfg {
    pub summary_rich_file: Option<String>,
    pub summary_brief_file: Option<String>,
}

/// The `[exec]` section.
#[derive(Debug, Clone, Default)]
pub struct ExecSectionCfg {
    pub auto_summary: Option<String>,
    pub prompts: Option<ExecPromptsCfg>,
}

/// The headless-mode settings taken from the configuration file.
#[derive(Debug, Clone, Default)]
pub struct ExecOverrides {
    pub auto_summary: Option<AutoSummary>,
    pub summary_rich_file: Option<String>,
    pub summary_brief_file: Option<String>,
}

/// The automation mode that a configured value names; other values name none.
pub open spec fn auto_summary_of(s: Seq<char>) -> Option<AutoSummary> {
    if s == "rich"@ {
        Some(AutoSummary::Rich)
    } else if s == "brief"@ {
        Some(AutoSummary::Brief)
    } else {
        None
    }
}

/// The settings that an `[exec]` section gives; without one, none are set.
pub open spec fn overrides_match(section: Option<ExecSectionCfg>, o: ExecOverrides) -> bool {
    match section {
        None => o.auto_summary is None && o.summary_rich_file is None && o.summary_brief_file is None,
        Some(sec) => {
            &&& o.auto_summary == match sec.auto_summary {
                Some(s) => auto_summary_of(s@),
                None => None,
            }
            &&& match sec.prompts {
                Some(p) => o.summary_rich_file == p.summary_rich_file && o.summary_brief_file
                    == p.summary_brief_file,
                None => o.summary_rich_file is None && o.summary_brief_file is None,
            }
        },
    }
}

/// The automation mode that a configured value names.
pub fn parse_auto_summary(s: &str) -> (r: Option<AutoSummary>)
    ensures
        r == auto_summary_of(s@),
{
    if same_text(s, "rich") {
        Some(AutoSummary::Rich)
    } else if same_text(s, "brief") {
        Some(AutoSummary::Brief)
    } else {
        None
    }
}

/// The headless-mode settings of a parsed `[exec]` section.
pub fn exec_overrides_from(section: Option<ExecSectionCfg>) -> (r: ExecOverrides)
    ensures
        overrides_match(section, r),
{
    match section {
        None => ExecOverrides { auto_summary: None, summary_rich_file: None, summary_brief_file: None },
        Some(sec) => {
            let auto_summary = match &sec.auto_summary {
                Some(s) => parse_auto_summary(s.as_str()),
                None => None,
            };
            match sec.prompts {
                Some(p) => ExecOverrides {
                    auto_summary,
                    summary_rich_file: p.summary_rich_file,
                    summary_brief_file: p.summary_brief_file,
                },
                None => ExecOverrides { auto_summary, summary_rich_file: None, summary_brief_file: None },
            }
        },
    }
}

/// The automation mode in effect: the command line's, else the configured one.
pub fn effective_auto_summary(cli: Option<AutoSummary>, configured: Option<AutoSummary>) -> (r:
    Option<AutoSummary>)
    ensures
        r == (if cli is Some {
            cli
        } else {
            configured
        }),
{
    match cli {
        Some(m) => Some(m),
        None => configured,
    }
}

/// Puts the root-level `-c` overrides before those given after a
/// subcommand, so that the latter take precedence.
pub fn prepend_config_flags(subcommand_overrides: &mut Vec<String>, root_overrides: Vec<String>)
    ensures
        final(subcommand_overrides)@ == root_overrides@ + old(subcommand_overrides)@,
{
    let mut merged = root_overrides;
    merged.append(subcommand_overrides);
    *subcommand_overrides = merged;
}

impl ExecOverrides {
    /// The template file configured for `mode`, if any.
    pub fn template_file(&self, mode: AutoSummary) -> (r: Option<String>)
        ensures
            r == match mode {
                AutoSummary::Rich => self.summary_rich_file,
                AutoSummary::Brief => self.summary_brief_file,
            },
    {
        match mode {
            AutoSummary::Rich => self.summary_rich_file.clone(),
            AutoSummary::Brief => self.summary_brief_file.clone(),
        }
    }
}

} // verus!
