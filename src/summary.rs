//! Text of the automation turn: the built-in prompts, the statistics line,
//! and the choice between a configured template and the built-in default.
use vstd::prelude::*;
use vstd::string::*;
use crate::driver::{AutoSummary, ExecStats};

verus! {

/// The character of one decimal digit.
pub open spec fn digit_char(d: nat) -> char {
    if d == 0 {
        '0'
    } else if d == 1 {
        '1'
    } else if d == 2 {
        '2'
    } else if d == 3 {
        '3'
    } else if d == 4 {
        '4'
    } else if d == 5 {
        '5'
    } else if d == 6 {
        '6'
    } else if d == 7 {
        '7'
    } else if d == 8 {
        '8'
    } else {
        '9'
    }
}

/// The decimal notation of `n`, without leading zeros.
pub open spec fn decimal(n: nat) -> Seq<char>
    decreases n,
{
    if n < 10 {
        seq![digit_char(n)]
    } else {
        decimal(n / 10) + seq![digit_char(n % 10)]
    }
}

/// The statistics line appended to a rich summary request.
pub open spec fn stats_line(commands: nat, tools: nat, patches: nat, errors: nat) -> Seq<char> {
    "Stats: commands="@ + decimal(commands) + ", tools="@ + decimal(tools) + ", patches="@
        + decimal(patches) + ", errors="@ + decimal(errors)
}

/// The opening of the built-in rich summary request.
pub open spec fn rich_intro() -> Seq<char> {
    "Summarize the conversation so far for the human. Start with a one-line outcome, then 3-6 concise bullets. Include a short stats line with counts for commands, tools, patches, and errors. Keep it actionable and avoid repeating raw logs.\n"@
}

/// The built-in brief summary request.
pub open spec fn brief_prompt() -> Seq<char> {
    "Please summarize the conversation so far in 3-5 concise bullets with next steps."@
}

/// The built-in rich summary request for the given counts.
pub open spec fn rich_prompt(commands: nat, tools: nat, patches: nat, errors: nat) -> Seq<char> {
    rich_intro() + stats_line(commands, tools, patches, errors)
}

/// The text of the automation turn: for the rich mode a template gets the
/// statistics line on a line of its own; the brief mode uses a template as
/// it is; without a template the built-in request is used.
pub open spec fn summary_text(mode: AutoSummary, template: Option<Seq<char>>, s: ExecStats) -> Seq<
    char,
> {
    match mode {
        AutoSummary::Rich => match template {
            Some(t) => t + "\n"@ + stats_line(
                s.exec_calls as nat,
                s.mcp_calls as nat,
                s.patches_applied as nat,
                s.errors as nat,
            ),
            None => rich_prompt(
                s.exec_calls as nat,
                s.mcp_calls as nat,
                s.patches_applied as nat,
                s.errors as nat,
            ),
        },
        AutoSummary::Brief => match template {
            Some(t) => t,
            None => brief_prompt(),
        },
    }
}

/// The characters of an optional string.
pub open spec fn text_of(o: Option<String>) -> Option<Seq<char>> {
    match o {
        Some(t) => Some(t@),
        None => None,
    }
}

fn digit_str(d: usize) -> (r: &'static str)
    requires
        d < 10,
    ensures
        r@ == seq![digit_char(d as nat)],
{
    proof {
        reveal_strlit("0");
        reveal_strlit("1");
        reveal_strlit("2");
        reveal_strlit("3");
        reveal_strlit("4");
        reveal_strlit("5");
        reveal_strlit("6");
        reveal_strlit("7");
        reveal_strlit("8");
        reveal_strlit("9");
    }
    if d == 0 {
        "0"
    } else if d == 1 {
        "1"
    } else if d == 2 {
        "2"
    } else if d == 3 {
        "3"
    } else if d == 4 {
        "4"
    } else if d == 5 {
        "5"
    } else if d == 6 {
        "6"
    } else if d == 7 {
        "7"
    } else if d == 8 {
        "8"
    } else {
        "9"
    }
}

/// Appends the decimal notation of `n` to `out`.
pub fn push_decimal(out: &mut String, n: usize)
    ensures
        final(out)@ == old(out)@ + decimal(n as nat),
    decreases n,
{
    if n >= 10 {
        push_decimal(out, n / 10);
    }
    out.append(digit_str(n % 10));
    proof {
        assert(old(out)@ + decimal(n as nat) =~= old(out)@ + (if n >= 10 {
            decimal((n / 10) as nat)
        } else {
            Seq::empty()
        }) + seq![digit_char((n % 10) as nat)]);
    }
}

fn push_stats_line(out: &mut String, commands: usize, tools: usize, patches: usize, errors: usize)
    ensures
        final(out)@ == old(out)@ + stats_line(
            commands as nat,
            tools as nat,
            patches as nat,
            errors as nat,
        ),
{
    out.append("Stats: commands=");
    push_decimal(out, commands);
    out.append(", tools=");
    push_decimal(out, tools);
    out.append(", patches=");
    push_decimal(out, patches);
    out.append(", errors=");
    push_decimal(out, errors);
    proof {
        assert(final(out)@ =~= old(out)@ + stats_line(
            commands as nat,
            tools as nat,
            patches as nat,
            errors as nat,
        ));
    }
}

/// The built-in rich summary request, which ends with the statistics line.
pub fn default_rich_summary_prompt(commands: usize, tools: usize, patches: usize, errors: usize) -> (r:
    String)
    ensures
        r@ == rich_prompt(commands as nat, tools as nat, patches as nat, errors as nat),
{
    let mut s = String::new();
    s.append(
        "Summarize the conversation so far for the human. Start with a one-line outcome, then 3-6 concise bullets. Include a short stats line with counts for commands, tools, patches, and errors. Keep it actionable and avoid repeating raw logs.\n",
    );
    push_stats_line(&mut s, commands, tools, patches, errors);
    proof {
        assert(s@ =~= rich_prompt(commands as nat, tools as nat, patches as nat, errors as nat));
    }
    s
}

/// The built-in brief summary request.
pub fn default_brief_summary_prompt() -> (r: String)
    ensures
        r@ == brief_prompt(),
{
    String::from_str("Please summarize the conversation so far in 3-5 concise bullets with next steps.")
}

/// The text of the automation turn for `mode`, from the contents of the
/// configured template file (`None` when there is none or it could not be
/// read) and the statistics gathered so far.
pub fn summary_prompt(mode: AutoSummary, template: Option<String>, stats: &ExecStats) -> (r: String)
    ensures
        r@ == summary_text(mode, text_of(template), *stats),
{
    match mode {
        AutoSummary::Rich => match template {
            Some(t) => {
                let mut s = t;
                s.append("\n");
                push_stats_line(
                    &mut s,
                    stats.exec_calls,
                    stats.mcp_calls,
                    stats.patches_applied,
                    stats.errors,
                );
                proof {
                    assert(s@ =~= summary_text(mode, text_of(template), *stats));
                }
                s
            },
            None => default_rich_summary_prompt(
                stats.exec_calls,
                stats.mcp_calls,
                stats.patches_applied,
                stats.errors,
            ),
        },
        AutoSummary::Brief => match template {
            Some(t) => t,
            None => default_brief_summary_prompt(),
        },
    }
}

} // verus!
