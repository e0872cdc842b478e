//! One-line text forms of processes, rules and configurations, for logs.
use vstd::prelude::*;
use crate::model::{priority_to_string, Config, DetectionRule, Priority, Process};

verus! {

/// The decimal digit for `d` (`0 <= d < 10`).
pub open spec fn digit_char(d: int) -> char {
    if d == 0 {
        '0'
    } else if d == 1 {
        '1'
    } else if d == 2 {
        '2'
    } else if d == 3 {
        '3'
    } else if d == 4 {
        '4'
    } else if d == 5 {
        '5'
    } else if d == 6 {
        '6'
    } else if d == 7 {
        '7'
    } else if d == 8 {
        '8'
    } else {
        '9'
    }
}

/// The decimal digits of `n`, without leading zeros.
pub open spec fn decimal(n: nat) -> Seq<char>
    decreases n,
{
    if n < 10 {
        seq![digit_char(n as int)]
    } else {
        decimal(n / 10) + seq![digit_char((n % 10) as int)]
    }
}

/// `n` in decimal, with a leading `-` when negative.
pub open spec fn signed_decimal(n: int) -> Seq<char> {
    if n < 0 {
        seq!['-'] + decimal((-n) as nat)
    } else {
        decimal(n as nat)
    }
}

/// A count of hundredths of a percent as a percentage: whole part, then the
/// fraction without trailing zeros (`4550` is `45.5`, `10000` is `100`).
pub open spec fn percent_text(c: int) -> Seq<char> {
    let m = if c < 0 {
        -c
    } else {
        c
    };
    let sign = if c < 0 {
        seq!['-']
    } else {
        Seq::<char>::empty()
    };
    let frac = m % 100;
    let tail = if frac == 0 {
        Seq::<char>::empty()
    } else if frac % 10 == 0 {
        seq!['.', digit_char(frac / 10)]
    } else {
        seq!['.', digit_char(frac / 10), digit_char(frac % 10)]
    };
    sign + decimal((m / 100) as nat) + tail
}

/// The one-character string of digit `d`.
fn digit_str(d: u64) -> (r: &'static str)
    requires
        d < 10,
    ensures
        r@ == seq![digit_char(d as int)],
{
    proof {
        reveal_strlit("0");
        reveal_strlit("1");
        reveal_strlit("2");
        reveal_strlit("3");
        reveal_strlit("4");
        reveal_strlit("5");
        reveal_strlit("6");
        reveal_strlit("7");
        reveal_strlit("8");
        reveal_strlit("9");
    }
    match d {
        0 => "0",
        1 => "1",
        2 => "2",
        3 => "3",
        4 => "4",
        5 => "5",
        6 => "6",
        7 => "7",
        8 => "8",
        _ => "9",
    }
}

/// Appends the decimal digits of `n`.
fn push_decimal(s: &mut String, n: u64)
    ensures
        final(s)@ == old(s)@ + decimal(n as nat),
    decreases n,
{
    if n >= 10 {
        push_decimal(s, n / 10);
    }
    s.append(digit_str(n % 10));
    proof {
        if n >= 10 {
            assert(old(s)@ + decimal(n as nat) =~= old(s)@ + decimal((n / 10) as nat) + seq![
                digit_char((n % 10) as int),
            ]);
        }
    }
}

/// The magnitude of `n`.
fn magnitude(n: i64) -> (r: u64)
    ensures
        r == if n < 0 {
            -n
        } else {
            n as int
        },
{
    if n < 0 {
        (-(n as i128)) as u64
    } else {
        n as u64
    }
}

/// Appends `n` in decimal, signed.
fn push_signed(s: &mut String, n: i64)
    ensures
        final(s)@ == old(s)@ + signed_decimal(n as int),
{
    if n < 0 {
        proof {
            reveal_strlit("-");
        }
        s.append("-");
    }
    push_decimal(s, magnitude(n));
    assert(final(s)@ =~= old(s)@ + signed_decimal(n as int));
}

/// Appends `c` hundredths of a percent as a percentage.
fn push_percent(s: &mut String, c: i64)
    ensures
        final(s)@ == old(s)@ + percent_text(c as int),
{
    let ghost start = s@;
    proof {
        reveal_strlit("-");
        reveal_strlit(".");
    }
    if c < 0 {
        s.append("-");
    }
    let m = magnitude(c);
    push_decimal(s, m / 100);
    let frac = m % 100;
    if frac != 0 {
        s.append(".");
        s.append(digit_str(frac / 10));
        if frac % 10 != 0 {
            s.append(digit_str(frac % 10));
        }
    }
    assert(s@ =~= start + percent_text(c as int));
}

/// `Process[PID=<pid>, name='<name>', CPU=<cpu>%, MEM=<memory>MB]`.
pub fn format_process(proc: Process) -> (r: String)
    ensures
        r@ == "Process[PID="@ + signed_decimal(proc.pid as int) + ", name='"@ + proc.name@
            + "', CPU="@ + percent_text(proc.cpu_usage as int) + "%, MEM="@ + signed_decimal(
            proc.memory_mb as int,
        ) + "MB]"@,
{
    let mut formatted = String::from_str("Process[PID=");
    push_signed(&mut formatted, proc.pid as i64);
    formatted.append(", name='");
    formatted.append(proc.name.as_str());
    formatted.append("', CPU=");
    push_percent(&mut formatted, proc.cpu_usage);
    formatted.append("%, MEM=");
    push_signed(&mut formatted, proc.memory_mb);
    formatted.append("MB]");
    formatted
}

/// The text of a priority, as [`priority_to_string`] gives it.
pub open spec fn priority_text(p: Priority) -> Seq<char> {
    match p {
        Priority::High => "high"@,
        Priority::Medium => "medium"@,
        Priority::Low => "low"@,
    }
}

/// `Rule: <name> [<priority>]`, then ` CPU>threshold` and ` MEM>threshold`
/// for each active threshold and ` pattern:<pattern>` for a name pattern,
/// then ` (enabled)` or ` (disabled)`.
pub fn format_rule(rule: DetectionRule) -> (r: String)
    ensures
        r@ == "Rule: "@ + rule.name@ + " ["@ + priority_text(rule.priority) + "]"@ + (
        if rule.max_cpu_percent > 0 {
            " CPU>threshold"@
        } else {
            Seq::<char>::empty()
        }) + (if rule.max_memory_mb > 0 {
            " MEM>threshold"@
        } else {
            Seq::<char>::empty()
        }) + (if rule.name_pattern@.len() > 0 {
            " pattern:"@ + rule.name_pattern@
        } else {
            Seq::<char>::empty()
        }) + " ("@ + (if rule.enabled {
            "enabled"@
        } else {
            "disabled"@
        }) + ")"@,
{
    let priority_str = priority_to_string(rule.priority);
    let mut result = String::from_str("Rule: ");
    result.append(rule.name.as_str());
    result.append(" [");
    result.append(priority_str.as_str());
    result.append("]");
    let ghost head = result@;
    if rule.max_cpu_percent > 0 {
        result.append(" CPU>threshold");
    }
    let ghost after_cpu = result@;
    if rule.max_memory_mb > 0 {
        result.append(" MEM>threshold");
    }
    let ghost after_mem = result@;
    if !rule.name_pattern.as_str().is_empty() {
        result.append(" pattern:");
        result.append(rule.name_pattern.as_str());
    }
    let ghost after_pattern = result@;
    result.append(" (");
    if rule.enabled {
        result.append("enabled");
    } else {
        result.append("disabled");
    }
    result.append(")");
    proof {
        let cpu_part = if rule.max_cpu_percent > 0 {
            " CPU>threshold"@
        } else {
            Seq::<char>::empty()
        };
        let mem_part = if rule.max_memory_mb > 0 {
            " MEM>threshold"@
        } else {
            Seq::<char>::empty()
        };
        let pattern_part = if rule.name_pattern@.len() > 0 {
            " pattern:"@ + rule.name_pattern@
        } else {
            Seq::<char>::empty()
        };
        assert(after_cpu =~= head + cpu_part);
        assert(after_mem =~= after_cpu + mem_part);
        assert(after_pattern =~= after_mem + pattern_part);
    }
    result
}

/// `Config[interval=secs, rules=count, dry_run=<true|false>, log=<file>,
/// grace=secs]`: the dry-run flag and the log file, between fixed labels.
pub fn format_config(config: Config) -> (r: String)
    ensures
        r@ == "Config[interval=secs, rules=count, dry_run="@ + (if config.dry_run {
            "true"@
        } else {
            "false"@
        }) + ", log="@ + config.log_file@ + ", grace=secs]"@,
{
    let mut result = String::from_str("Config[interval=secs, rules=count, dry_run=");
    if config.dry_run {
        result.append("true");
    } else {
        result.append("false");
    }
    result.append(", log=");
    result.append(config.log_file.as_str());
    result.append(", grace=secs]");
    result
}

} // verus!
