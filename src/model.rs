//! Value types: processes, detection rules, configuration and the
//! enumerations that classify them.
use vstd::prelude::*;

verus! {

/// Urgency of a detection rule; `High > Medium > Low`.
#[derive(Debug, Clone, Copy, PartialEq, Eq, Structural)]
pub enum Priority {
    High,
    Medium,
    Low,
}

/// Numeric rank of a priority: a larger rank is more urgent.
pub open spec fn rank(p: Priority) -> int {
    match p {
        Priority::High => 3,
        Priority::Medium => 2,
        Priority::Low => 1,
    }
}

/// `p1` is strictly more urgent than `p2`.
pub open spec fn higher(p1: Priority, p2: Priority) -> bool {
    rank(p1) > rank(p2)
}

/// Lower-case name of a priority.
pub fn priority_to_string(priority: Priority) -> (r: String)
    ensures
        r@ == match priority {
            Priority::High => "high"@,
            Priority::Medium => "medium"@,
            Priority::Low => "low"@,
        },
{
    match priority {
        Priority::High => String::from_str("high"),
        Priority::Medium => String::from_str("medium"),
        Priority::Low => String::from_str("low"),
    }
}

/// Numeric rank of a priority: 3 for `High`, 2 for `Medium`, 1 for `Low`.
pub fn priority_to_value(priority: Priority) -> (r: i32)
    ensures
        r == rank(priority),
{
    match priority {
        Priority::High => 3,
        Priority::Medium => 2,
        Priority::Low => 1,
    }
}

/// Whether `p1` is strictly more urgent than `p2`.
pub fn is_higher_priority(p1: Priority, p2: Priority) -> (r: bool)
    ensures
        r == higher(p1, p2),
{
    let v1 = priority_to_value(p1);
    let v2 = priority_to_value(p2);
    v1 > v2
}

/// Priorities form a strict order: `High > Medium > Low`, no priority is
/// above itself, the order never holds both ways, and it is transitive.
pub proof fn lemma_priority_strict_order(a: Priority, b: Priority, c: Priority)
    ensures
        higher(Priority::High, Priority::Medium),
        higher(Priority::Medium, Priority::Low),
        higher(Priority::High, Priority::Low),
        !higher(a, a),
        higher(a, b) ==> !higher(b, a),
        higher(a, b) && higher(b, c) ==> higher(a, c),
        a != b ==> higher(a, b) || higher(b, a),
{
}

/// Scheduler state of a process.
#[derive(Debug, Clone, Copy, PartialEq, Eq, Structural)]
pub enum ProcessStatus {
    Running,
    Sleeping,
    Stopped,
    Zombie,
}

/// Terminal outcome of one termination attempt.
#[derive(Debug, Clone, Copy, PartialEq, Eq, Structural)]
pub enum ActionResult {
    /// The process is confirmed gone.
    Success,
    /// The process did not exist when the attempt started.
    AlreadyDead,
    /// The operating system refused to deliver a signal.
    PermissionDenied,
    /// The process vanished while a signal was being delivered.
    NotFound,
    /// The process survived the grace period and the forceful signal.
    TimedOut,
    /// Any other unrecoverable condition, such as a pid that is not positive.
    Failed,
}

/// CPU usage is counted in hundredths of a percent: this value is 100%.
pub const CPU_FULL: i64 = 10000;

/// One process of a snapshot of the process table.
#[derive(Debug)]
pub struct Process {
    pub pid: i32,
    pub name: String,
    pub cmdline: String,
    /// CPU usage in hundredths of a percent (`4550` is 45.5%).
    pub cpu_usage: i64,
    /// Resident memory in megabytes.
    pub memory_mb: i64,
    pub status: ProcessStatus,
}

/// A detection rule. A threshold of zero disables its criterion and an
/// empty pattern disables its filter.
#[derive(Debug)]
pub struct DetectionRule {
    pub name: String,
    pub priority: Priority,
    /// Threshold in hundredths of a percent; `0` disables the criterion.
    pub max_cpu_percent: i64,
    /// Threshold in megabytes; `0` disables the criterion.
    pub max_memory_mb: i64,
    pub name_pattern: String,
    pub cmdline_pattern: String,
    pub enabled: bool,
}

impl Clone for Process {
    fn clone(&self) -> (r: Self)
        ensures
            r == *self,
    {
        Process {
            pid: self.pid,
            name: self.name.clone(),
            cmdline: self.cmdline.clone(),
            cpu_usage: self.cpu_usage,
            memory_mb: self.memory_mb,
            status: self.status,
        }
    }
}

impl Clone for DetectionRule {
    fn clone(&self) -> (r: Self)
        ensures
            r == *self,
    {
        DetectionRule {
            name: self.name.clone(),
            priority: self.priority,
            max_cpu_percent: self.max_cpu_percent,
            max_memory_mb: self.max_memory_mb,
            name_pattern: self.name_pattern.clone(),
            cmdline_pattern: self.cmdline_pattern.clone(),
            enabled: self.enabled,
        }
    }
}

/// Process-wide settings of the daemon.
#[derive(Debug, Clone)]
pub struct Config {
    pub check_interval_secs: i64,
    pub rules: Vec<DetectionRule>,
    pub dry_run: bool,
    pub log_file: String,
    pub grace_period_secs: i64,
}

/// A process that may be matched: positive pid, CPU usage within
/// `0..=100%`, memory not negative.
pub open spec fn valid_process(p: Process) -> bool {
    &&& p.pid > 0
    &&& 0 <= p.cpu_usage <= CPU_FULL
    &&& p.memory_mb >= 0
}

/// A usable rule: CPU threshold within `0..=100%`, memory threshold not
/// negative, non-empty name.
pub open spec fn valid_rule(r: DetectionRule) -> bool {
    &&& 0 <= r.max_cpu_percent <= CPU_FULL
    &&& r.max_memory_mb >= 0
    &&& r.name@.len() > 0
}

/// A usable configuration: positive interval, non-empty log file, grace
/// period not negative.
pub open spec fn valid_config(c: Config) -> bool {
    &&& c.check_interval_secs > 0
    &&& c.log_file@.len() > 0
    &&& c.grace_period_secs >= 0
}

pub fn new_process(
    pid: i32,
    name: String,
    cmdline: String,
    cpu_usage: i64,
    memory_mb: i64,
    status: ProcessStatus,
) -> (r: Process)
    ensures
        r.pid == pid,
        r.name == name,
        r.cmdline == cmdline,
        r.cpu_usage == cpu_usage,
        r.memory_mb == memory_mb,
        r.status == status,
{
    Process { pid, name, cmdline, cpu_usage, memory_mb, status }
}

pub fn is_valid_process(proc: Process) -> (r: bool)
    ensures
        r == valid_process(proc),
{
    if proc.pid <= 0 {
        return false;
    }
    if proc.cpu_usage < 0 || proc.cpu_usage > CPU_FULL {
        return false;
    }
    if proc.memory_mb < 0 {
        return false;
    }
    true
}

pub fn new_detection_rule(
    name: String,
    priority: Priority,
    max_cpu: i64,
    max_mem: i64,
    name_pattern: String,
    cmdline_pattern: String,
    enabled: bool,
) -> (r: DetectionRule)
    ensures
        r.name == name,
        r.priority == priority,
        r.max_cpu_percent == max_cpu,
        r.max_memory_mb == max_mem,
        r.name_pattern == name_pattern,
        r.cmdline_pattern == cmdline_pattern,
        r.enabled == enabled,
{
    DetectionRule {
        name,
        priority,
        max_cpu_percent: max_cpu,
        max_memory_mb: max_mem,
        name_pattern,
        cmdline_pattern,
        enabled,
    }
}

pub fn is_valid_rule(rule: DetectionRule) -> (r: bool)
    ensures
        r == valid_rule(rule),
{
    if rule.max_cpu_percent < 0 || rule.max_cpu_percent > CPU_FULL {
        return false;
    }
    if rule.max_memory_mb < 0 {
        return false;
    }
    if rule.name.as_str().is_empty() {
        return false;
    }
    true
}

pub fn new_config(
    check_interval: i64,
    rules: Vec<DetectionRule>,
    dry_run: bool,
    log_file: String,
    grace_period: i64,
) -> (r: Config)
    ensures
        r.check_interval_secs == check_interval,
        r.rules == rules,
        r.dry_run == dry_run,
        r.log_file == log_file,
        r.grace_period_secs == grace_period,
{
    Config {
        check_interval_secs: check_interval,
        rules,
        dry_run,
        log_file,
        grace_period_secs: grace_period,
    }
}

pub fn is_valid_config(config: Config) -> (r: bool)
    ensures
        r == valid_config(config),
{
    if config.check_interval_secs <= 0 {
        return false;
    }
    if config.log_file.as_str().is_empty() {
        return false;
    }
    if config.grace_period_secs < 0 {
        return false;
    }
    true
}

/// The configuration used when none is given: a 60 s interval, no rules,
/// real terminations, `/var/log/reaper.log`, a 5 s grace period.
pub fn default_config() -> (r: Config)
    ensures
        r.check_interval_secs == 60,
        r.rules@.len() == 0,
        !r.dry_run,
        r.log_file@ == "/var/log/reaper.log"@,
        r.grace_period_secs == 5,
        valid_config(r),
{
    let empty_rules: Vec<DetectionRule> = Vec::new();
    let log = String::from_str("/var/log/reaper.log");
    proof {
        reveal_strlit("/var/log/reaper.log");
    }
    new_config(60, empty_rules, false, log, 5)
}

} // verus!
