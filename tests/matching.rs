use reaper::engine::apply_rules;
use reaper::matcher::{
    detect_cpu_hog, detect_memory_hog, match_name_pattern, rule_matches_process,
};
use reaper::model::{
    new_detection_rule, new_process, DetectionRule, Priority, Process, ProcessStatus,
};

/// A percentage as the library counts it: in hundredths of a percent.
fn pct(x: f64) -> i64 {
    (x * 100.0).round() as i64
}

fn cpu_rule(name: &str, max_cpu: f64, enabled: bool) -> DetectionRule {
    new_detection_rule(
        name.to_string(),
        Priority::High,
        pct(max_cpu),
        0,
        "".to_string(),
        "".to_string(),
        enabled,
    )
}

fn memory_rule(name: &str, max_mem: i64) -> DetectionRule {
    new_detection_rule(
        name.to_string(),
        Priority::High,
        pct(0.0),
        max_mem,
        "".to_string(),
        "".to_string(),
        true,
    )
}

fn proc_at(pid: i32, name: &str, cmdline: &str, cpu: f64, mem: i64) -> Process {
    new_process(pid, name.to_string(), cmdline.to_string(), pct(cpu), mem, ProcessStatus::Running)
}

#[test]
fn test_rule_matches_cpu_hog() {
    let rule = cpu_rule("CPU Hog", 80.0, true);
    let cpu_hog = proc_at(1234, "cpu_hog", "/usr/bin/hog", 95.0, 512);
    assert!(rule_matches_process(rule, cpu_hog), "Process exceeding CPU threshold should match");
}

#[test]
fn test_rule_matches_memory_hog() {
    let rule = memory_rule("Memory Hog", 1024);
    let memory_hog = proc_at(1234, "memory_hog", "/usr/bin/hog", 50.0, 2048);
    assert!(rule_matches_process(rule, memory_hog), "Process exceeding memory threshold should match");
}

#[test]
fn test_rule_matches_name_pattern() {
    let rule = new_detection_rule(
        "Python Killer".to_string(),
        Priority::Medium,
        pct(0.0),
        0,
        "python".to_string(),
        "".to_string(),
        true,
    );
    let python_proc = proc_at(1234, "python3.9", "/usr/bin/python3.9", 50.0, 512);
    assert!(rule_matches_process(rule, python_proc), "Process with matching name should match");
}

#[test]
fn test_disabled_rule_no_match() {
    let disabled_rule = new_detection_rule(
        "Disabled".to_string(),
        Priority::Low,
        pct(50.0),
        1024,
        "".to_string(),
        "".to_string(),
        false,
    );
    let proc = proc_at(1234, "test", "/usr/bin/test", 95.0, 512);
    assert!(!rule_matches_process(disabled_rule, proc), "Disabled rule should not match any process");
}

#[test]
fn test_apply_rules_returns_array() {
    let empty_procs: Vec<Process> = vec![];
    let empty_rules: Vec<DetectionRule> = vec![];
    let result = apply_rules(empty_procs, empty_rules);
    assert!(result.is_empty(), "Function should return without error");
}

#[test]
fn test_apply_rules_empty_rules() {
    let procs: Vec<Process> = vec![proc_at(1234, "test", "/bin/test", 50.0, 100)];
    let empty_rules: Vec<DetectionRule> = vec![];
    let result = apply_rules(procs, empty_rules);
    assert!(result.is_empty(), "Empty rules should return empty result");
}

#[test]
fn test_apply_rules_no_matches() {
    let procs: Vec<Process> = vec![proc_at(1234, "test", "/bin/test", 5.0, 100)];
    let rules: Vec<DetectionRule> = vec![cpu_rule("CPU Hog", 80.0, true)];
    let result = apply_rules(procs, rules);
    assert!(result.is_empty(), "No matches should return empty");
}

#[test]
fn test_apply_rules_one_match() {
    let procs: Vec<Process> = vec![proc_at(1234, "hog", "/bin/hog", 95.0, 100)];
    let rules: Vec<DetectionRule> = vec![cpu_rule("CPU Hog", 80.0, true)];
    let result = apply_rules(procs, rules);
    let first = result[0].clone();
    assert!(first.pid == 1234, "Should return matching process");
}

#[test]
fn test_apply_rules_disabled_rule() {
    let procs: Vec<Process> = vec![proc_at(1234, "hog", "/bin/hog", 95.0, 100)];
    let rules: Vec<DetectionRule> = vec![cpu_rule("Disabled", 80.0, false)];
    let result = apply_rules(procs, rules);
    assert!(result.is_empty(), "Disabled rules should not match");
}

#[test]
fn test_apply_rules_multiple_matches() {
    let proc1 = proc_at(1234, "hog1", "/bin/hog1", 90.0, 100);
    let proc2 = proc_at(5678, "hog2", "/bin/hog2", 95.0, 200);
    let procs: Vec<Process> = vec![proc1, proc2];
    let rules: Vec<DetectionRule> = vec![cpu_rule("CPU Hog", 80.0, true)];
    let result = apply_rules(procs, rules);
    assert!(result.len() == 2, "Should return 2 matching processes");
    assert!(result[0].clone().pid == 1234, "First process should be PID 1234");
    assert!(result[1].clone().pid == 5678, "Second process should be PID 5678");
}

#[test]
fn test_detect_cpu_hog_below_threshold() {
    let proc = proc_at(100, "low", "/bin/low", 50.0, 100);
    let rule = cpu_rule("CPU Hog", 80.0, true);
    assert!(!detect_cpu_hog(proc, rule), "CPU below threshold should return false");
}

#[test]
fn test_detect_cpu_hog_above_threshold() {
    let proc = proc_at(100, "high", "/bin/high", 95.0, 100);
    let rule = cpu_rule("CPU Hog", 80.0, true);
    assert!(detect_cpu_hog(proc, rule), "CPU above threshold should return true");
}

#[test]
fn test_detect_cpu_hog_at_threshold() {
    let proc = proc_at(100, "exact", "/bin/exact", 80.0, 100);
    let rule = cpu_rule("CPU Hog", 80.0, true);
    assert!(!detect_cpu_hog(proc, rule), "CPU at threshold should return false (must exceed)");
}

#[test]
fn test_detect_cpu_hog_disabled_threshold() {
    let proc = proc_at(100, "high", "/bin/high", 95.0, 100);
    let rule = cpu_rule("No CPU Check", 0.0, true);
    assert!(!detect_cpu_hog(proc, rule), "Disabled threshold (0.0) should return false");
}

#[test]
fn test_detect_cpu_hog_very_high() {
    let proc = proc_at(100, "maxed", "/bin/maxed", 99.9, 100);
    let rule = cpu_rule("CPU Hog", 50.0, true);
    assert!(detect_cpu_hog(proc, rule), "Very high CPU should return true");
}

#[test]
fn test_detect_memory_hog_below_threshold() {
    let proc = proc_at(100, "small", "/bin/small", 10.0, 1024);
    let rule = memory_rule("Memory Hog", 4096);
    assert!(!detect_memory_hog(proc, rule), "Memory below threshold should return false");
}

#[test]
fn test_detect_memory_hog_above_threshold() {
    let proc = proc_at(100, "large", "/bin/large", 10.0, 8192);
    let rule = memory_rule("Memory Hog", 4096);
    assert!(detect_memory_hog(proc, rule), "Memory above threshold should return true");
}

#[test]
fn test_detect_memory_hog_at_threshold() {
    let proc = proc_at(100, "exact", "/bin/exact", 10.0, 4096);
    let rule = memory_rule("Memory Hog", 4096);
    assert!(!detect_memory_hog(proc, rule), "Memory at threshold should return false (must exceed)");
}

#[test]
fn test_detect_memory_hog_disabled_threshold() {
    let proc = proc_at(100, "large", "/bin/large", 10.0, 8192);
    let rule = memory_rule("No Memory Check", 0);
    assert!(!detect_memory_hog(proc, rule), "Disabled threshold (0) should return false");
}

#[test]
fn test_detect_memory_hog_very_high() {
    let proc = proc_at(100, "huge", "/bin/huge", 10.0, 16384);
    let rule = memory_rule("Memory Hog", 2048);
    assert!(detect_memory_hog(proc, rule), "Very high memory should return true");
}

#[test]
fn test_match_name_pattern_empty() {
    let proc = proc_at(100, "firefox", "/usr/bin/firefox", 10.0, 512);
    assert!(match_name_pattern(proc, "".to_string()), "Empty pattern should match any process");
}

#[test]
fn test_match_name_pattern_exact() {
    let proc = proc_at(100, "chrome", "/usr/bin/chrome", 10.0, 512);
    assert!(match_name_pattern(proc, "chrome".to_string()), "Exact pattern should match");
}

#[test]
fn test_match_name_pattern_partial() {
    let proc = proc_at(100, "firefox-bin", "/usr/bin/firefox-bin", 10.0, 512);
    assert!(match_name_pattern(proc, "firefox".to_string()), "Partial pattern should match substring");
}

#[test]
fn test_match_name_pattern_case_insensitive() {
    let proc = proc_at(100, "Chrome", "/usr/bin/Chrome", 10.0, 512);
    assert!(match_name_pattern(proc, "chrome".to_string()), "Pattern should be case-insensitive");
}

#[test]
fn test_match_name_pattern_no_match() {
    let proc = proc_at(100, "vim", "/usr/bin/vim", 10.0, 512);
    assert!(!match_name_pattern(proc, "emacs".to_string()), "Non-matching pattern should return false");
}

#[test]
fn test_rule_matches_cmdline_pattern() {
    let rule = new_detection_rule(
        "Java Watcher".to_string(),
        Priority::Medium,
        pct(0.0),
        0,
        "".to_string(),
        "java".to_string(),
        true,
    );
    let java_proc = proc_at(1234, "app", "/usr/bin/java -jar app.jar", 50.0, 512);
    assert!(rule_matches_process(rule.clone(), java_proc), "Rule should match process with 'java' in cmdline");
    let other_proc = proc_at(5678, "app", "/usr/bin/python app.py", 50.0, 512);
    assert!(!rule_matches_process(rule, other_proc), "Rule should not match process without 'java' in cmdline");
}

#[test]
fn test_rule_matches_all_disabled_thresholds() {
    let match_all_rule = new_detection_rule(
        "Match All".to_string(),
        Priority::Low,
        pct(0.0),
        0,
        "".to_string(),
        "".to_string(),
        true,
    );
    let any_proc = proc_at(1234, "any_process", "/usr/bin/any", 25.0, 128);
    assert!(rule_matches_process(match_all_rule, any_proc), "Rule with all thresholds disabled should match any process");
}

#[test]
fn test_property_rule_matching_monotonic() {
    let proc = proc_at(5000, "test_proc", "/usr/bin/test", 75.0, 512);
    let thresholds = [50.0, 60.0, 70.0, 80.0, 90.0];
    let mut matches_count = 0;
    let mut i = 0;
    while i < 5 {
        let threshold = pct(thresholds[i as usize]);
        let rule = new_detection_rule(
            "CPU Test".to_string(),
            Priority::Medium,
            threshold,
            0,
            "".to_string(),
            "".to_string(),
            true,
        );
        if proc.cpu_usage >= threshold {
            if rule_matches_process(rule.clone(), proc.clone()) {
                matches_count = matches_count + 1;
            }
        }
        i = i + 1;
    }
    assert!(matches_count >= 3, "Monotonicity: Lower thresholds should match process with 75% CPU");
}

#[test]
fn test_property_match_all_rule() {
    let match_all = new_detection_rule(
        "Match All".to_string(),
        Priority::Low,
        pct(0.0),
        0,
        "".to_string(),
        "".to_string(),
        true,
    );
    let test_processes = [
        proc_at(6001, "low", "/bin/low", 5.0, 10),
        proc_at(6002, "med", "/bin/med", 50.0, 500),
        proc_at(6003, "high", "/bin/high", 95.0, 2000),
        new_process(6004, "zero".to_string(), "/bin/zero".to_string(), pct(0.0), 0, ProcessStatus::Sleeping),
    ];
    let mut i = 0;
    while i < 4 {
        let proc = test_processes[i as usize].clone();
        assert!(rule_matches_process(match_all.clone(), proc.clone()), "Match-all rule should match all processes");
        i = i + 1;
    }
}

#[test]
fn test_property_disabled_rules_never_match() {
    let disabled_rule = new_detection_rule(
        "Disabled Rule".to_string(),
        Priority::High,
        pct(0.0),
        0,
        "".to_string(),
        "".to_string(),
        false,
    );
    let test_procs = [
        proc_at(7001, "p1", "/bin/p1", 99.0, 2000),
        proc_at(7002, "p2", "/bin/p2", 50.0, 1000),
        new_process(7003, "p3".to_string(), "/bin/p3".to_string(), pct(1.0), 10, ProcessStatus::Sleeping),
    ];
    let mut i = 0;
    while i < 3 {
        let proc = test_procs[i as usize].clone();
        assert!(!rule_matches_process(disabled_rule.clone(), proc.clone()), "Disabled rule should never match any process");
        i = i + 1;
    }
}

#[test]
fn test_property_rule_multiple_thresholds() {
    let rule = new_detection_rule(
        "Multi Threshold".to_string(),
        Priority::High,
        pct(80.0),
        1000,
        "".to_string(),
        "".to_string(),
        true,
    );
    let high_cpu_only = proc_at(9001, "cpu", "/bin/cpu", 90.0, 500);
    let high_mem_only = proc_at(9002, "mem", "/bin/mem", 50.0, 1500);
    let high_both = proc_at(9003, "both", "/bin/both", 90.0, 1500);
    let low_both = proc_at(9004, "low", "/bin/low", 10.0, 100);
    assert!(!rule_matches_process(rule.clone(), high_cpu_only), "Should NOT match: memory 500 < threshold 1000");
    assert!(!rule_matches_process(rule.clone(), high_mem_only), "Should NOT match: CPU 50% < threshold 80%");
    assert!(rule_matches_process(rule.clone(), high_both), "Should match: both thresholds exceeded (CPU 90 > 80, Memory 1500 > 1000)");
    assert!(!rule_matches_process(rule, low_both), "Should not match: neither threshold exceeded");
}
