//! Rule matching: does a detection rule select a process?
use vstd::prelude::*;
use crate::model::{DetectionRule, Process};

verus! {

/// `needle` occurs in `hay` as a contiguous run of characters.
pub open spec fn is_substring(needle: Seq<char>, hay: Seq<char>) -> bool {
    exists|i: int|
        0 <= i && i + needle.len() <= hay.len() && #[trigger] hay.subrange(i, i + needle.len())
            == needle
}

/// The CPU criterion of `rule` accepts `p`: disabled, or strictly exceeded.
pub open spec fn cpu_criterion(rule: DetectionRule, p: Process) -> bool {
    rule.max_cpu_percent > 0 ==> p.cpu_usage > rule.max_cpu_percent
}

/// The memory criterion of `rule` accepts `p`: disabled, or strictly exceeded.
pub open spec fn memory_criterion(rule: DetectionRule, p: Process) -> bool {
    rule.max_memory_mb > 0 ==> p.memory_mb > rule.max_memory_mb
}

/// `rule` selects `p`: the rule is enabled and every active criterion
/// holds (thresholds strictly exceeded, patterns found case-sensitively).
pub open spec fn rule_matches(rule: DetectionRule, p: Process) -> bool {
    &&& rule.enabled
    &&& cpu_criterion(rule, p)
    &&& memory_criterion(rule, p)
    &&& (rule.name_pattern@.len() > 0 ==> is_substring(rule.name_pattern@, p.name@))
    &&& (rule.cmdline_pattern@.len() > 0 ==> is_substring(rule.cmdline_pattern@, p.cmdline@))
}

/// The characters of `s`, in order.
pub(crate) fn chars_of(s: &str) -> (r: Vec<char>)
    ensures
        r@ == s@,
{
    let n = s.unicode_len();
    let mut v: Vec<char> = Vec::new();
    let mut i: usize = 0;
    while i < n
        invariant
            n == s@.len(),
            i <= n,
            v@ == s@.subrange(0, i as int),
        decreases n - i,
    {
        v.push(s.get_char(i));
        i += 1;
    }
    assert(v@ =~= s@);
    v
}

/// Whether `needle` occurs in `hay` at position `start`.
fn occurs_at(hay: &Vec<char>, needle: &Vec<char>, start: usize) -> (r: bool)
    requires
        start + needle@.len() <= hay@.len(),
    ensures
        r == (hay@.subrange(start as int, start + needle@.len()) == needle@),
{
    let m = needle.len();
    let hl = hay.len();
    let mut k: usize = 0;
    while k < m
        invariant
            m == needle@.len(),
            hl == hay@.len(),
            k <= m,
            start + m <= hay@.len(),
            forall|j: int| 0 <= j < k ==> hay@[start + j] == needle@[j],
        decreases m - k,
    {
        if hay[start + k] != needle[k] {
            assert(hay@.subrange(start as int, start + m)[k as int] != needle@[k as int]);
            return false;
        }
        k += 1;
    }
    assert(hay@.subrange(start as int, start + m) =~= needle@);
    true
}

/// Case-sensitive substring test: whether `needle` occurs in `hay`.
pub fn contains_str(hay: &str, needle: &str) -> (r: bool)
    ensures
        r == is_substring(needle@, hay@),
{
    let h = chars_of(hay);
    let n = chars_of(needle);
    if n.len() > h.len() {
        return false;
    }
    let last = h.len() - n.len();
    let mut i: usize = 0;
    loop
        invariant
            h@ == hay@,
            n@ == needle@,
            last == h@.len() - n@.len(),
            i <= last,
            forall|j: int|
                0 <= j < i ==> #[trigger] h@.subrange(j, j + n@.len()) != n@,
        decreases last - i,
    {
        if occurs_at(&h, &n, i) {
            return true;
        }
        if i == last {
            return false;
        }
        i += 1;
    }
}

/// Whether `rule` selects `proc`; see [`rule_matches`].
pub fn rule_matches_process(rule: DetectionRule, proc: Process) -> (r: bool)
    ensures
        r == rule_matches(rule, proc),
{
    if !rule.enabled {
        return false;
    }
    if rule.max_cpu_percent > 0 {
        if proc.cpu_usage <= rule.max_cpu_percent {
            return false;
        }
    }
    if rule.max_memory_mb > 0 {
        if proc.memory_mb <= rule.max_memory_mb {
            return false;
        }
    }
    if !rule.name_pattern.as_str().is_empty() {
        if !contains_str(proc.name.as_str(), rule.name_pattern.as_str()) {
            return false;
        }
    }
    if !rule.cmdline_pattern.as_str().is_empty() {
        if !contains_str(proc.cmdline.as_str(), rule.cmdline_pattern.as_str()) {
            return false;
        }
    }
    true
}

/// Whether `proc` exceeds the active CPU threshold of `rule`; a disabled
/// threshold never flags.
pub fn detect_cpu_hog(proc: Process, rule: DetectionRule) -> (r: bool)
    ensures
        r == (rule.max_cpu_percent > 0 && proc.cpu_usage > rule.max_cpu_percent),
{
    if rule.max_cpu_percent <= 0 {
        return false;
    }
    proc.cpu_usage > rule.max_cpu_percent
}

/// Whether `proc` exceeds the active memory threshold of `rule`; a disabled
/// threshold never flags.
pub fn detect_memory_hog(proc: Process, rule: DetectionRule) -> (r: bool)
    ensures
        r == (rule.max_memory_mb > 0 && proc.memory_mb > rule.max_memory_mb),
{
    if rule.max_memory_mb <= 0 {
        return false;
    }
    proc.memory_mb > rule.max_memory_mb
}

/// The lower-case form of a string, as `str::to_lowercase` computes it.
pub uninterp spec fn lower_of(s: Seq<char>) -> Seq<char>;

/// Relies on `str::to_lowercase`: the Unicode lower-case mapping of `s`,
/// which depends on its characters alone.
#[verifier::external_body]
fn lowercase(s: &str) -> (r: String)
    ensures
        r@ == lower_of(s@),
{
    s.to_lowercase()
}

/// Ad-hoc name filter: an empty pattern matches every process; otherwise
/// the lower-cased pattern must occur in the lower-cased process name.
pub fn match_name_pattern(proc: Process, pattern: String) -> (r: bool)
    ensures
        r == (pattern@.len() == 0 || is_substring(lower_of(pattern@), lower_of(proc.name@))),
{
    if pattern.as_str().is_empty() {
        return true;
    }
    let proc_name_lower = lowercase(proc.name.as_str());
    let pattern_lower = lowercase(pattern.as_str());
    contains_str(proc_name_lower.as_str(), pattern_lower.as_str())
}

/// A disabled rule matches no process, whatever its other fields.
pub proof fn lemma_disabled_rule_never_matches(rule: DetectionRule, p: Process)
    requires
        !rule.enabled,
    ensures
        !rule_matches(rule, p),
{
}

/// An enabled rule with both thresholds disabled and both patterns empty
/// matches every process.
pub proof fn lemma_match_all_rule(rule: DetectionRule, p: Process)
    requires
        rule.enabled,
        rule.max_cpu_percent == 0,
        rule.max_memory_mb == 0,
        rule.name_pattern@.len() == 0,
        rule.cmdline_pattern@.len() == 0,
    ensures
        rule_matches(rule, p),
{
}

/// Thresholds are strict: a process whose usage equals an active threshold
/// is not matched.
pub proof fn lemma_threshold_is_strict(rule: DetectionRule, p: Process)
    ensures
        rule.max_cpu_percent > 0 && p.cpu_usage == rule.max_cpu_percent ==> !rule_matches(rule, p),
        rule.max_memory_mb > 0 && p.memory_mb == rule.max_memory_mb ==> !rule_matches(rule, p),
{
}

/// Matching is monotonic in the thresholds: lowering the thresholds of a
/// rule that matches a process, all else equal, keeps the match.
pub proof fn lemma_lower_threshold_keeps_match(r1: DetectionRule, r2: DetectionRule, p: Process)
    requires
        rule_matches(r1, p),
        r2.enabled == r1.enabled,
        r2.max_cpu_percent <= r1.max_cpu_percent,
        r2.max_memory_mb <= r1.max_memory_mb,
        r2.name_pattern@ == r1.name_pattern@,
        r2.cmdline_pattern@ == r1.cmdline_pattern@,
    ensures
        rule_matches(r2, p),
{
}

} // verus!
