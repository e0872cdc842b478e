//! Detection engine: which processes of a snapshot are flagged, and by
//! which rule.
use vstd::prelude::*;
use crate::matcher::{rule_matches, rule_matches_process};
use crate::model::{
    is_valid_process, is_valid_rule, priority_to_value, rank, valid_process, valid_rule,
    DetectionRule, Process,
};

verus! {

/// Rule `j` of `rules` is valid and matches `p`.
pub open spec fn fires(rules: Seq<DetectionRule>, j: int, p: Process) -> bool {
    0 <= j < rules.len() && valid_rule(rules[j]) && rule_matches(rules[j], p)
}

/// `p` is valid and at least one valid rule matches it.
pub open spec fn flagged(p: Process, rules: Seq<DetectionRule>) -> bool {
    valid_process(p) && exists|j: int| fires(rules, j, p)
}

/// Rule `j` is the one chosen for `p`: it fires, no firing rule has a higher
/// priority, and every earlier firing rule has a lower one (ties go to the
/// first rule listed).
pub open spec fn is_best_rule(rules: Seq<DetectionRule>, j: int, p: Process) -> bool {
    &&& fires(rules, j, p)
    &&& forall|k: int| #[trigger] fires(rules, k, p) ==> rank(rules[k].priority) <= rank(
        rules[j].priority,
    )
    &&& forall|k: int|
        0 <= k < j && #[trigger] fires(rules, k, p) ==> rank(rules[k].priority) < rank(
            rules[j].priority,
        )
}

/// The flagged processes of `ps`, in their order in `ps`.
pub open spec fn flagged_processes(ps: Seq<Process>, rules: Seq<DetectionRule>) -> Seq<Process>
    decreases ps.len(),
{
    if ps.len() == 0 {
        Seq::empty()
    } else {
        let init = flagged_processes(ps.drop_last(), rules);
        if flagged(ps.last(), rules) {
            init.push(ps.last())
        } else {
            init
        }
    }
}

/// Some process of `ps` has pid `pid`.
pub open spec fn pid_taken(ps: Seq<Process>, pid: i32) -> bool {
    exists|k: int| 0 <= k < ps.len() && #[trigger] ps[k].pid == pid
}

/// The processes of `ps` to act on, in order: each flagged process whose pid
/// no earlier one of them has, so that each pid is acted on once.
pub open spec fn targets(ps: Seq<Process>, rules: Seq<DetectionRule>) -> Seq<Process>
    decreases ps.len(),
{
    if ps.len() == 0 {
        Seq::empty()
    } else {
        let init = targets(ps.drop_last(), rules);
        if flagged(ps.last(), rules) && !pid_taken(init, ps.last().pid) {
            init.push(ps.last())
        } else {
            init
        }
    }
}

/// A flagged process together with the index of the rule chosen for it.
#[derive(Debug)]
pub struct Detection {
    pub process: Process,
    pub rule: usize,
}

/// The index of the rule chosen for `proc` (see [`is_best_rule`]), or
/// `None` when `proc` is invalid or no valid rule matches it.
pub fn best_rule(proc: &Process, rules: &Vec<DetectionRule>) -> (r: Option<usize>)
    ensures
        match r {
            None => !flagged(*proc, rules@),
            Some(j) => valid_process(*proc) && is_best_rule(rules@, j as int, *proc),
        },
{
    if !is_valid_process(proc.clone()) {
        return None;
    }
    let mut best: Option<usize> = None;
    let mut k: usize = 0;
    while k < rules.len()
        invariant
            k <= rules@.len(),
            valid_process(*proc),
            match best {
                None => forall|i: int| 0 <= i < k ==> !#[trigger] fires(rules@, i, *proc),
                Some(j) => {
                    &&& j < k
                    &&& fires(rules@, j as int, *proc)
                    &&& forall|i: int|
                        0 <= i < k && #[trigger] fires(rules@, i, *proc) ==> rank(
                            rules@[i].priority,
                        ) <= rank(rules@[j as int].priority)
                    &&& forall|i: int|
                        0 <= i < j && #[trigger] fires(rules@, i, *proc) ==> rank(
                            rules@[i].priority,
                        ) < rank(rules@[j as int].priority)
                },
            },
        decreases rules@.len() - k,
    {
        let rule = &rules[k];
        if is_valid_rule(rule.clone()) && rule_matches_process(rule.clone(), proc.clone()) {
            match best {
                None => {
                    best = Some(k);
                },
                Some(j) => {
                    if priority_to_value(rule.priority) > priority_to_value(rules[j].priority) {
                        best = Some(k);
                    }
                },
            }
        }
        k += 1;
    }
    match best {
        None => {
            assert(!flagged(*proc, rules@)) by {
                if exists|i: int| fires(rules@, i, *proc) {
                    let i = choose|i: int| fires(rules@, i, *proc);
                    assert(0 <= i < k);
                }
            }
        },
        Some(j) => {
            assert forall|i: int| #[trigger] fires(rules@, i, *proc) implies rank(
                rules@[i].priority,
            ) <= rank(rules@[j as int].priority) by {
                assert(0 <= i < k);
            }
        },
    }
    best
}

/// The flagged processes of `procs`, in input order: a process is flagged
/// when it is valid and some valid rule of `rules` matches it.
pub fn apply_rules(procs: Vec<Process>, rules: Vec<DetectionRule>) -> (r: Vec<Process>)
    ensures
        r@ == flagged_processes(procs@, rules@),
{
    let mut result: Vec<Process> = Vec::new();
    let mut i: usize = 0;
    while i < procs.len()
        invariant
            i <= procs@.len(),
            result@ == flagged_processes(procs@.subrange(0, i as int), rules@),
        decreases procs@.len() - i,
    {
        let proc = &procs[i];
        let chosen = best_rule(proc, &rules);
        assert(procs@.subrange(0, i + 1).drop_last() =~= procs@.subrange(0, i as int));
        assert(procs@.subrange(0, i + 1).last() == procs@[i as int]);
        if chosen.is_some() {
            result.push(proc.clone());
        }
        i += 1;
    }
    assert(procs@.subrange(0, procs@.len() as int) =~= procs@);
    result
}

/// Whether some detection of `ds` is for pid `pid`.
fn pid_detected(ds: &Vec<Detection>, pid: i32) -> (r: bool)
    ensures
        r == exists|k: int| 0 <= k < ds@.len() && #[trigger] ds@[k].process.pid == pid,
{
    let mut k: usize = 0;
    while k < ds.len()
        invariant
            k <= ds@.len(),
            forall|i: int| 0 <= i < k ==> #[trigger] ds@[i].process.pid != pid,
        decreases ds@.len() - k,
    {
        if ds[k].process.pid == pid {
            return true;
        }
        k += 1;
    }
    false
}

/// The processes of `procs` to act on ([`targets`]), each with the rule
/// chosen for it, in input order.
pub fn select(procs: &Vec<Process>, rules: &Vec<DetectionRule>) -> (r: Vec<Detection>)
    ensures
        r@.len() == targets(procs@, rules@).len(),
        forall|k: int|
            0 <= k < r@.len() ==> {
                &&& #[trigger] r@[k].process == targets(procs@, rules@)[k]
                &&& is_best_rule(rules@, r@[k].rule as int, r@[k].process)
            },
{
    let mut result: Vec<Detection> = Vec::new();
    let ghost chosen: Seq<Process> = Seq::empty();
    let mut i: usize = 0;
    while i < procs.len()
        invariant
            i <= procs@.len(),
            chosen == targets(procs@.subrange(0, i as int), rules@),
            result@.len() == chosen.len(),
            forall|k: int|
                0 <= k < result@.len() ==> {
                    &&& #[trigger] result@[k].process == chosen[k]
                    &&& is_best_rule(rules@, result@[k].rule as int, result@[k].process)
                },
        decreases procs@.len() - i,
    {
        let proc = &procs[i];
        assert(procs@.subrange(0, i + 1).drop_last() =~= procs@.subrange(0, i as int));
        assert(procs@.subrange(0, i + 1).last() == procs@[i as int]);
        match best_rule(proc, rules) {
            None => {},
            Some(j) => {
                let seen = pid_detected(&result, proc.pid);
                assert(seen == pid_taken(chosen, proc.pid)) by {
                    if pid_taken(chosen, proc.pid) {
                        let k = choose|k: int| 0 <= k < chosen.len() && #[trigger] chosen[k].pid
                            == proc.pid;
                        assert(result@[k].process == chosen[k]);
                    }
                    if seen {
                        let k = choose|k: int|
                            0 <= k < result@.len() && #[trigger] result@[k].process.pid
                                == proc.pid;
                        assert(result@[k].process == chosen[k]);
                    }
                }
                if !seen {
                    result.push(Detection { process: proc.clone(), rule: j });
                    proof {
                        chosen = chosen.push(*proc);
                    }
                }
            },
        }
        i += 1;
    }
    assert(procs@.subrange(0, procs@.len() as int) =~= procs@);
    result
}

} // verus!
