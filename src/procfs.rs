//! Reading a process out of the texts that Linux exposes under
//! `/proc/<pid>/`: `stat`, `statm`, `comm` and `cmdline`, with `/proc/uptime`.
use vstd::prelude::*;
use crate::matcher::chars_of;
use crate::model::{Process, ProcessStatus, CPU_FULL};

verus! {

pub open spec fn is_space(c: char) -> bool {
    c == ' ' || c == '\n' || c == '\t'
}

/// Splitting `s` left to right: the fields already closed, and the field
/// being read.
pub open spec fn scan(s: Seq<char>) -> (Seq<Seq<char>>, Seq<char>)
    decreases s.len(),
{
    if s.len() == 0 {
        (Seq::empty(), Seq::empty())
    } else {
        let (done, cur) = scan(s.drop_last());
        if is_space(s.last()) {
            if cur.len() > 0 {
                (done.push(cur), Seq::empty())
            } else {
                (done, cur)
            }
        } else {
            (done, cur.push(s.last()))
        }
    }
}

/// The whitespace-separated fields of `s`, in order.
pub open spec fn fields(s: Seq<char>) -> Seq<Seq<char>> {
    let (done, cur) = scan(s);
    if cur.len() > 0 {
        done.push(cur)
    } else {
        done
    }
}

pub open spec fn is_digit(c: char) -> bool {
    '0' <= c && c <= '9'
}

/// `d` is a non-empty run of decimal digits.
pub open spec fn all_digits(d: Seq<char>) -> bool {
    d.len() > 0 && forall|i: int| 0 <= i < d.len() ==> is_digit(#[trigger] d[i])
}

/// The value of the decimal digits `d`.
pub open spec fn digits_value(d: Seq<char>) -> nat
    decreases d.len(),
{
    if d.len() == 0 {
        0
    } else {
        digits_value(d.drop_last()) * 10 + (d.last() as nat - '0' as nat) as nat
    }
}

/// The number that `d` writes in decimal, when it is one that fits a `u64`.
pub open spec fn number_of(d: Seq<char>) -> Option<u64> {
    if all_digits(d) && digits_value(d) <= u64::MAX {
        Some(digits_value(d) as u64)
    } else {
        None
    }
}

/// The bounds of the fields of `s`: field `k` is `s[r[k].0 .. r[k].1]`.
fn split_fields(s: &Vec<char>) -> (r: Vec<(usize, usize)>)
    ensures
        r@.len() == fields(s@).len(),
        forall|k: int|
            #![trigger r@[k]]
            #![trigger fields(s@)[k]]
            0 <= k < r@.len() ==> {
                &&& r@[k].0 <= r@[k].1 <= s@.len()
                &&& s@.subrange(r@[k].0 as int, r@[k].1 as int) == fields(s@)[k]
            },
{
    let mut out: Vec<(usize, usize)> = Vec::new();
    let ghost closed: Seq<Seq<char>> = Seq::empty();
    let mut start: usize = 0;
    let mut i: usize = 0;
    while i < s.len()
        invariant
            i <= s@.len(),
            start <= i,
            scan(s@.subrange(0, i as int)) == (closed, s@.subrange(start as int, i as int)),
            out@.len() == closed.len(),
            forall|k: int|
                #![trigger out@[k]]
                #![trigger closed[k]]
                0 <= k < out@.len() ==> {
                    &&& out@[k].0 <= out@[k].1 <= i
                    &&& s@.subrange(out@[k].0 as int, out@[k].1 as int) == closed[k]
                },
        decreases s@.len() - i,
    {
        let ghost prefix = s@.subrange(0, i as int);
        let ghost next = s@.subrange(0, i + 1);
        assert(next.drop_last() =~= prefix);
        assert(next.last() == s@[i as int]);
        if s[i] == ' ' || s[i] == '\n' || s[i] == '\t' {
            if start < i {
                out.push((start, i));
                proof {
                    closed = closed.push(s@.subrange(start as int, i as int));
                }
            }
            start = i + 1;
            assert(s@.subrange(start as int, i + 1) =~= Seq::<char>::empty());
        } else {
            assert(s@.subrange(start as int, i + 1) =~= s@.subrange(start as int, i as int).push(
                s@[i as int],
            ));
        }
        i += 1;
    }
    assert(s@.subrange(0, i as int) =~= s@);
    if start < s.len() {
        out.push((start, s.len()));
        proof {
            closed = closed.push(s@.subrange(start as int, i as int));
        }
    }
    assert(closed == fields(s@));
    out
}

/// The number written by `s[start .. end]`; see [`number_of`].
fn parse_number(s: &Vec<char>, start: usize, end: usize) -> (r: Option<u64>)
    requires
        start <= end <= s@.len(),
    ensures
        r == number_of(s@.subrange(start as int, end as int)),
{
    let ghost d = s@.subrange(start as int, end as int);
    if start == end {
        return None;
    }
    let mut value: u64 = 0;
    let mut i: usize = start;
    while i < end
        invariant
            start <= i <= end <= s@.len(),
            d == s@.subrange(start as int, end as int),
            all_digits(s@.subrange(start as int, i as int)) || i == start,
            value == digits_value(s@.subrange(start as int, i as int)),
        decreases end - i,
    {
        let ghost before = s@.subrange(start as int, i as int);
        let ghost after = s@.subrange(start as int, i + 1);
        assert(after.drop_last() =~= before);
        let c = s[i];
        if !('0' <= c && c <= '9') {
            assert(!all_digits(d)) by {
                assert(d[i - start] == c);
            }
            return None;
        }
        let digit = (c as u32 - '0' as u32) as u64;
        if value > (u64::MAX - digit) / 10 {
            assert(digits_value(d) > u64::MAX) by {
                lemma_digits_value_prefix(d, (i + 1 - start) as int);
                assert(d.subrange(0, (i + 1 - start) as int) =~= after);
            }
            return None;
        }
        value = value * 10 + digit;
        i += 1;
        assert(all_digits(after)) by {
            assert forall|j: int| 0 <= j < after.len() implies is_digit(#[trigger] after[j]) by {
                if j < after.len() - 1 {
                    assert(after[j] == before[j]);
                }
            }
        }
    }
    assert(s@.subrange(start as int, i as int) =~= d);
    Some(value)
}

/// A longer run of digits never has a smaller value than its prefix.
proof fn lemma_digits_value_prefix(d: Seq<char>, n: int)
    requires
        0 <= n <= d.len(),
    ensures
        digits_value(d.subrange(0, n)) <= digits_value(d),
    decreases d.len() - n,
{
    if n < d.len() {
        lemma_digits_value_prefix(d.drop_last(), n);
        assert(d.drop_last().subrange(0, n) =~= d.subrange(0, n));
    } else {
        assert(d.subrange(0, n) =~= d);
    }
}

/// Field `k` of `s` as a number, when `s` has such a field and it is one.
pub open spec fn number_field(s: Seq<char>, k: int) -> Option<u64> {
    if 0 <= k < fields(s).len() {
        number_of(fields(s)[k])
    } else {
        None
    }
}

/// Field `k` of `text` as a number; see [`number_field`].
pub fn field_number(text: &str, k: usize) -> (r: Option<u64>)
    ensures
        r == number_field(text@, k as int),
{
    let chars = chars_of(text);
    let bounds = split_fields(&chars);
    if k < bounds.len() {
        let (a, b) = bounds[k];
        parse_number(&chars, a, b)
    } else {
        None
    }
}

/// The index of the last `)` of `s`, or `-1` when there is none.
pub open spec fn last_close(s: Seq<char>) -> int
    decreases s.len(),
{
    if s.len() == 0 {
        -1
    } else if s.last() == ')' {
        s.len() - 1
    } else {
        last_close(s.drop_last())
    }
}

/// The fields of `/proc/<pid>/stat` that the watchdog reads.
#[derive(Debug, Clone, Copy, PartialEq, Eq, Structural)]
pub struct StatFields {
    /// The one-letter scheduler state.
    pub state: char,
    /// Clock ticks spent in user mode.
    pub utime: u64,
    /// Clock ticks spent in kernel mode.
    pub stime: u64,
    /// Clock ticks from boot to the start of the process.
    pub start_time: u64,
}

/// What `/proc/<pid>/stat` text `s` holds. The command name, which may hold
/// blanks and parentheses, ends at the last `)`; the fields after it start
/// with the state, and hold user time, system time and start time at
/// positions 11, 12 and 19.
pub open spec fn stat_fields(s: Seq<char>) -> Option<StatFields> {
    let c = last_close(s);
    let rest = s.subrange(c + 1, s.len() as int);
    let f = fields(rest);
    if c >= 0 && f.len() >= 20 && f[0].len() == 1 && number_of(f[11]) is Some && number_of(
        f[12],
    ) is Some && number_of(f[19]) is Some {
        Some(
            StatFields {
                state: f[0][0],
                utime: number_of(f[11])->Some_0,
                stime: number_of(f[12])->Some_0,
                start_time: number_of(f[19])->Some_0,
            },
        )
    } else {
        None
    }
}

/// The characters of `v` from `from` on.
fn tail_from(v: &Vec<char>, from: usize) -> (r: Vec<char>)
    requires
        from <= v@.len(),
    ensures
        r@ == v@.subrange(from as int, v@.len() as int),
{
    let mut out: Vec<char> = Vec::new();
    let mut i: usize = from;
    while i < v.len()
        invariant
            from <= i <= v@.len(),
            out@ == v@.subrange(from as int, i as int),
        decreases v@.len() - i,
    {
        out.push(v[i]);
        i += 1;
        assert(out@ =~= v@.subrange(from as int, i as int));
    }
    out
}

/// Reads `/proc/<pid>/stat`; see [`stat_fields`].
pub fn parse_stat(text: &str) -> (r: Option<StatFields>)
    ensures
        r == stat_fields(text@),
{
    let chars = chars_of(text);
    let mut n: usize = chars.len();
    assert(chars@.subrange(0, n as int) =~= chars@);
    while n > 0 && chars[n - 1] != ')'
        invariant
            n <= chars@.len(),
            chars@ == text@,
            last_close(chars@) == last_close(chars@.subrange(0, n as int)),
        decreases n,
    {
        assert(chars@.subrange(0, n as int).drop_last() =~= chars@.subrange(0, n - 1));
        n -= 1;
    }
    if n == 0 {
        assert(chars@.subrange(0, 0) =~= Seq::<char>::empty());
        return None;
    }
    assert(chars@.subrange(0, n as int).drop_last() =~= chars@.subrange(0, n - 1));
    let rest = tail_from(&chars, n);
    let bounds = split_fields(&rest);
    if bounds.len() < 20 {
        return None;
    }
    let (s0, e0) = bounds[0];
    if e0 != s0 + 1 {
        return None;
    }
    let (s1, e1) = bounds[11];
    let (s2, e2) = bounds[12];
    let (s3, e3) = bounds[19];
    let utime = parse_number(&rest, s1, e1);
    let stime = parse_number(&rest, s2, e2);
    let start_time = parse_number(&rest, s3, e3);
    match (utime, stime, start_time) {
        (Some(u), Some(k), Some(t)) => {
            assert(fields(rest@)[0][0] == rest@[s0 as int]);
            Some(StatFields { state: rest[s0], utime: u, stime: k, start_time: t })
        },
        _ => None,
    }
}

/// The uptime of `/proc/uptime` text `s` in hundredths of a second: its
/// first field is whole seconds, a point, and two decimals.
pub open spec fn uptime_centis(s: Seq<char>) -> Option<u64> {
    let f = fields(s)[0];
    let n = f.len() as int;
    if fields(s).len() >= 1 && n >= 4 && f[n - 3] == '.' && number_of(f.subrange(0, n - 3)) is Some
        && all_digits(f.subrange(n - 2, n)) && digits_value(f.subrange(0, n - 3)) * 100
        + digits_value(f.subrange(n - 2, n)) <= u64::MAX {
        Some((digits_value(f.subrange(0, n - 3)) * 100 + digits_value(f.subrange(n - 2, n))) as u64)
    } else {
        None
    }
}

/// Reads `/proc/uptime`; see [`uptime_centis`].
pub fn parse_uptime(text: &str) -> (r: Option<u64>)
    ensures
        r == uptime_centis(text@),
{
    let chars = chars_of(text);
    let bounds = split_fields(&chars);
    if bounds.len() < 1 {
        return None;
    }
    let (a, b) = bounds[0];
    let ghost f = fields(chars@)[0];
    if b - a < 4 || chars[b - 3] != '.' {
        return None;
    }
    assert(f.subrange(0, f.len() - 3) =~= chars@.subrange(a as int, b - 3));
    assert(f.subrange(f.len() - 2, f.len() as int) =~= chars@.subrange(b - 2, b as int));
    let whole = parse_number(&chars, a, b - 3);
    let frac = parse_number(&chars, b - 2, b);
    match (whole, frac) {
        (Some(w), Some(c)) => {
            if w > (u64::MAX - c) / 100 {
                return None;
            }
            Some(w * 100 + c)
        },
        _ => None,
    }
}

/// The share of one CPU that a process has used over its lifetime, in
/// hundredths of a percent, capped at 100%: `busy` units of time out of the
/// units from `start` to `now` (none when the process started at `now` or
/// later). All three must count in one unit.
pub open spec fn cpu_share(busy: int, start: int, now: int) -> int {
    if now <= start {
        0
    } else if busy * 10000 / (now - start) > CPU_FULL {
        CPU_FULL as int
    } else {
        busy * 10000 / (now - start)
    }
}

/// See [`cpu_share`]; the busy time is `utime + stime`. All four arguments
/// must count in one unit.
pub fn lifetime_cpu(utime: u64, stime: u64, start: u64, now: u64) -> (r: i64)
    ensures
        r == cpu_share(utime + stime, start as int, now as int),
        0 <= r <= CPU_FULL,
{
    if now <= start {
        return 0;
    }
    let elapsed = (now - start) as u128;
    let busy = utime as u128 + stime as u128;
    let share = busy * 10000 / elapsed;
    if share > CPU_FULL as u128 {
        CPU_FULL
    } else {
        share as i64
    }
}

/// Resident memory in whole megabytes of `pages` pages of `page_size`
/// bytes, capped at the largest `i64`.
pub open spec fn memory_mb_of(pages: int, page_size: int) -> int {
    if pages * page_size / 1048576 > i64::MAX {
        i64::MAX as int
    } else {
        pages * page_size / 1048576
    }
}

/// See [`memory_mb_of`].
pub fn resident_mb(pages: u64, page_size: u32) -> (r: i64)
    ensures
        r == memory_mb_of(pages as int, page_size as int),
{
    assert(pages * page_size <= u64::MAX * u32::MAX) by (nonlinear_arith)
        requires
            pages <= u64::MAX,
            page_size <= u32::MAX,
    ;
    let bytes = (pages as u128) * (page_size as u128);
    let mb = bytes / 1048576;
    if mb > i64::MAX as u128 {
        i64::MAX
    } else {
        mb as i64
    }
}

/// The status that a `/proc` state letter stands for.
pub open spec fn status_for(state: char) -> ProcessStatus {
    if state == 'R' {
        ProcessStatus::Running
    } else if state == 'T' || state == 't' {
        ProcessStatus::Stopped
    } else if state == 'Z' || state == 'X' || state == 'x' {
        ProcessStatus::Zombie
    } else {
        ProcessStatus::Sleeping
    }
}

/// See [`status_for`].
pub fn status_of(state: char) -> (r: ProcessStatus)
    ensures
        r == status_for(state),
{
    if state == 'R' {
        ProcessStatus::Running
    } else if state == 'T' || state == 't' {
        ProcessStatus::Stopped
    } else if state == 'Z' || state == 'X' || state == 'x' {
        ProcessStatus::Zombie
    } else {
        ProcessStatus::Sleeping
    }
}

/// `s` without its trailing newline, if it has one.
pub open spec fn without_newline(s: Seq<char>) -> Seq<char> {
    if s.len() > 0 && s.last() == '\n' {
        s.drop_last()
    } else {
        s
    }
}

/// The command name of `/proc/<pid>/comm`; see [`without_newline`].
pub fn comm_name(text: &str) -> (r: String)
    ensures
        r@ == without_newline(text@),
{
    let n = text.unicode_len();
    if n > 0 && text.get_char(n - 1) == '\n' {
        String::from_str(text.substring_char(0, n - 1))
    } else {
        String::from_str(text)
    }
}

/// The length of `s` once its trailing NUL characters are dropped.
pub open spec fn trimmed_len(s: Seq<char>) -> int
    decreases s.len(),
{
    if s.len() > 0 && s.last() == '\0' {
        trimmed_len(s.drop_last())
    } else {
        s.len() as int
    }
}

/// The command line of `/proc/<pid>/cmdline`: arguments end with NUL
/// characters; trailing ones are dropped and the others become blanks.
pub open spec fn command_line(s: Seq<char>) -> Seq<char> {
    s.subrange(0, trimmed_len(s)).map_values(|c: char| if c == '\0' { ' ' } else { c })
}

/// See [`command_line`].
pub fn cmdline_text(text: &str) -> (r: String)
    ensures
        r@ == command_line(text@),
{
    let mut n = text.unicode_len();
    assert(text@.subrange(0, n as int) =~= text@);
    while n > 0 && text.get_char(n - 1) == '\0'
        invariant
            n <= text@.len(),
            trimmed_len(text@) == trimmed_len(text@.subrange(0, n as int)),
        decreases n,
    {
        assert(text@.subrange(0, n as int).drop_last() =~= text@.subrange(0, n - 1));
        n -= 1;
    }
    assert(trimmed_len(text@.subrange(0, n as int)) == n);
    let ghost kept = text@.subrange(0, n as int);
    let mut out = String::new();
    let mut i: usize = 0;
    while i < n
        invariant
            n <= text@.len(),
            kept == text@.subrange(0, n as int),
            i <= n,
            out@ == kept.subrange(0, i as int).map_values(
                |c: char|
                    if c == '\0' {
                        ' '
                    } else {
                        c
                    },
            ),
        decreases n - i,
    {
        let ghost before = out@;
        let c = text.get_char(i);
        if c == '\0' {
            proof {
                reveal_strlit(" ");
            }
            out.append(" ");
        } else {
            let piece = text.substring_char(i, i + 1);
            assert(piece@ =~= seq![c]);
            out.append(piece);
        }
        assert(kept.subrange(0, i + 1) =~= kept.subrange(0, i as int).push(c));
        i += 1;
        assert(out@ =~= kept.subrange(0, i as int).map_values(
            |c: char|
                if c == '\0' {
                    ' '
                } else {
                    c
                },
        ));
    }
    assert(kept.subrange(0, n as int) =~= kept);
    out
}

/// Builds the process `pid` out of the texts of its `comm`, `cmdline`,
/// `stat` and `statm` files and of `/proc/uptime`, with pages of
/// `page_size` bytes; `None` when one of `stat`, `statm` or `uptime` cannot
/// be read.
///
/// The CPU share compares clock ticks (the times in `stat`) with
/// hundredths of a second (the uptime), so it is right only where the
/// kernel counts 100 ticks per second (`USER_HZ`, 100 on Linux).
pub fn parse_proc_status(
    pid: i32,
    comm: &str,
    cmdline: &str,
    stat: &str,
    statm: &str,
    uptime: &str,
    page_size: u32,
) -> (r: Option<Process>)
    ensures
        match (stat_fields(stat@), number_field(statm@, 1), uptime_centis(uptime@)) {
            (Some(st), Some(pages), Some(now)) => r matches Some(p) && {
                &&& p.pid == pid
                &&& p.name@ == without_newline(comm@)
                &&& p.cmdline@ == command_line(cmdline@)
                &&& p.cpu_usage == cpu_share(st.utime + st.stime, st.start_time as int, now as int)
                &&& p.memory_mb == memory_mb_of(pages as int, page_size as int)
                &&& p.status == status_for(st.state)
            },
            _ => r is None,
        },
{
    let st = match parse_stat(stat) {
        Some(st) => st,
        None => {
            return None;
        },
    };
    let pages = match field_number(statm, 1) {
        Some(pages) => pages,
        None => {
            return None;
        },
    };
    let now = match parse_uptime(uptime) {
        Some(now) => now,
        None => {
            return None;
        },
    };
    Some(
        Process {
            pid,
            name: comm_name(comm),
            cmdline: cmdline_text(cmdline),
            cpu_usage: lifetime_cpu(st.utime, st.stime, st.start_time, now),
            memory_mb: resident_mb(pages, page_size),
            status: status_of(st.state),
        },
    )
}

} // verus!
