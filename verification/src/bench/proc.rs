//! Readers of the /proc files the benchmark samples: the CPU time of a
//! process from `/proc/<pid>/stat` and its peak resident set size from
//! `/proc/<pid>/status`. The files are read by the caller; these functions
//! take their text.

use vstd::prelude::*;
use crate::bench::text::{chars_of, parse_u64, parse_u64_field, split_words, words};

verus! {

/// Position of the last `c` in `s`.
pub open spec fn last_pos(s: Seq<char>, c: char) -> Option<int>
    decreases s.len(),
{
    if s.len() == 0 {
        None
    } else if s.last() == c {
        Some(s.len() - 1)
    } else {
        last_pos(s.drop_last(), c)
    }
}

/// `utime` and `stime` (fields 14 and 15) of a `/proc/<pid>/stat` line: words
/// 11 and 12 of the text that starts two bytes after the last `)` (which ends
/// the command name); there is no such text when the character after `)` is
/// missing or not a one-byte (ASCII) character.
pub open spec fn stat_times(s: Seq<char>) -> Option<(u64, u64)> {
    match last_pos(s, ')') {
        None => None,
        Some(close) => if close + 1 >= s.len() || (s[close + 1] as u32) >= 0x80 {
            None
        } else {
            let f = words(s.subrange(close + 2, s.len() as int));
            if f.len() <= 12 {
                None
            } else {
                match (parse_u64(f[11]), parse_u64(f[12])) {
                    (Some(u), Some(t)) => Some((u, t)),
                    _ => None,
                }
            }
        },
    }
}

/// The user and system CPU times (in clock ticks) of a process, from the text
/// of its `/proc/<pid>/stat`.
pub fn parse_stat_times(stat: &str) -> (r: Option<(u64, u64)>)
    ensures
        r == stat_times(stat@),
{
    let cs = chars_of(stat);
    let ghost s = cs@;
    let mut k: usize = cs.len();
    assert(s.subrange(0, k as int) =~= s);
    while k > 0
        invariant
            s == cs@,
            k <= s.len(),
            last_pos(s, ')') == last_pos(s.subrange(0, k as int), ')'),
        ensures
            s == cs@,
            k <= s.len(),
            last_pos(s, ')') == last_pos(s.subrange(0, k as int), ')'),
            k > 0 ==> s[k - 1] == ')',
        decreases k,
    {
        assert(s.subrange(0, k as int).drop_last() =~= s.subrange(0, k - 1));
        if cs[k - 1] == ')' {
            break;
        }
        k = k - 1;
    }
    if k == 0 {
        return None;
    }
    let close = k - 1;
    assert(last_pos(s, ')') == Some(close as int));
    if close + 1 >= cs.len() || (cs[close + 1] as u32) >= 0x80 {
        return None;
    }
    let fields = split_words(&cs, close + 2, cs.len());
    let ghost f = words(s.subrange(close + 2, s.len() as int));
    assert(fields@.len() == f.len());
    if fields.len() <= 12 {
        return None;
    }
    assert(fields@[11]@ == f[11]);
    assert(fields@[12]@ == f[12]);
    match (parse_u64_field(&fields[11]), parse_u64_field(&fields[12])) {
        (Some(u), Some(t)) => Some((u, t)),
        _ => None,
    }
}

/// Length of the first line of `s` (up to its first `\n`).
pub open spec fn line_len(s: Seq<char>) -> int
    decreases s.len(),
{
    if s.len() == 0 || s[0] == '\n' {
        0
    } else {
        1 + line_len(s.drop_first())
    }
}

/// The first line of `s` ends at its first `\n` or at the end.
pub proof fn lemma_line_len(s: Seq<char>)
    ensures
        0 <= line_len(s) <= s.len(),
        line_len(s) < s.len() ==> s[line_len(s)] == '\n',
        forall|i: int| 0 <= i < line_len(s) ==> s[i] != '\n',
    decreases s.len(),
{
    if s.len() > 0 && s[0] != '\n' {
        lemma_line_len(s.drop_first());
        assert forall|i: int| 0 <= i < line_len(s) implies s[i] != '\n' by {
            if i > 0 {
                assert(s[i] == s.drop_first()[i - 1]);
            }
        }
    }
}

/// The `VmHWM:` prefix of the peak-RSS line.
pub open spec fn vmhwm_prefix() -> Seq<char> {
    seq!['V', 'm', 'H', 'W', 'M', ':']
}

/// Peak resident set size in kB from the text of `/proc/<pid>/status`: the
/// first word after `VmHWM:` on the first line starting with it.
pub open spec fn vmhwm_kb(s: Seq<char>) -> Option<u64>
    decreases s.len(),
{
    let n = line_len(s);
    let line = s.subrange(0, n);
    if line.len() >= 6 && line.subrange(0, 6) == vmhwm_prefix() {
        let w = words(line.subrange(6, n));
        if w.len() == 0 {
            None
        } else {
            parse_u64(w[0])
        }
    } else if n >= s.len() {
        None
    } else {
        proof {
            lemma_line_len(s);
        }
        vmhwm_kb(s.subrange(n + 1, s.len() as int))
    }
}

/// The position of the first `\n` at or after `pos`, or the end.
fn line_end(cs: &Vec<char>, pos: usize) -> (e: usize)
    requires
        pos <= cs@.len(),
    ensures
        e == pos + line_len(cs@.subrange(pos as int, cs@.len() as int)),
{
    let mut e = pos;
    while e < cs.len() && cs[e] != '\n'
        invariant
            pos <= e <= cs@.len(),
            line_len(cs@.subrange(pos as int, cs@.len() as int)) == (e - pos) + line_len(
                cs@.subrange(e as int, cs@.len() as int),
            ),
        decreases cs@.len() - e,
    {
        assert(cs@.subrange(e as int, cs@.len() as int).drop_first() =~= cs@.subrange(e + 1, cs@.len() as int));
        e = e + 1;
    }
    e
}

fn starts_with_vmhwm(cs: &Vec<char>, pos: usize, end: usize) -> (r: bool)
    requires
        pos <= end <= cs@.len(),
    ensures
        r <==> (end - pos >= 6 && cs@.subrange(pos as int, pos + 6) == vmhwm_prefix()),
{
    if end - pos < 6 {
        return false;
    }
    let r = cs[pos] == 'V' && cs[pos + 1] == 'm' && cs[pos + 2] == 'H' && cs[pos + 3] == 'W' && cs[pos + 4] == 'M'
        && cs[pos + 5] == ':';
    proof {
        if r {
            assert(cs@.subrange(pos as int, pos + 6) =~= vmhwm_prefix());
        } else {
            if cs@.subrange(pos as int, pos + 6) == vmhwm_prefix() {
                assert(cs@.subrange(pos as int, pos + 6)[0] == 'V');
                assert(cs@.subrange(pos as int, pos + 6)[1] == 'm');
                assert(cs@.subrange(pos as int, pos + 6)[2] == 'H');
                assert(cs@.subrange(pos as int, pos + 6)[3] == 'W');
                assert(cs@.subrange(pos as int, pos + 6)[4] == 'M');
                assert(cs@.subrange(pos as int, pos + 6)[5] == ':');
            }
        }
    }
    r
}

/// The peak resident set size (kB) of a process, from the text of its
/// `/proc/<pid>/status`.
pub fn parse_vmhwm_kb(status: &str) -> (r: Option<u64>)
    ensures
        r == vmhwm_kb(status@),
{
    let cs = chars_of(status);
    let ghost s = cs@;
    let mut pos: usize = 0;
    assert(s.subrange(0, s.len() as int) =~= s);
    loop
        invariant
            s == cs@,
            s == status@,
            pos <= s.len(),
            vmhwm_kb(s) == vmhwm_kb(s.subrange(pos as int, s.len() as int)),
        decreases s.len() - pos,
    {
        let ghost rest = s.subrange(pos as int, s.len() as int);
        let end = line_end(&cs, pos);
        proof {
            lemma_line_len(rest);
            assert(rest.subrange(0, end - pos) =~= s.subrange(pos as int, end as int));
        }
        if starts_with_vmhwm(&cs, pos, end) {
            proof {
                let line = rest.subrange(0, end - pos);
                assert(line.subrange(0, 6) =~= s.subrange(pos as int, pos + 6));
                assert(line.subrange(6, end - pos) =~= s.subrange(pos + 6, end as int));
            }
            let w = split_words(&cs, pos + 6, end);
            if w.len() == 0 {
                return None;
            }
            assert(w@[0]@ == words(s.subrange(pos + 6, end as int))[0]);
            return parse_u64_field(&w[0]);
        }
        proof {
            let line = rest.subrange(0, end - pos);
            if end - pos >= 6 {
                assert(line.subrange(0, 6) =~= s.subrange(pos as int, pos + 6));
            }
        }
        if end >= cs.len() {
            return None;
        }
        assert(rest.subrange(end - pos + 1, rest.len() as int) =~= s.subrange(end + 1, s.len() as int));
        pos = end + 1;
    }
}

} // verus!

verus! {

#[verifier::external_type_specification]
#[verifier::external_body]
pub struct ExInstant(std::time::Instant);

/// `std::time::Instant::now`: the current instant; nothing is stated of it.
#[verifier::external_body]
fn instant_now() -> std::time::Instant {
    std::time::Instant::now()
}

/// CPU-time and memory sampling of a benchmark's server process: the process
/// id, its CPU time (clock ticks) when sampling started, and that instant.
pub struct CpuMemSampler {
    pid: u32,
    start_jiffies: u64,
    start: std::time::Instant,
}

impl CpuMemSampler {
    pub closed spec fn spec_pid(&self) -> u32 {
        self.pid
    }

    pub closed spec fn spec_start_jiffies(&self) -> u64 {
        self.start_jiffies
    }

    /// The instant sampling started.
    pub closed spec fn spec_started_at(&self) -> std::time::Instant {
        self.start
    }

    /// Starts sampling process `pid` whose CPU time now is `jiffies` (0 when
    /// it could not be read).
    pub fn start(pid: u32, jiffies: Option<u64>) -> (s: CpuMemSampler)
        ensures
            s.spec_pid() == pid,
            s.spec_start_jiffies() == match jiffies {
                Some(j) => j,
                None => 0,
            },
    {
        let start_jiffies = match jiffies {
            Some(j) => j,
            None => 0,
        };
        CpuMemSampler { pid, start_jiffies, start: instant_now() }
    }

    pub fn pid(&self) -> (r: u32)
        ensures
            r == self.spec_pid(),
    {
        self.pid
    }

    pub fn start_jiffies(&self) -> (r: u64)
        ensures
            r == self.spec_start_jiffies(),
    {
        self.start_jiffies
    }

    pub fn started_at(&self) -> (r: std::time::Instant)
        ensures
            r == self.spec_started_at(),
    {
        self.start
    }
}

} // verus!
