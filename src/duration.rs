use vstd::prelude::*;

verus! {

/// An ASCII decimal digit.
pub open spec fn is_digit(c: char) -> bool {
    '0' <= c && c <= '9'
}

/// The number of consecutive digits in `s` starting at `pos`.
pub open spec fn digit_run(s: Seq<char>, pos: int) -> nat
    decreases s.len() - pos,
{
    if 0 <= pos < s.len() && is_digit(s[pos]) {
        1 + digit_run(s, pos + 1)
    } else {
        0
    }
}

/// The decimal value of the digits `s[from..to]`.
pub open spec fn digits_value(s: Seq<char>, from: int, to: int) -> nat
    decreases to - from,
{
    if to <= from {
        0
    } else {
        digits_value(s, from, to - 1) * 10 + (s[to - 1] as nat - '0' as nat) as nat
    }
}

/// The value a group contributes: groups too large for a `u32` count as absent.
pub open spec fn group_value(v: nat) -> nat {
    if v <= u32::MAX {
        v
    } else {
        0
    }
}

/// An optional group `digits unit` at `pos`: the position after it and its value,
/// or `(pos, 0)` when the group is absent there.
pub open spec fn unit_group(s: Seq<char>, pos: int, unit: char) -> (int, nat) {
    let k = digit_run(s, pos);
    if k > 0 && pos + k < s.len() && s[pos + k] == unit {
        (pos + k + 1, group_value(digits_value(s, pos, pos + k)))
    } else {
        (pos, 0)
    }
}

/// The first index at or after `from` where `"PT"` begins.
pub open spec fn find_pt(s: Seq<char>, from: int) -> Option<int>
    decreases s.len() - from,
{
    if from < 0 || from + 1 >= s.len() {
        None
    } else if s[from] == 'P' && s[from + 1] == 'T' {
        Some(from)
    } else {
        find_pt(s, from + 1)
    }
}

/// The total, in milliseconds, of the hours, minutes and seconds groups that
/// follow the `"PT"` at `p`.
pub open spec fn duration_total_ms(s: Seq<char>, p: int) -> nat {
    let (p1, h) = unit_group(s, p + 2, 'H');
    let (p2, m) = unit_group(s, p1, 'M');
    let (_, sec) = unit_group(s, p2, 'S');
    (h * 3600 + m * 60 + sec) * 1000
}

/// What a duration text stands for: the first `PT[nH][nM][nS]` in it, in
/// milliseconds; 0 where there is none or the total does not fit a `u32`.
pub open spec fn iso_duration_ms(s: Seq<char>) -> nat {
    match find_pt(s, 0) {
        Some(p) => {
            let t = duration_total_ms(s, p);
            if t <= u32::MAX {
                t
            } else {
                0
            }
        },
        None => 0,
    }
}

proof fn lemma_digits_value_grows(s: Seq<char>, from: int, to: int)
    requires
        from <= to,
    ensures
        digits_value(s, from, to + 1) >= digits_value(s, from, to),
{
    assert(digits_value(s, from, to + 1) == digits_value(s, from, to) * 10 + (s[to] as nat
        - '0' as nat) as nat);
}

/// Reads an optional `digits unit` group of `s` at `pos`.
fn read_group(s: &str, len: usize, pos: usize, unit: char) -> (r: (usize, u32))
    requires
        len == s@.len(),
        pos <= len,
    ensures
        r.0 as int == unit_group(s@, pos as int, unit).0,
        r.1 as nat == unit_group(s@, pos as int, unit).1,
        r.0 <= len,
{
    let mut j: usize = pos;
    let mut val: u64 = 0;
    let mut over: bool = false;
    while j < len && '0' <= s.get_char(j) && s.get_char(j) <= '9'
        invariant
            len == s@.len(),
            pos <= j <= len,
            digit_run(s@, pos as int) == (j - pos) + digit_run(s@, j as int),
            !over ==> val as nat == digits_value(s@, pos as int, j as int) && val <= u32::MAX,
            over ==> digits_value(s@, pos as int, j as int) > u32::MAX,
        decreases len - j,
    {
        let c = s.get_char(j);
        proof {
            lemma_digits_value_grows(s@, pos as int, j as int);
        }
        if !over {
            let d = (c as u32 - '0' as u32) as u64;
            let next: u64 = val * 10 + d;
            if next > u32::MAX as u64 {
                over = true;
            } else {
                val = next;
            }
        }
        j = j + 1;
    }
    if j > pos && j < len && s.get_char(j) == unit {
        let v: u32 = if over {
            0
        } else {
            val as u32
        };
        (j + 1, v)
    } else {
        (pos, 0)
    }
}

/// Converts an ISO 8601 video duration such as `PT1H2M3S` into milliseconds.
///
/// The first `PT` in the text starts the duration; each of the hours, minutes
/// and seconds groups may be absent and then counts zero. Text without `PT`,
/// and a total too large for a `u32`, give 0, which callers read as "unknown".
pub fn parse_iso_duration(duration: &str) -> (r: u32)
    ensures
        r as nat == iso_duration_ms(duration@),
{
    let len = duration.unicode_len();
    if len < 2 {
        return 0;
    }
    let mut p: usize = 0;
    let mut found: bool = false;
    while p < len - 1 && !found
        invariant
            len == duration@.len(),
            len >= 2,
            find_pt(duration@, 0) == if found {
                Some(p as int)
            } else {
                find_pt(duration@, p as int)
            },
            found ==> p + 1 < len,
        decreases len - p - (if found { 1int } else { 0int }),
    {
        if duration.get_char(p) == 'P' && duration.get_char(p + 1) == 'T' {
            found = true;
        } else {
            p = p + 1;
        }
    }
    if !found {
        return 0;
    }
    let (p1, h) = read_group(duration, len, p + 2, 'H');
    let (p2, m) = read_group(duration, len, p1, 'M');
    let (_p3, sec) = read_group(duration, len, p2, 'S');
    let total: u64 = (h as u64 * 3600 + m as u64 * 60 + sec as u64) * 1000;
    if total > u32::MAX as u64 {
        0
    } else {
        total as u32
    }
}

} // verus!
