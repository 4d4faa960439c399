//! Small verified text utilities: decimal rendering and line scanning, used
//! for result lines and for pulling tagged values out of dossier text.

use vstd::prelude::*;

verus! {

/// The decimal digit character for `d`.
pub open spec fn dec_digit(d: int) -> char {
    if d == 0 {
        '0'
    } else if d == 1 {
        '1'
    } else if d == 2 {
        '2'
    } else if d == 3 {
        '3'
    } else if d == 4 {
        '4'
    } else if d == 5 {
        '5'
    } else if d == 6 {
        '6'
    } else if d == 7 {
        '7'
    } else if d == 8 {
        '8'
    } else {
        '9'
    }
}

/// The decimal rendering of `n`, most significant digit first.
pub open spec fn dec_of(n: nat) -> Seq<char>
    decreases n,
{
    if n < 10 {
        seq![dec_digit(n as int)]
    } else {
        dec_of(n / 10).push(dec_digit((n % 10) as int))
    }
}

fn digit_str(d: u64) -> (r: &'static str)
    requires
        d < 10,
    ensures
        r@ == seq![dec_digit(d as int)],
{
    let r = match d {
        0 => "0",
        1 => "1",
        2 => "2",
        3 => "3",
        4 => "4",
        5 => "5",
        6 => "6",
        7 => "7",
        8 => "8",
        _ => "9",
    };
    proof {
        reveal_strlit("0");
        reveal_strlit("1");
        reveal_strlit("2");
        reveal_strlit("3");
        reveal_strlit("4");
        reveal_strlit("5");
        reveal_strlit("6");
        reveal_strlit("7");
        reveal_strlit("8");
        reveal_strlit("9");
        assert(r@ =~= seq![dec_digit(d as int)]);
    }
    r
}

/// Render a number in decimal.
pub fn u64_to_string(n: u64) -> (r: String)
    ensures
        r@ == dec_of(n as nat),
    decreases n,
{
    if n < 10 {
        String::from_str(digit_str(n))
    } else {
        let prefix = u64_to_string(n / 10);
        prefix.concat(digit_str(n % 10))
    }
}

/// Whether `p` occurs in `s` starting at position `i`.
pub open spec fn matches_at(s: Seq<char>, p: Seq<char>, i: int) -> bool {
    0 <= i && i + p.len() <= s.len() && s.subrange(i, i + p.len() as int) == p
}

/// The position of the first `c` in `s` at or after `from`, or `s.len()`.
pub open spec fn find_char_from(s: Seq<char>, c: char, from: int) -> int
    decreases s.len() - from,
{
    if from < 0 || from >= s.len() {
        s.len() as int
    } else if s[from] == c {
        from
    } else {
        find_char_from(s, c, from + 1)
    }
}

/// How many times `c` occurs in `s`.
pub open spec fn count_char(s: Seq<char>, c: char) -> int
    decreases s.len(),
{
    if s.len() == 0 {
        0
    } else {
        count_char(s.drop_last(), c) + if s.last() == c {
            1int
        } else {
            0int
        }
    }
}

/// How many lines the text holds, as a line iterator counts them: a
/// trailing newline opens no further line.
pub open spec fn num_lines(s: Seq<char>) -> int {
    if s.len() == 0 {
        0
    } else {
        count_char(s, '\n') + if s.last() == '\n' {
            0int
        } else {
            1int
        }
    }
}

/// No more occurrences than characters.
pub proof fn lemma_count_char_le(s: Seq<char>, c: char)
    ensures
        0 <= count_char(s, c) <= s.len(),
    decreases s.len(),
{
    if s.len() > 0 {
        lemma_count_char_le(s.drop_last(), c);
    }
}

/// Count the occurrences of `c` in `s`.
pub fn count_char_exec(s: &str, c: char) -> (r: usize)
    ensures
        r as int == count_char(s@, c),
        r as int <= s@.len(),
{
    let n = s.unicode_len();
    let mut count: usize = 0;
    let mut i: usize = 0;
    while i < n
        invariant
            n == s@.len(),
            0 <= i <= n,
            count <= i,
            count as int == count_char(s@.take(i as int), c),
        decreases n - i,
    {
        proof {
            assert(s@.take(i as int + 1).drop_last() =~= s@.take(i as int));
            assert(s@.take(i as int + 1).last() == s@[i as int]);
        }
        if s.get_char(i) == c {
            count = count + 1;
        }
        i = i + 1;
    }
    proof {
        assert(s@.take(n as int) =~= s@);
    }
    count
}

/// `s` with leading and trailing spaces removed.
pub open spec fn trim_spaces(s: Seq<char>) -> Seq<char>
    decreases s.len(),
{
    if s.len() == 0 {
        s
    } else if s[0] == ' ' {
        trim_spaces(s.subrange(1, s.len() as int))
    } else if s[s.len() - 1] == ' ' {
        trim_spaces(s.subrange(0, s.len() - 1))
    } else {
        s
    }
}

/// Scan the lines of `s` from position `i` (a line start): on the first line
/// that begins with `p`, the rest of that line with surrounding spaces
/// removed; otherwise nothing.
pub open spec fn scan_tagged(s: Seq<char>, p: Seq<char>, i: int) -> Option<Seq<char>>
    decreases s.len() - i,
{
    if i < 0 || i >= s.len() {
        None
    } else if matches_at(s, p, i) {
        let e = find_char_from(s, '\n', i);
        if i + p.len() <= e {
            Some(trim_spaces(s.subrange(i + p.len(), e)))
        } else {
            Some(Seq::<char>::empty())
        }
    } else {
        let next = find_char_from(s, '\n', i) + 1;
        if next <= i || next > s.len() {
            None
        } else {
            scan_tagged(s, p, next)
        }
    }
}

/// The value tagged by prefix `p` on some line of `s`, if any: the remainder
/// of the first line that starts with `p`, trimmed of spaces.
pub open spec fn tagged_value(s: Seq<char>, p: Seq<char>) -> Option<Seq<char>> {
    scan_tagged(s, p, 0)
}

pub(crate) fn eq_at(s: &str, p: &str, i: usize) -> (r: bool)
    requires
        i <= s@.len(),
    ensures
        r == matches_at(s@, p@, i as int),
{
    let n = s.unicode_len();
    let plen = p.unicode_len();
    if n - i < plen {
        proof {
            assert(!(i + p@.len() <= s@.len()));
        }
        return false;
    }
    let mut j: usize = 0;
    while j < plen
        invariant
            i + plen <= n,
            n == s@.len(),
            plen == p@.len(),
            0 <= j <= plen,
            forall|k: int| 0 <= k < j as int ==> s@[i as int + k] == p@[k],
        decreases plen - j,
    {
        if s.get_char(i + j) != p.get_char(j) {
            proof {
                assert(s@.subrange(i as int, i as int + p@.len()) != p@) by {
                    assert(s@.subrange(i as int, i as int + p@.len())[j as int] != p@[j as int]);
                }
            }
            return false;
        }
        j = j + 1;
    }
    proof {
        assert(s@.subrange(i as int, i as int + p@.len()) =~= p@);
    }
    true
}

/// The position of the first `c` in `s` at or after `from`, or the length.
pub fn find_char(s: &str, c: char, from: usize) -> (r: usize)
    requires
        from <= s@.len(),
    ensures
        r as int == find_char_from(s@, c, from as int),
        from <= r <= s@.len(),
    decreases s@.len() - from,
{
    let n = s.unicode_len();
    if from >= n {
        n
    } else if s.get_char(from) == c {
        from
    } else {
        find_char(s, c, from + 1)
    }
}

fn trim(s: &str) -> (r: String)
    ensures
        r@ == trim_spaces(s@),
    decreases s@.len(),
{
    let n = s.unicode_len();
    if n == 0 {
        String::from_str(s)
    } else if s.get_char(0) == ' ' {
        trim(s.substring_char(1, n))
    } else if s.get_char(n - 1) == ' ' {
        trim(s.substring_char(0, n - 1))
    } else {
        String::from_str(s)
    }
}

fn scan_tagged_exec(s: &str, p: &str, i: usize) -> (r: Option<String>)
    requires
        i <= s@.len(),
    ensures
        match r {
            Some(v) => scan_tagged(s@, p@, i as int) == Some(v@),
            None => scan_tagged(s@, p@, i as int) is None,
        },
    decreases s@.len() - i,
{
    let n = s.unicode_len();
    if i >= n {
        None
    } else if eq_at(s, p, i) {
        let line_end = find_char(s, '\n', i);
        let plen = p.unicode_len();
        proof {
            assert(i + plen <= line_end || i + plen > line_end);
        }
        if i + plen <= line_end {
            Some(trim(s.substring_char(i + plen, line_end)))
        } else {
            // The prefix ran past the line end, so it held a newline itself;
            // the tagged remainder is empty.
            proof {
                assert(trim_spaces(Seq::<char>::empty()) =~= Seq::<char>::empty());
            }
            Some(trim(s.substring_char(line_end, line_end)))
        }
    } else {
        let line_end = find_char(s, '\n', i);
        if line_end >= n {
            None
        } else {
            scan_tagged_exec(s, p, line_end + 1)
        }
    }
}

/// Pull the value tagged by prefix `p` out of the lines of `s`.
pub fn extract_tagged(s: &str, p: &str) -> (r: Option<String>)
    ensures
        match r {
            Some(v) => tagged_value(s@, p@) == Some(v@),
            None => tagged_value(s@, p@) is None,
        },
{
    scan_tagged_exec(s, p, 0)
}

} // verus!
