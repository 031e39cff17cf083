//! The bounding-box path: the coordinates of the search answer's first line,
//! each floored to a tenth, joined by `/`.
use vstd::prelude::*;

use crate::error::LookupError;
use crate::text::{
    all_digits, append_decimal, decimal, digit_char, digit_value, digits_at_most, digits_value,
    is_digit, lemma_split_step, split_on, substring,
};

verus! {

/// The largest integer part that a coordinate may have.
pub const MAX_COORDINATE_INT: u64 = 1_000_000_000_000_000;

/// The position of the first `c` in `s`, or `s.len()` where there is none.
pub open spec fn index_of(s: Seq<char>, c: char) -> int
    decreases s.len(),
{
    if s.len() == 0 {
        0
    } else if s[0] == c {
        0
    } else {
        1 + index_of(s.skip(1), c)
    }
}

/// `s` before its first `c`, as `s.split(c).next()` gives it.
pub open spec fn before_char(s: Seq<char>, c: char) -> Seq<char> {
    s.take(index_of(s, c))
}

/// `index_of` is the position that a scan for `c` stops at.
pub proof fn lemma_index_of(s: Seq<char>, c: char, k: int)
    requires
        0 <= k <= s.len(),
        forall|j: int| 0 <= j < k ==> s[j] != c,
        k < s.len() ==> s[k] == c,
    ensures
        index_of(s, c) == k,
    decreases k,
{
    if k > 0 {
        assert forall|j: int| 0 <= j < k - 1 implies s.skip(1)[j] != c by {
            assert(s.skip(1)[j] == s[j + 1]);
        }
        lemma_index_of(s.skip(1), c, k - 1);
    }
}

/// The first position in `lo..hi` of `cs` that holds `c`, or `hi`.
fn scan_for(cs: &Vec<char>, c: char, lo: usize, hi: usize) -> (k: usize)
    requires
        lo <= hi <= cs@.len(),
    ensures
        lo <= k <= hi,
        index_of(cs@.subrange(lo as int, hi as int), c) == k - lo,
{
    let mut k: usize = lo;
    while k < hi && cs[k] != c
        invariant
            lo <= k <= hi <= cs@.len(),
            forall|j: int| lo <= j < k ==> cs@[j] != c,
        decreases hi - k,
    {
        k = k + 1;
    }
    proof {
        let s = cs@.subrange(lo as int, hi as int);
        assert forall|j: int| 0 <= j < k - lo implies s[j] != c by {
            assert(s[j] == cs@[lo + j]);
        }
        lemma_index_of(s, c, k - lo);
    }
    k
}

/// Whether some character of `s` is not `0`.
pub open spec fn has_nonzero(s: Seq<char>) -> bool {
    exists|i: int| 0 <= i < s.len() && s[i] != '0'
}

/// The sign and digits of a coordinate: `s` without its leading `+` or `-`.
pub open spec fn unsigned_part(s: Seq<char>) -> Seq<char> {
    if s.len() > 0 && (s[0] == '-' || s[0] == '+') {
        s.skip(1)
    } else {
        s
    }
}

/// The integer digits of a coordinate.
pub open spec fn int_digits(s: Seq<char>) -> Seq<char> {
    before_char(unsigned_part(s), '.')
}

/// The fraction digits of a coordinate (none where it has no `.`).
pub open spec fn frac_digits(s: Seq<char>) -> Seq<char> {
    let u = unsigned_part(s);
    let k = index_of(u, '.');
    if k < u.len() {
        u.skip(k + 1)
    } else {
        Seq::empty()
    }
}

/// The decimal number `s` times ten, rounded down: `s` is an optional sign,
/// integer digits, and optionally `.` and fraction digits, with at least one
/// digit in all and an integer part of at most `MAX_COORDINATE_INT`.
pub open spec fn coordinate_tenths(s: Seq<char>) -> Option<int> {
    let ip = int_digits(s);
    let fp = frac_digits(s);
    if ip.len() + fp.len() > 0 && all_digits(ip) && all_digits(fp) && digits_value(ip)
        <= MAX_COORDINATE_INT {
        let mag = digits_value(ip) * 10 + if fp.len() > 0 {
            digit_value(fp[0])
        } else {
            0
        };
        if s.len() > 0 && s[0] == '-' {
            Some(
                -(mag + if fp.len() > 1 && has_nonzero(fp.skip(1)) {
                    1int
                } else {
                    0int
                }),
            )
        } else {
            Some(mag)
        }
    } else {
        None
    }
}

/// A number of tenths written with one decimal, as `{:.1}` writes it.
pub open spec fn tenths_text(t: int) -> Seq<char> {
    let m = if t < 0 {
        -t
    } else {
        t
    };
    (if t < 0 {
        "-"@
    } else {
        Seq::empty()
    }) + decimal((m / 10) as nat) + "."@ + seq![digit_char(m % 10)]
}

/// The coordinates `pieces`, each floored to a tenth and joined by `/`, or the
/// first one that is not a number.
pub open spec fn coordinates_path(pieces: Seq<Seq<char>>) -> Result<Seq<char>, Seq<char>>
    decreases pieces.len(),
{
    if pieces.len() == 0 {
        Ok(Seq::empty())
    } else {
        let last = pieces.last();
        let rest = coordinates_path(pieces.drop_last());
        match rest {
            Err(e) => Err(e),
            Ok(p) => match coordinate_tenths(last) {
                Some(t) => Ok(
                    if pieces.len() == 1 {
                        tenths_text(t)
                    } else {
                        p + "/"@ + tenths_text(t)
                    },
                ),
                None => Err(last),
            },
        }
    }
}

/// The bounding-box path of a search answer: the coordinates before the first
/// `|` of its first line, separated by spaces.
pub open spec fn bbox_path_spec(resp: Seq<char>) -> Result<Seq<char>, Seq<char>> {
    coordinates_path(split_on(before_char(before_char(resp, '\n'), '|'), ' '))
}

/// The coordinate on the characters `lo..hi` of `cs`, in tenths rounded down.
fn coordinate_tenths_at(cs: &Vec<char>, lo: usize, hi: usize) -> (r: Option<i64>)
    requires
        lo <= hi <= cs@.len(),
    ensures
        r matches Some(t) ==> coordinate_tenths(cs@.subrange(lo as int, hi as int)) == Some(
            t as int,
        ) && -(MAX_COORDINATE_INT * 10 + 10) <= t <= MAX_COORDINATE_INT * 10 + 10,
        r is None ==> coordinate_tenths(cs@.subrange(lo as int, hi as int)) is None,
{
    let ghost s = cs@.subrange(lo as int, hi as int);
    let mut start: usize = lo;
    let mut negative = false;
    if lo < hi {
        assert(s[0] == cs@[lo as int]);
        if cs[lo] == '-' || cs[lo] == '+' {
            negative = cs[lo] == '-';
            start = lo + 1;
        }
    }
    let ghost u = cs@.subrange(start as int, hi as int);
    assert(u =~= unsigned_part(s));
    let dot = scan_for(cs, '.', start, hi);
    let frac_lo: usize = if dot < hi {
        dot + 1
    } else {
        hi
    };
    assert(cs@.subrange(start as int, dot as int) =~= int_digits(s));
    assert(cs@.subrange(frac_lo as int, hi as int) =~= frac_digits(s));
    if dot - start + (hi - frac_lo) == 0 {
        return None;
    }
    let mut i: usize = start;
    while i < dot
        invariant
            start <= i <= dot <= hi <= cs@.len(),
            s == cs@.subrange(lo as int, hi as int),
            int_digits(s) == cs@.subrange(start as int, dot as int),
            forall|k: int| start <= k < i ==> is_digit(#[trigger] cs@[k]),
        decreases dot - i,
    {
        if !('0' <= cs[i] && cs[i] <= '9') {
            assert(!is_digit(int_digits(s)[i - start]));
            return None;
        }
        i = i + 1;
    }
    assert(all_digits(int_digits(s))) by {
        assert forall|k: int| 0 <= k < dot - start implies is_digit(
            #[trigger] int_digits(s)[k],
        ) by {
            assert(int_digits(s)[k] == cs@[start + k]);
        }
    }
    let mut j: usize = frac_lo;
    let mut rest_nonzero = false;
    while j < hi
        invariant
            frac_lo <= j <= hi <= cs@.len(),
            s == cs@.subrange(lo as int, hi as int),
            frac_digits(s) == cs@.subrange(frac_lo as int, hi as int),
            forall|k: int| frac_lo <= k < j ==> is_digit(#[trigger] cs@[k]),
            rest_nonzero <==> exists|k: int| frac_lo + 1 <= k < j && cs@[k] != '0',
        decreases hi - j,
    {
        if !('0' <= cs[j] && cs[j] <= '9') {
            assert(!is_digit(frac_digits(s)[j - frac_lo]));
            return None;
        }
        if j > frac_lo && cs[j] != '0' {
            rest_nonzero = true;
        }
        j = j + 1;
    }
    let ghost fp = frac_digits(s);
    assert(all_digits(fp)) by {
        assert forall|k: int| 0 <= k < hi - frac_lo implies is_digit(#[trigger] fp[k]) by {
            assert(fp[k] == cs@[frac_lo + k]);
        }
    }
    assert(rest_nonzero == (fp.len() > 1 && has_nonzero(fp.skip(1)))) by {
        if rest_nonzero {
            let k = choose|k: int| frac_lo + 1 <= k < hi && cs@[k] != '0';
            assert(fp.len() > 1);
            assert(fp.skip(1)[k - frac_lo - 1] == fp[k - frac_lo]);
            assert(fp[k - frac_lo] == cs@[k]);
        }
        if fp.len() > 1 && has_nonzero(fp.skip(1)) {
            let k = choose|k: int| 0 <= k < fp.skip(1).len() && fp.skip(1)[k] != '0';
            assert(fp.skip(1)[k] == fp[k + 1]);
            assert(fp[k + 1] == cs@[frac_lo + 1 + k]);
        }
    }
    let ip = match digits_at_most(cs, start, dot, MAX_COORDINATE_INT) {
        Some(v) => v,
        None => {
            return None;
        },
    };
    let first_frac: u64 = if frac_lo < hi {
        assert(fp[0] == cs@[frac_lo as int]);
        assert(is_digit(fp[0]));
        (cs[frac_lo] as u32 - '0' as u32) as u64
    } else {
        0
    };
    assert(first_frac <= 9);
    let mag: u64 = ip * 10 + first_frac;
    if negative {
        assert(s[0] == '-');
        let extra: u64 = if rest_nonzero {
            1
        } else {
            0
        };
        Some(0 - (mag + extra) as i64)
    } else {
        assert(!(s.len() > 0 && s[0] == '-'));
        Some(mag as i64)
    }
}

/// Appends `tenths_text(t)` to `out`.
fn append_tenths(out: &mut String, t: i64)
    requires
        -(MAX_COORDINATE_INT * 10 + 10) <= t <= MAX_COORDINATE_INT * 10 + 10,
    ensures
        final(out)@ == old(out)@ + tenths_text(t as int),
{
    let ghost o = out@;
    proof {
        reveal_strlit("-");
        reveal_strlit(".");
    }
    let m: u64 = if t < 0 {
        out.append("-");
        (0 - t) as u64
    } else {
        t as u64
    };
    append_decimal(out, m / 10);
    out.append(".");
    append_decimal(out, m % 10);
    assert(decimal((m % 10) as nat) == seq![digit_char((m % 10) as int)]);
    assert(out@ =~= o + tenths_text(t as int));
}

/// The path of the bounding-box request for a search answer: the coordinates
/// before the first `|` of its first line (longitude then latitude, separated by
/// spaces), each floored to a tenth and written with one decimal, joined by `/`.
/// A coordinate that is not a decimal number is returned in the error.
pub fn bbox_path(resp: &str) -> (r: Result<String, LookupError>)
    ensures
        bbox_path_spec(resp@) matches Ok(p) ==> (r matches Ok(s) && s@ == p),
        bbox_path_spec(resp@) matches Err(c) ==> (r matches Err(LookupError::InvalidCoordinate(
            m,
        )) && m@ == c),
{
    let cs = crate::text::chars_of(resp);
    let line_end = scan_for(&cs, '\n', 0, cs.len());
    assert(cs@.subrange(0, cs@.len() as int) =~= resp@);
    let head_end = scan_for(&cs, '|', 0, line_end);
    let ghost head = cs@.subrange(0, head_end as int);
    assert(cs@.subrange(0, line_end as int) =~= before_char(resp@, '\n'));
    assert(head =~= before_char(before_char(resp@, '\n'), '|'));
    let mut out = String::new();
    let mut failed: Option<String> = None;
    let ghost mut done: Seq<Seq<char>> = Seq::empty();
    let mut any_done = false;
    let mut start: usize = 0;
    let mut i: usize = 0;
    assert(head.take(0) =~= Seq::<char>::empty());
    assert(head.subrange(0, 0) =~= Seq::<char>::empty());
    assert(split_on(head.take(0), ' ') =~= done.push(head.subrange(0, 0)));
    while i < head_end
        invariant
            cs@ == resp@,
            start <= i <= head_end <= cs@.len(),
            head == cs@.subrange(0, head_end as int),
            any_done == (done.len() > 0),
            split_on(head.take(i as int), ' ') == done.push(head.subrange(start as int, i as int)),
            failed is None ==> coordinates_path(done) == Ok::<Seq<char>, Seq<char>>(out@),
            failed matches Some(m) ==> coordinates_path(done) == Err::<Seq<char>, Seq<char>>(
                m@,
            ),
        decreases head_end - i,
    {
        proof {
            lemma_split_step(head, ' ', i as int, done, start as int);
        }
        assert(head[i as int] == cs@[i as int]);
        if cs[i] == ' ' {
            let ghost piece = head.subrange(start as int, i as int);
            assert(piece =~= cs@.subrange(start as int, i as int));
            assert(done.push(piece).drop_last() =~= done);
            if failed.is_none() {
                match coordinate_tenths_at(&cs, start, i) {
                    Some(t) => {
                        if any_done {
                            out.append("/");
                        }
                        append_tenths(&mut out, t);
                    },
                    None => {
                        failed = Some(substring(resp, start, i));
                    },
                }
            }
            proof {
                done = done.push(piece);
            }
            any_done = true;
            start = i + 1;
        }
        i = i + 1;
    }
    assert(head.take(head_end as int) =~= head);
    let ghost piece = head.subrange(start as int, head_end as int);
    assert(piece =~= cs@.subrange(start as int, head_end as int));
    assert(done.push(piece).drop_last() =~= done);
    match failed {
        Some(m) => Err(LookupError::InvalidCoordinate(m)),
        None => match coordinate_tenths_at(&cs, start, head_end) {
            Some(t) => {
                if any_done {
                    out.append("/");
                }
                append_tenths(&mut out, t);
                Ok(out)
            },
            None => Err(LookupError::InvalidCoordinate(substring(resp, start, head_end))),
        },
    }
}

} // verus!
