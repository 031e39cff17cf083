//! The choice of one candidate among those that a search returned.
use vstd::prelude::*;

use crate::error::LookupError;
use crate::search::{candidates_view, RNIdentificationInfos};
use crate::text::{
    append_decimal, chars_of, decimal, parse_u32, parse_u32_at, str_eq, trim, trim_bounds,
};

verus! {

/// The outcome of choosing among candidates without asking the user.
#[derive(Clone, Debug, PartialEq, Eq)]
pub enum Selection {
    /// This candidate is the one.
    Chosen(RNIdentificationInfos),
    /// The user has to choose among the candidates.
    Prompt,
}

/// Whether `i` is the only candidate of `v` whose name is `q`.
pub open spec fn only_match(v: Seq<(u32, Seq<char>)>, q: Seq<char>, i: int) -> bool {
    &&& 0 <= i < v.len()
    &&& v[i].1 == q
    &&& forall|j: int| 0 <= j < v.len() && j != i ==> v[j].1 != q
}

/// The candidate chosen without asking: the only candidate there is, or else the
/// only one whose name is exactly the query.
pub open spec fn shortcut_choice(v: Seq<(u32, Seq<char>)>, q: Seq<char>) -> Option<int> {
    if v.len() == 1 {
        Some(0)
    } else if exists|i: int| only_match(v, q, i) {
        Some(choose|i: int| only_match(v, q, i))
    } else {
        None
    }
}

/// Chooses among the candidates of a search for `matricule_input`.
///
/// No candidate is an error. A single candidate is chosen; among several, the only
/// one whose name equals the query (case and all) is chosen. Otherwise the user
/// has to choose.
pub fn find_matricule_to_use_from_list(
    matricule_input: &str,
    reperes_found: &Vec<RNIdentificationInfos>,
) -> (r: Result<Selection, LookupError>)
    ensures
        reperes_found@.len() == 0 ==> r == Err::<Selection, LookupError>(LookupError::NoMatch),
        reperes_found@.len() > 0 ==> match shortcut_choice(
            candidates_view(reperes_found@),
            matricule_input@,
        ) {
            Some(i) => r matches Ok(Selection::Chosen(c)) && c.view() == candidates_view(
                reperes_found@,
            )[i],
            None => r == Ok::<Selection, LookupError>(Selection::Prompt),
        },
{
    let ghost v = candidates_view(reperes_found@);
    let ghost q = matricule_input@;
    let n = reperes_found.len();
    if n == 0 {
        return Err(LookupError::NoMatch);
    }
    if n == 1 {
        return Ok(Selection::Chosen(reperes_found[0].duplicate()));
    }
    let mut count: usize = 0;
    let mut found: usize = 0;
    let ghost mut other: int = 0;
    let mut i: usize = 0;
    while i < n
        invariant
            n == reperes_found@.len(),
            v == candidates_view(reperes_found@),
            q == matricule_input@,
            i <= n,
            count <= 2,
            count == 0 ==> forall|j: int| 0 <= j < i ==> v[j].1 != q,
            count == 1 ==> found < i && v[found as int].1 == q && forall|j: int|
                0 <= j < i && j != found ==> v[j].1 != q,
            count == 2 ==> found < n && 0 <= other < n && other != found && v[found as int].1
                == q && v[other].1 == q,
        decreases n - i,
    {
        if str_eq(reperes_found[i].matricule.as_str(), matricule_input) {
            if count == 0 {
                found = i;
                count = 1;
            } else if count == 1 {
                proof {
                    other = i as int;
                }
                count = 2;
            }
        }
        i = i + 1;
    }
    if count == 1 {
        assert(only_match(v, q, found as int));
        let ghost k = choose|k: int| only_match(v, q, k);
        assert(k == found);
        Ok(Selection::Chosen(reperes_found[found].duplicate()))
    } else {
        assert(!exists|k: int| only_match(v, q, k)) by {
            if count == 2 {
                assert forall|k: int| !only_match(v, q, k) by {
                    if k != found as int {
                        assert(v[found as int].1 == q);
                    } else {
                        assert(v[other].1 == q);
                    }
                }
            }
        }
        Ok(Selection::Prompt)
    }
}

/// A shortcut choice is stable: choosing again among the same candidates with the
/// chosen candidate's name as the query picks the same candidate, without asking.
pub proof fn lemma_shortcut_choice_idempotent(v: Seq<(u32, Seq<char>)>, q: Seq<char>, i: int)
    requires
        shortcut_choice(v, q) == Some(i),
    ensures
        shortcut_choice(v, v[i].1) == Some(i),
{
    if v.len() != 1 {
        let k = choose|k: int| only_match(v, q, k);
        assert(only_match(v, q, k));
        assert(only_match(v, v[i].1, i));
        assert(v[i].1 == q);
    }
}

/// The index that the user's answer `input` picks among `count` candidates.
pub open spec fn choice_index(input: Seq<char>, count: int) -> Option<int> {
    match parse_u32(trim(input)) {
        Some(n) => if n < count {
            Some(n as int)
        } else {
            None
        },
        None => None,
    }
}

/// Reads the user's answer to the choice among `count` candidates: a number
/// from 0 to `count - 1`, white space around it allowed. Any other answer gives
/// `None`, and the user is asked again.
pub fn parse_choice(input: &str, count: usize) -> (r: Option<usize>)
    ensures
        r matches Some(i) ==> choice_index(input@, count as int) == Some(i as int),
        r is None ==> choice_index(input@, count as int) is None,
{
    let cs = chars_of(input);
    let (a, b) = trim_bounds(&cs, 0, cs.len());
    assert(cs@.subrange(0, cs@.len() as int) =~= input@);
    match parse_u32_at(&cs, a, b) {
        Some(n) => if (n as usize) < count {
            Some(n as usize)
        } else {
            None
        },
        None => None,
    }
}

/// `s` followed by spaces up to the width `w`.
pub open spec fn pad_right(s: Seq<char>, w: int) -> Seq<char> {
    if s.len() < w {
        s + Seq::new((w - s.len()) as nat, |_i: int| ' ')
    } else {
        s
    }
}

/// `s` preceded by spaces up to the width `w`.
pub open spec fn pad_left(s: Seq<char>, w: int) -> Seq<char> {
    if s.len() < w {
        Seq::new((w - s.len()) as nat, |_i: int| ' ') + s
    } else {
        s
    }
}

pub open spec fn max(a: int, b: int) -> int {
    if a < b {
        b
    } else {
        a
    }
}

/// The widths of the index, name and id columns of the choice menu: the widest
/// entry of each.
pub open spec fn column_widths(v: Seq<(u32, Seq<char>)>) -> (int, int, int)
    decreases v.len(),
{
    if v.len() == 0 {
        (0, 0, 0)
    } else {
        let w = column_widths(v.drop_last());
        (
            max(w.0, decimal((v.len() - 1) as nat).len() as int),
            max(w.1, v.last().1.len() as int),
            max(w.2, decimal(v.last().0 as nat).len() as int),
        )
    }
}

/// The menu line of the candidate `c` at index `i`: index and name left-aligned,
/// id right-aligned.
pub open spec fn menu_line(i: int, c: (u32, Seq<char>), w: (int, int, int)) -> Seq<char> {
    pad_right(decimal(i as nat), w.0) + " : "@ + pad_right(c.1, w.1) + " (id "@ + pad_left(
        decimal(c.0 as nat),
        w.2,
    ) + ")\n"@
}

/// The lines of the first `k` candidates.
pub open spec fn menu_lines(v: Seq<(u32, Seq<char>)>, w: (int, int, int), k: int) -> Seq<char>
    decreases k,
{
    if k <= 0 {
        Seq::empty()
    } else {
        menu_lines(v, w, k - 1) + menu_line(k - 1, v[k - 1], w)
    }
}

fn decimal_width(n: u64) -> (r: usize)
    ensures
        r == decimal(n as nat).len(),
{
    let mut s = String::new();
    append_decimal(&mut s, n);
    assert(s@ =~= decimal(n as nat));
    s.as_str().unicode_len()
}

fn append_spaces(out: &mut String, n: usize)
    ensures
        final(out)@ == old(out)@ + Seq::new(n as nat, |_i: int| ' '),
{
    let ghost o = out@;
    let mut i: usize = 0;
    while i < n
        invariant
            i <= n,
            out@ == o + Seq::new(i as nat, |_i: int| ' '),
        decreases n - i,
    {
        proof {
            reveal_strlit(" ");
        }
        out.append(" ");
        i = i + 1;
        assert(out@ =~= o + Seq::new(i as nat, |_i: int| ' '));
    }
}

fn append_padded(out: &mut String, s: &str, len: usize, width: usize, left: bool)
    requires
        len == s@.len(),
    ensures
        left ==> final(out)@ == old(out)@ + pad_left(s@, width as int),
        !left ==> final(out)@ == old(out)@ + pad_right(s@, width as int),
{
    let ghost o = out@;
    if len < width && left {
        append_spaces(out, width - len);
    }
    out.append(s);
    if len < width && !left {
        append_spaces(out, width - len);
    }
    assert(left ==> out@ =~= o + pad_left(s@, width as int));
    assert(!left ==> out@ =~= o + pad_right(s@, width as int));
}

/// The choice menu: one line per candidate, in order, giving its index, name and
/// id in aligned columns.
pub fn candidate_menu(candidates: &Vec<RNIdentificationInfos>) -> (r: String)
    ensures
        r@ == menu_lines(
            candidates_view(candidates@),
            column_widths(candidates_view(candidates@)),
            candidates@.len() as int,
        ),
{
    let ghost v = candidates_view(candidates@);
    let n = candidates.len();
    let mut wi: usize = 0;
    let mut wn: usize = 0;
    let mut wc: usize = 0;
    let mut k: usize = 0;
    while k < n
        invariant
            n == candidates@.len(),
            v == candidates_view(candidates@),
            k <= n,
            column_widths(v.take(k as int)) == (wi as int, wn as int, wc as int),
        decreases n - k,
    {
        assert(v.take(k + 1).drop_last() =~= v.take(k as int));
        assert(v.take(k + 1).last() == candidates@[k as int].view());
        let a = decimal_width(k as u64);
        let b = candidates[k].matricule.as_str().unicode_len();
        let c = decimal_width(candidates[k].cid as u64);
        if a > wi {
            wi = a;
        }
        if b > wn {
            wn = b;
        }
        if c > wc {
            wc = c;
        }
        k = k + 1;
    }
    assert(v.take(n as int) =~= v);
    let ghost w = (wi as int, wn as int, wc as int);
    let mut out = String::new();
    let mut i: usize = 0;
    while i < n
        invariant
            n == candidates@.len(),
            v == candidates_view(candidates@),
            w == (wi as int, wn as int, wc as int),
            i <= n,
            out@ == menu_lines(v, w, i as int),
        decreases n - i,
    {
        let ghost o = out@;
        let mut index_text = String::new();
        append_decimal(&mut index_text, i as u64);
        let mut cid_text = String::new();
        append_decimal(&mut cid_text, candidates[i].cid as u64);
        let name = candidates[i].matricule.as_str();
        let index_len = index_text.as_str().unicode_len();
        append_padded(&mut out, index_text.as_str(), index_len, wi, false);
        out.append(" : ");
        let name_len = name.unicode_len();
        append_padded(&mut out, name, name_len, wn, false);
        out.append(" (id ");
        let cid_len = cid_text.as_str().unicode_len();
        append_padded(&mut out, cid_text.as_str(), cid_len, wc, true);
        out.append(")\n");
        assert(v[i as int] == candidates@[i as int].view());
        assert(out@ =~= o + menu_line(i as int, v[i as int], w));
        i = i + 1;
    }
    out
}

} // verus!
