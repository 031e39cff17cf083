//! The search step: the request body sent with a free-text query, and the parser
//! of the HTML fragment that the service answers with.
use vstd::prelude::*;

use crate::error::LookupError;
use crate::text::{
    chars_of, contains, find_from, first_occurrence, lemma_split_step,
    parse_u32, parse_u32_at, replace_all, replace_all_exec, replace_char, replace_char_exec,
    split_on, substring, trim, trim_bounds,
};

verus! {

/// A benchmark as the search step names it: its numeric id and its matricule.
#[derive(Clone, Debug, PartialEq, Eq)]
pub struct RNIdentificationInfos {
    pub cid: u32,
    pub matricule: String,
}

impl RNIdentificationInfos {
    pub open spec fn view(&self) -> (u32, Seq<char>) {
        (self.cid, self.matricule@)
    }

    /// A copy of this candidate.
    pub fn duplicate(&self) -> (r: Self)
        ensures
            r.view() == self.view(),
    {
        RNIdentificationInfos { cid: self.cid, matricule: self.matricule.clone() }
    }
}

/// The ids and matricules of a list of candidates.
pub open spec fn candidates_view(v: Seq<RNIdentificationInfos>) -> Seq<(u32, Seq<char>)> {
    v.map_values(|c: RNIdentificationInfos| c.view())
}

/// The text by which the service says that nothing matched.
pub open spec fn no_result_marker() -> Seq<char> {
    "Pas de résultat"@
}

/// The character that stands between an entry's id and its name once the markup
/// is stripped; the service never sends it.
pub open spec fn entry_separator() -> char {
    '\u{0}'
}

/// The fragment with its list markup removed and each entry's id and name
/// separated by `entry_separator()`.
pub open spec fn strip_markup(s: Seq<char>) -> Seq<char> {
    let s1 = replace_all(s, "<ul>"@, ""@);
    let s2 = replace_all(s1, "</ul>"@, ""@);
    let s3 = replace_all(s2, "<li id=\""@, ""@);
    let s4 = replace_all(s3, "\"><span><b>"@, "\u{0}"@);
    replace_all(s4, "</b></span></li>"@, ""@)
}

/// `s` up to the first comment opener, or all of `s` where there is none.
pub open spec fn before_comment(s: Seq<char>) -> Seq<char> {
    match first_occurrence(s, "<!--"@, 0) {
        Some(k) => s.take(k),
        None => s,
    }
}

/// The entry lines of a search fragment.
pub open spec fn entry_lines(s: Seq<char>) -> Seq<Seq<char>> {
    split_on(trim(before_comment(strip_markup(s))), '\n')
}

/// The id and name of one entry line: exactly two parts around the separator,
/// the first a decimal number that fits in a `u32`.
pub open spec fn parse_entry(line: Seq<char>) -> Option<(u32, Seq<char>)> {
    let parts = split_on(line, entry_separator());
    if parts.len() == 2 {
        match parse_u32(parts[0]) {
            Some(id) => Some((id, parts[1])),
            None => None,
        }
    } else {
        None
    }
}

/// The entries of `lines` in order, or the first line that is not an entry.
pub open spec fn parse_entries(lines: Seq<Seq<char>>) -> Result<
    Seq<(u32, Seq<char>)>,
    Seq<char>,
>
    decreases lines.len(),
{
    if lines.len() == 0 {
        Ok(Seq::empty())
    } else {
        match parse_entries(lines.drop_last()) {
            Err(l) => Err(l),
            Ok(v) => match parse_entry(lines.last()) {
                Some(e) => Ok(v.push(e)),
                None => Err(lines.last()),
            },
        }
    }
}

/// What a search fragment lists: nothing where it holds the no-result marker,
/// else the entries of its lines in the order they come.
pub open spec fn search_results(s: Seq<char>) -> Result<Seq<(u32, Seq<char>)>, Seq<char>> {
    if contains(s, no_result_marker()) {
        Ok(Seq::empty())
    } else {
        parse_entries(entry_lines(s))
    }
}

/// The entry on the characters `lo..hi` of `text`.
fn parse_entry_at(text: &str, cs: &Vec<char>, lo: usize, hi: usize) -> (r: Option<
    RNIdentificationInfos,
>)
    requires
        cs@ == text@,
        lo <= hi <= cs@.len(),
    ensures
        r matches Some(c) ==> parse_entry(cs@.subrange(lo as int, hi as int)) == Some(c.view()),
        r is None ==> parse_entry(cs@.subrange(lo as int, hi as int)) is None,
{
    let ghost line = cs@.subrange(lo as int, hi as int);
    let ghost mut pieces: Seq<Seq<char>> = Seq::empty();
    let mut seps: usize = 0;
    let mut first: usize = lo;
    let mut start: usize = lo;
    let mut i: usize = lo;
    assert(line.take(0) =~= Seq::<char>::empty());
    assert(line.subrange(0, 0) =~= Seq::<char>::empty());
    assert(split_on(line.take(0), entry_separator()) =~= pieces.push(line.subrange(0, 0)));
    while i < hi
        invariant
            cs@ == text@,
            lo <= start <= i <= hi <= cs@.len(),
            line == cs@.subrange(lo as int, hi as int),
            split_on(line.take(i - lo), entry_separator()) == pieces.push(
                line.subrange(start - lo, i - lo),
            ),
            seps == (if pieces.len() < 2 {
                pieces.len()
            } else {
                2
            }),
            seps == 0 ==> start == lo,
            seps >= 1 ==> lo <= first < start && pieces[0] == line.subrange(0, first - lo),
            seps == 1 ==> start == first + 1,
        decreases hi - i,
    {
        proof {
            lemma_split_step(line, entry_separator(), i - lo, pieces, start - lo);
        }
        assert(line[i - lo] == cs@[i as int]);
        if cs[i] == '\u{0}' {
            proof {
                pieces = pieces.push(line.subrange(start - lo, i - lo));
            }
            if seps == 0 {
                first = i;
            }
            if seps < 2 {
                seps = seps + 1;
            }
            start = i + 1;
        }
        i = i + 1;
    }
    assert(line.take(hi - lo) =~= line);
    if seps != 1 {
        return None;
    }
    assert(pieces[0] =~= cs@.subrange(lo as int, first as int));
    assert(line.subrange(start - lo, hi - lo) =~= cs@.subrange(start as int, hi as int));
    match parse_u32_at(cs, lo, first) {
        Some(cid) => Some(RNIdentificationInfos { cid, matricule: substring(text, first + 1, hi) }),
        None => None,
    }
}

/// The candidates that a search fragment lists, in the order they come.
///
/// A fragment that holds the no-result marker lists none. Else the markup is
/// stripped, the text cut at the first comment and trimmed, and each line must be
/// an id, the separator and a name; the first line that is not is returned in
/// the error.
pub fn parse_search_results(text: &str) -> (r: Result<Vec<RNIdentificationInfos>, LookupError>)
    ensures
        search_results(text@) matches Ok(v) ==> (r matches Ok(c) && candidates_view(c@) == v),
        search_results(text@) matches Err(l) ==> (r matches Err(LookupError::MalformedEntry(
            m,
        )) && m@ == l),
{
    let all = chars_of(text);
    let marker = chars_of("Pas de résultat");
    if find_from(&all, &marker, 0).is_some() {
        return Ok(Vec::new());
    }
    proof {
        reveal_strlit("<ul>");
        reveal_strlit("</ul>");
        reveal_strlit("<li id=\"");
        reveal_strlit("\"><span><b>");
        reveal_strlit("</b></span></li>");
    }
    let s1 = replace_all_exec(text, "<ul>", "");
    let s2 = replace_all_exec(s1.as_str(), "</ul>", "");
    let s3 = replace_all_exec(s2.as_str(), "<li id=\"", "");
    let s4 = replace_all_exec(s3.as_str(), "\"><span><b>", "\u{0}");
    let t = replace_all_exec(s4.as_str(), "</b></span></li>", "");
    let ts = t.as_str();
    let cs = chars_of(ts);
    let cut = match find_from(&cs, &chars_of("<!--"), 0) {
        Some(k) => k,
        None => cs.len(),
    };
    assert(cs@.subrange(0, cut as int) =~= before_comment(cs@));
    let (a, b) = trim_bounds(&cs, 0, cut);
    let ghost body = cs@.subrange(a as int, b as int);
    assert(split_on(body, '\n') == entry_lines(text@));
    let mut out: Vec<RNIdentificationInfos> = Vec::new();
    let mut failed: Option<String> = None;
    let ghost mut done: Seq<Seq<char>> = Seq::empty();
    let mut start: usize = a;
    let mut i: usize = a;
    assert(body.take(0) =~= Seq::<char>::empty());
    assert(body.subrange(0, 0) =~= Seq::<char>::empty());
    assert(split_on(body.take(0), '\n') =~= done.push(body.subrange(0, 0)));
    assert(candidates_view(out@) =~= Seq::<(u32, Seq<char>)>::empty());
    while i < b
        invariant
            cs@ == ts@,
            a <= start <= i <= b <= cs@.len(),
            body == cs@.subrange(a as int, b as int),
            split_on(body.take(i - a), '\n') == done.push(body.subrange(start - a, i - a)),
            failed is None ==> parse_entries(done) == Ok::<Seq<(u32, Seq<char>)>, Seq<char>>(
                candidates_view(out@),
            ),
            failed matches Some(m) ==> parse_entries(done) == Err::<
                Seq<(u32, Seq<char>)>,
                Seq<char>,
            >(m@),
        decreases b - i,
    {
        proof {
            lemma_split_step(body, '\n', i - a, done, start - a);
        }
        assert(body[i - a] == cs@[i as int]);
        if cs[i] == '\n' {
            let ghost line = body.subrange(start - a, i - a);
            assert(line =~= cs@.subrange(start as int, i as int));
            assert(done.push(line).drop_last() =~= done);
            if failed.is_none() {
                match parse_entry_at(ts, &cs, start, i) {
                    Some(c) => {
                        let ghost old_out = out@;
                        out.push(c);
                        assert(candidates_view(out@) =~= candidates_view(old_out).push(c.view()));
                    },
                    None => {
                        failed = Some(substring(ts, start, i));
                    },
                }
            }
            proof {
                done = done.push(line);
            }
            start = i + 1;
        }
        i = i + 1;
    }
    assert(body.take(b - a) =~= body);
    let ghost line = body.subrange(start - a, b - a);
    assert(line =~= cs@.subrange(start as int, b as int));
    assert(done.push(line).drop_last() =~= done);
    match failed {
        Some(m) => Err(LookupError::MalformedEntry(m)),
        None => match parse_entry_at(ts, &cs, start, b) {
            Some(c) => {
                let ghost old_out = out@;
                out.push(c);
                assert(candidates_view(out@) =~= candidates_view(old_out).push(c.view()));
                Ok(out)
            },
            None => Err(LookupError::MalformedEntry(substring(ts, start, b))),
        },
    }
}

/// `split_on` always gives at least one piece.
pub proof fn lemma_split_on_nonempty(s: Seq<char>, sep: char)
    ensures
        split_on(s, sep).len() >= 1,
    decreases s.len(),
{
    if s.len() > 0 {
        lemma_split_on_nonempty(s.drop_last(), sep);
    }
}

/// Lines that are all entries give one candidate per line, in the order of the
/// lines; other lines give the first one that is not an entry.
pub proof fn lemma_parse_entries_shape(lines: Seq<Seq<char>>)
    ensures
        parse_entries(lines) matches Ok(v) ==> v.len() == lines.len(),
        (forall|i: int| 0 <= i < lines.len() ==> (#[trigger] parse_entry(lines[i])) is Some)
            ==> (parse_entries(lines) matches Ok(v) && forall|i: int|
            0 <= i < lines.len() ==> parse_entry(lines[i]) == Some(#[trigger] v[i])),
    decreases lines.len(),
{
    if lines.len() > 0 {
        let init = lines.drop_last();
        lemma_parse_entries_shape(init);
        if forall|i: int| 0 <= i < lines.len() ==> (#[trigger] parse_entry(lines[i])) is Some {
            assert forall|i: int| 0 <= i < init.len() implies (#[trigger] parse_entry(
                init[i],
            )) is Some by {
                assert(init[i] == lines[i]);
            }
            assert(parse_entry(lines[lines.len() - 1]) is Some);
            let v = parse_entries(lines)->Ok_0;
            assert forall|i: int| 0 <= i < lines.len() implies parse_entry(lines[i]) == Some(
                #[trigger] v[i],
            ) by {
                if i < init.len() {
                    assert(init[i] == lines[i]);
                }
            }
        }
    }
}

/// A fragment without the no-result marker whose entry lines all hold an id and a
/// name gives exactly one candidate per line, in the order of the lines, each
/// with the id and name of its line.
pub proof fn lemma_well_formed_fragment(s: Seq<char>)
    requires
        !contains(s, no_result_marker()),
        forall|i: int|
            0 <= i < entry_lines(s).len() ==> (#[trigger] parse_entry(entry_lines(s)[i])) is Some,
    ensures
        search_results(s) matches Ok(v) && v.len() == entry_lines(s).len() && v.len() >= 1
            && forall|i: int|
            0 <= i < v.len() ==> parse_entry(entry_lines(s)[i]) == Some(#[trigger] v[i]),
{
    lemma_parse_entries_shape(entry_lines(s));
    lemma_split_on_nonempty(trim(before_comment(strip_markup(s))), '\n');
}

/// A search fragment lists no candidate if and only if it holds the no-result
/// marker.
pub proof fn lemma_no_candidates_iff_marker(s: Seq<char>)
    ensures
        search_results(s) == Ok::<Seq<(u32, Seq<char>)>, Seq<char>>(Seq::empty()) <==> contains(
            s,
            no_result_marker(),
        ),
{
    lemma_parse_entries_shape(entry_lines(s));
    lemma_split_on_nonempty(trim(before_comment(strip_markup(s))), '\n');
}

/// The query as it is sent: trimmed, with each typographic apostrophe made a
/// plain one.
pub open spec fn normalized_query(q: Seq<char>) -> Seq<char> {
    replace_char(trim(q), '’', "'"@)
}

/// The body of the search request for the query `q`.
pub open spec fn search_body(q: Seq<char>) -> Seq<char> {
    "repere_ajax="@ + normalized_query(q) + "&identifiant_visugeod=identificateur_repere"@
}

/// The body of the search request for a free-text query.
///
/// An empty query, and one that holds `|` (the service's field separator), are
/// refused.
pub fn search_request_body(query: &str) -> (r: Result<String, LookupError>)
    ensures
        query@.len() == 0 ==> r == Err::<String, LookupError>(LookupError::EmptyQuery),
        query@.len() != 0 && query@.contains('|') ==> r == Err::<String, LookupError>(
            LookupError::QueryWithPipe,
        ),
        query@.len() != 0 && !query@.contains('|') ==> (r matches Ok(b) && b@ == search_body(
            query@,
        )),
{
    let cs = chars_of(query);
    if cs.len() == 0 {
        return Err(LookupError::EmptyQuery);
    }
    let mut i: usize = 0;
    while i < cs.len()
        invariant
            cs@ == query@,
            i <= cs@.len(),
            forall|k: int| 0 <= k < i ==> cs@[k] != '|',
        decreases cs@.len() - i,
    {
        if cs[i] == '|' {
            assert(query@[i as int] == '|');
            return Err(LookupError::QueryWithPipe);
        }
        i = i + 1;
    }
    assert(!query@.contains('|'));
    let (a, b) = trim_bounds(&cs, 0, cs.len());
    assert(cs@.subrange(0, cs@.len() as int) =~= query@);
    let trimmed = substring(query, a, b);
    let normalized = replace_char_exec(trimmed.as_str(), '’', "'");
    let mut body = String::from_str("repere_ajax=");
    body.append(normalized.as_str());
    body.append("&identifiant_visugeod=identificateur_repere");
    Ok(body)
}

/// The matricule as the bounding-box search writes it: each `'` doubled.
pub open spec fn bbox_search_body(matricule: Seq<char>) -> Seq<char> {
    "h_recherche=repere|"@ + replace_char(matricule, '\'', "''"@) + "&t=france"@
}

/// The body of the search request that locates the benchmark `matricule`.
pub fn bbox_search_request_body(matricule: &str) -> (r: String)
    ensures
        r@ == bbox_search_body(matricule@),
{
    let doubled = replace_char_exec(matricule, '\'', "''");
    let mut body = String::from_str("h_recherche=repere|");
    body.append(doubled.as_str());
    body.append("&t=france");
    body
}

} // verus!
