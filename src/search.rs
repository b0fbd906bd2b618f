//! Resolving a list of entered shift codes into printable lines.
use vstd::prelude::*;

use crate::code::{lemma_shift_range_wf, shift_range, upper_of, TimeRange};

verus! {

/// The line printed for a resolved code: `<code> => HH:MM-HH:MM`.
pub open spec fn line_text(code: Seq<char>, range: TimeRange) -> Seq<char> {
    code + seq![' ', '=', '>', ' '] + range.text()
}

/// Whether the table knows a code, written in any letter case.
pub open spec fn is_known(code: Seq<char>) -> bool {
    shift_range(upper_of(code)) is Some
}

/// The codes that the table does not know, in their order.
pub open spec fn unknown_codes(codes: Seq<Seq<char>>) -> Seq<Seq<char>>
    decreases codes.len(),
{
    if codes.len() == 0 {
        seq![]
    } else {
        let n = codes.len() - 1;
        let earlier = unknown_codes(codes.take(n));
        if is_known(codes[n]) {
            earlier
        } else {
            earlier.push(codes[n])
        }
    }
}

/// One line per code, in their order, each with the code's range.
pub open spec fn resolved_lines(codes: Seq<Seq<char>>) -> Seq<Seq<char>> {
    Seq::new(codes.len(), |i: int| line_text(codes[i], shift_range(upper_of(codes[i]))->Some_0))
}

/// The line printed for `code` resolved to `range`.
pub fn search_line(code: &str, range: &TimeRange) -> (r: String)
    requires
        range.wf(),
    ensures
        r@ == line_text(code@, *range),
{
    let mut r = String::from_str(code);
    r.append(" => ");
    let text = range.to_string();
    r.append(text.as_str());
    proof {
        reveal_strlit(" => ");
    }
    r
}

/// Looks up every code. When all are known, the lines to print, one per code
/// in their order; otherwise the unknown codes, in their order.
pub fn resolve_codes(codes: &Vec<String>) -> (r: Result<Vec<String>, Vec<String>>)
    ensures
        unknown_codes(codes.deep_view()).len() == 0 <==> r is Ok,
        r matches Ok(lines) ==> lines.deep_view() == resolved_lines(codes.deep_view()),
        r matches Err(unknown) ==> unknown.deep_view() == unknown_codes(codes.deep_view()),
{
    let ghost all = codes.deep_view();
    let mut lines: Vec<String> = Vec::new();
    let mut unknown: Vec<String> = Vec::new();
    let mut i: usize = 0;
    while i < codes.len()
        invariant
            i <= codes.len(),
            all == codes.deep_view(),
            unknown.deep_view() == unknown_codes(all.take(i as int)),
            unknown.len() == 0 ==> lines.deep_view() =~= resolved_lines(all.take(i as int)),
        decreases codes.len() - i,
    {
        assert(all.take(i + 1).take(i as int) =~= all.take(i as int));
        assert(all[i as int] == codes[i as int]@);
        let code = codes[i].as_str();
        match TimeRange::find_code(code) {
            Some(range) => {
                proof {
                    lemma_shift_range_wf(upper_of(code@));
                }
                let line = search_line(code, &range);
                let ghost before = lines.deep_view();
                lines.push(line);
                assert(lines.deep_view() =~= before.push(line@));
            },
            None => {
                unknown.push(codes[i].clone());
            },
        }
        i += 1;
    }
    assert(all.take(i as int) =~= all);
    if unknown.len() == 0 {
        Ok(lines)
    } else {
        Err(unknown)
    }
}

} // verus!
