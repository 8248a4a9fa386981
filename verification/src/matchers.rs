//! The operation grammar: each path token is matched against a fixed, ordered
//! list of token shapes, and a `+`-separated filter expression is turned into
//! an ordered chain of transformations.
//!
//! A matcher accepts a token only when the whole token has the shape; there is
//! no partial match. A numeral whose value exceeds `i32::MAX` does not match
//! (the pixel geometry is 32-bit), and the sized shapes demand positive
//! numerals, so every transformation built here is well formed.

use vstd::prelude::*;

use crate::text::{
    begins_with, digits_value, find_char, find_char_in, has_prefix, is_numeral, lemma_find_char,
    parse_numeral,
};
use crate::transformation::Transformation;

verus! {

/// A positive numeral no larger than `i32::MAX`, as a pixel count.
pub open spec fn parse_positive(s: Seq<char>) -> Option<i32> {
    if is_numeral(s) && 0 < digits_value(s) && digits_value(s) <= i32::MAX {
        Some(digits_value(s) as i32)
    } else {
        None
    }
}

/// A numeral no larger than `i32::MAX`, as a pixel coordinate.
pub open spec fn parse_nonneg(s: Seq<char>) -> Option<i32> {
    if is_numeral(s) && digits_value(s) <= i32::MAX {
        Some(digits_value(s) as i32)
    } else {
        None
    }
}

/// One side of a resize: `-` marks an absent side, otherwise a positive
/// numeral is demanded.
pub open spec fn parse_dim(s: Seq<char>) -> Option<Option<i32>> {
    if s.len() == 1 && s[0] == '-' {
        Some(None)
    } else {
        match parse_positive(s) {
            Some(v) => Some(Some(v)),
            None => None,
        }
    }
}

/// The shape `resize_<W|->x<H|->`: both sides absent is no match.
pub open spec fn match_resize_spec(s: Seq<char>) -> Option<Transformation> {
    if !begins_with(s, "resize_"@) {
        None
    } else {
        let rest = s.subrange("resize_"@.len() as int, s.len() as int);
        match find_char(rest, 'x') {
            Some(i) => match (parse_dim(rest.subrange(0, i)), parse_dim(
                rest.subrange(i + 1, rest.len() as int),
            )) {
                (Some(w), Some(h)) => if w is None && h is None {
                    None
                } else {
                    Some(Transformation::Resize { height: h, width: w })
                },
                _ => None,
            },
            None => None,
        }
    }
}

/// The shape `rotate_<deg>`: the degrees must denote 90, 180 or 270.
pub open spec fn match_rotate_spec(s: Seq<char>) -> Option<Transformation> {
    if !begins_with(s, "rotate_"@) {
        None
    } else {
        let d = s.subrange("rotate_"@.len() as int, s.len() as int);
        if is_numeral(d) && (digits_value(d) == 90 || digits_value(d) == 180 || digits_value(d)
            == 270) {
            Some(Transformation::Rotate { degrees: digits_value(d) as i32 })
        } else {
            None
        }
    }
}

/// The shape `crop_<W>x<H>`: both sides positive numerals.
pub open spec fn match_crop_spec(s: Seq<char>) -> Option<Transformation> {
    if !begins_with(s, "crop_"@) {
        None
    } else {
        let rest = s.subrange("crop_"@.len() as int, s.len() as int);
        match find_char(rest, 'x') {
            Some(i) => match (parse_positive(rest.subrange(0, i)), parse_positive(
                rest.subrange(i + 1, rest.len() as int),
            )) {
                (Some(w), Some(h)) => Some(Transformation::Crop { height: h, width: w }),
                _ => None,
            },
            None => None,
        }
    }
}

/// The shape `crop_coordinates_<x1>x<y1>_<x2>x<y2>`: four numerals.
pub open spec fn match_crop_coordinates_spec(s: Seq<char>) -> Option<Transformation> {
    if !begins_with(s, "crop_coordinates_"@) {
        None
    } else {
        let rest = s.subrange("crop_coordinates_"@.len() as int, s.len() as int);
        match find_char(rest, '_') {
            Some(m) => {
                let left = rest.subrange(0, m);
                let right = rest.subrange(m + 1, rest.len() as int);
                match (find_char(left, 'x'), find_char(right, 'x')) {
                    (Some(i), Some(j)) => match (parse_nonneg(left.subrange(0, i)), parse_nonneg(
                        left.subrange(i + 1, left.len() as int),
                    ), parse_nonneg(right.subrange(0, j)), parse_nonneg(
                        right.subrange(j + 1, right.len() as int),
                    )) {
                        (Some(x1), Some(y1), Some(x2), Some(y2)) => Some(
                            Transformation::CropCoordinates { x1, y1, x2, y2 },
                        ),
                        _ => None,
                    },
                    _ => None,
                }
            },
            None => None,
        }
    }
}

/// The whole grammar: the first matching shape, in a fixed order, decides.
pub open spec fn parse_operation(s: Seq<char>) -> Option<Transformation> {
    if match_resize_spec(s) is Some {
        match_resize_spec(s)
    } else if match_rotate_spec(s) is Some {
        match_rotate_spec(s)
    } else if match_crop_spec(s) is Some {
        match_crop_spec(s)
    } else {
        match_crop_coordinates_spec(s)
    }
}

/// Whatever the grammar accepts is a well-formed transformation.
pub proof fn lemma_parse_operation_wf(s: Seq<char>)
    ensures
        parse_operation(s) matches Some(op) ==> op.wf(),
{
}

/// The two crop shapes never match the same token, so their order among the
/// matchers is immaterial: after `crop_`, a digit is demanded where the
/// literal `coordinates_` of the longer shape would stand.
pub proof fn lemma_crop_shapes_disjoint(s: Seq<char>)
    ensures
        !(match_crop_spec(s) is Some && match_crop_coordinates_spec(s) is Some),
{
    if match_crop_spec(s) is Some && match_crop_coordinates_spec(s) is Some {
        reveal_strlit("crop_");
        reveal_strlit("crop_coordinates_");
        let rest = s.subrange("crop_"@.len() as int, s.len() as int);
        lemma_find_char(rest, 'x');
        let i = find_char(rest, 'x') ->Some_0;
        assert(rest[0] == s[5]);
        assert(s[5] == "crop_coordinates_"@[5]);
        assert(rest[0] != 'x');
        assert(i >= 1);
        assert(rest.subrange(0, i)[0] == 'c');
        assert(!is_numeral(rest.subrange(0, i)));
    }
}

/// A rotation token `rotate_<deg>` parses exactly when its numeral denotes
/// 90, 180 or 270; every other number is rejected, and an accepted token
/// yields the rotation by that number of degrees.
pub proof fn lemma_rotate_token_degrees(s: Seq<char>, ds: Seq<char>)
    requires
        s == "rotate_"@ + ds,
        is_numeral(ds),
    ensures
        parse_operation(s) is Some <==> (digits_value(ds) == 90 || digits_value(ds) == 180
            || digits_value(ds) == 270),
        parse_operation(s) matches Some(op) ==> op == (Transformation::Rotate {
            degrees: digits_value(ds) as i32,
        }),
{
    reveal_strlit("rotate_");
    reveal_strlit("resize_");
    reveal_strlit("crop_");
    reveal_strlit("crop_coordinates_");
    assert(forall|i: int| 0 <= i < "rotate_"@.len() ==> s[i] == "rotate_"@[i]);
    assert(begins_with(s, "rotate_"@));
    assert(s.subrange("rotate_"@.len() as int, s.len() as int) =~= ds);
    assert(s[1] != "resize_"@[1]);
    assert(!begins_with(s, "resize_"@));
    assert(s[0] != "crop_"@[0]);
    assert(!begins_with(s, "crop_"@));
    assert(!begins_with(s, "crop_coordinates_"@));
}

/// The pieces of `s` between `+` separators, in textual order.
pub open spec fn split_plus(s: Seq<char>) -> Seq<Seq<char>>
    decreases s.len(),
    via split_plus_decreases
{
    match find_char(s, '+') {
        Some(i) => seq![s.subrange(0, i)] + split_plus(s.subrange(i + 1, s.len() as int)),
        None => seq![s],
    }
}

#[via_fn]
proof fn split_plus_decreases(s: Seq<char>) {
    lemma_find_char(s, '+');
}

/// The diagnostic carried by a chain-construction failure: it names the
/// offending token verbatim.
pub open spec fn invalid_token_message(tok: Seq<char>) -> Seq<char> {
    "Invalid transformation \""@ + tok + "\""@
}

fn parse_positive_exec(s: &str) -> (r: Option<i32>)
    ensures
        r == parse_positive(s@),
{
    match parse_numeral(s) {
        Some(v) => if v > 0 {
            Some(v)
        } else {
            None
        },
        None => None,
    }
}

fn parse_nonneg_exec(s: &str) -> (r: Option<i32>)
    ensures
        r == parse_nonneg(s@),
{
    parse_numeral(s)
}

fn parse_dim_exec(s: &str) -> (r: Option<Option<i32>>)
    ensures
        r == parse_dim(s@),
{
    if s.unicode_len() == 1 && s.get_char(0) == '-' {
        Some(None)
    } else {
        match parse_positive_exec(s) {
            Some(v) => Some(Some(v)),
            None => None,
        }
    }
}

/// Matches the token shape `resize_<W|->x<H|->`.
pub fn match_resize(entry: &str) -> (r: Option<Transformation>)
    ensures
        r == match_resize_spec(entry@),
{
    if !has_prefix(entry, "resize_") {
        return None;
    }
    proof {
        reveal_strlit("resize_");
    }
    let n = entry.unicode_len();
    let rest = entry.substring_char(7, n);
    let rn = rest.unicode_len();
    match find_char_in(rest, 'x') {
        Some(i) => {
            let w = parse_dim_exec(rest.substring_char(0, i));
            let h = parse_dim_exec(rest.substring_char(i + 1, rn));
            match (w, h) {
                (Some(w), Some(h)) => if w.is_none() && h.is_none() {
                    None
                } else {
                    Some(Transformation::Resize { height: h, width: w })
                },
                _ => None,
            }
        },
        None => None,
    }
}

/// Matches the token shape `rotate_<deg>` for 90, 180 or 270 degrees.
pub fn match_rotate(entry: &str) -> (r: Option<Transformation>)
    ensures
        r == match_rotate_spec(entry@),
{
    if !has_prefix(entry, "rotate_") {
        return None;
    }
    proof {
        reveal_strlit("rotate_");
    }
    let n = entry.unicode_len();
    let d = entry.substring_char(7, n);
    match parse_numeral(d) {
        Some(v) => if v == 90 || v == 180 || v == 270 {
            Some(Transformation::Rotate { degrees: v })
        } else {
            None
        },
        None => None,
    }
}

/// Matches the token shape `crop_<W>x<H>`.
pub fn match_crop(entry: &str) -> (r: Option<Transformation>)
    ensures
        r == match_crop_spec(entry@),
{
    if !has_prefix(entry, "crop_") {
        return None;
    }
    proof {
        reveal_strlit("crop_");
    }
    let n = entry.unicode_len();
    let rest = entry.substring_char(5, n);
    let rn = rest.unicode_len();
    match find_char_in(rest, 'x') {
        Some(i) => {
            let w = parse_positive_exec(rest.substring_char(0, i));
            let h = parse_positive_exec(rest.substring_char(i + 1, rn));
            match (w, h) {
                (Some(w), Some(h)) => Some(Transformation::Crop { height: h, width: w }),
                _ => None,
            }
        },
        None => None,
    }
}

/// Matches the token shape `crop_coordinates_<x1>x<y1>_<x2>x<y2>`.
pub fn match_crop_coordinates(entry: &str) -> (r: Option<Transformation>)
    ensures
        r == match_crop_coordinates_spec(entry@),
{
    if !has_prefix(entry, "crop_coordinates_") {
        return None;
    }
    proof {
        reveal_strlit("crop_coordinates_");
    }
    let n = entry.unicode_len();
    let rest = entry.substring_char(17, n);
    let rn = rest.unicode_len();
    match find_char_in(rest, '_') {
        Some(m) => {
            let left = rest.substring_char(0, m);
            let right = rest.substring_char(m + 1, rn);
            let ln = left.unicode_len();
            let rrn = right.unicode_len();
            match (find_char_in(left, 'x'), find_char_in(right, 'x')) {
                (Some(i), Some(j)) => {
                    let x1 = parse_nonneg_exec(left.substring_char(0, i));
                    let y1 = parse_nonneg_exec(left.substring_char(i + 1, ln));
                    let x2 = parse_nonneg_exec(right.substring_char(0, j));
                    let y2 = parse_nonneg_exec(right.substring_char(j + 1, rrn));
                    match (x1, y1, x2, y2) {
                        (Some(x1), Some(y1), Some(x2), Some(y2)) => Some(
                            Transformation::CropCoordinates { x1, y1, x2, y2 },
                        ),
                        _ => None,
                    }
                },
                _ => None,
            }
        },
        None => None,
    }
}

/// Matches one token against the ordered list of shapes; the first match
/// decides, and every accepted transformation is well formed.
pub fn create_operation(entry: &str) -> (r: Option<Transformation>)
    ensures
        r == parse_operation(entry@),
        r matches Some(op) ==> op.wf(),
{
    proof {
        lemma_parse_operation_wf(entry@);
    }
    let r = match_resize(entry);
    if r.is_some() {
        return r;
    }
    let r = match_rotate(entry);
    if r.is_some() {
        return r;
    }
    let r = match_crop(entry);
    if r.is_some() {
        return r;
    }
    match_crop_coordinates(entry)
}

fn build_invalid_message(tok: &str) -> (r: String)
    ensures
        r@ == invalid_token_message(tok@),
{
    let mut msg = String::from_str("Invalid transformation \"");
    msg.append(tok);
    msg.append("\"");
    proof {
        assert(msg@ =~= invalid_token_message(tok@));
    }
    msg
}

/// Splits a filter expression on `+` and matches each piece in textual order.
///
/// On success the chain lists one transformation per token, in the order the
/// tokens stand in the expression. The first token the grammar rejects stops
/// the build, and the error names that token verbatim.
pub fn create_operations(entry: &str) -> (r: Result<Vec<Transformation>, String>)
    ensures
        ({
            let tokens = split_plus(entry@);
            match r {
                Ok(ops) => {
                    &&& ops@.len() == tokens.len()
                    &&& ops@.len() > 0
                    &&& (forall|i: int|
                        0 <= i < tokens.len() ==> parse_operation(#[trigger] tokens[i]) == Some(
                            ops@[i],
                        ))
                    &&& crate::transformation::chain_wf(ops@)
                },
                Err(msg) => exists|i: int|
                    {
                        &&& 0 <= i < tokens.len()
                        &&& parse_operation(#[trigger] tokens[i]) is None
                        &&& (forall|j: int| 0 <= j < i ==> parse_operation(tokens[j]) is Some)
                        &&& msg@ == invalid_token_message(tokens[i])
                    },
            }
        }),
{
    let mut ops: Vec<Transformation> = Vec::new();
    let mut rest: &str = entry;
    let ghost mut processed: Seq<Seq<char>> = Seq::empty();
    proof {
        assert(split_plus(entry@) =~= processed + split_plus(rest@));
    }
    loop
        invariant
            split_plus(entry@) == processed + split_plus(rest@),
            ops@.len() == processed.len(),
            forall|k: int|
                0 <= k < processed.len() ==> parse_operation(#[trigger] processed[k]) == Some(
                    ops@[k],
                ),
            crate::transformation::chain_wf(ops@),
        decreases rest@.len(),
    {
        let ghost tokens = split_plus(entry@);
        proof {
            assert(forall|j: int|
                0 <= j < processed.len() ==> #[trigger] tokens[j] == processed[j]);
        }
        let rn = rest.unicode_len();
        match find_char_in(rest, '+') {
            Some(cut) => {
                let tok = rest.substring_char(0, cut);
                proof {
                    assert(split_plus(rest@) == seq![tok@] + split_plus(
                        rest@.subrange(cut + 1, rest@.len() as int),
                    ));
                    assert(tokens[processed.len() as int] == tok@);
                }
                match create_operation(tok) {
                    Some(op) => {
                        ops.push(op);
                        let next = rest.substring_char(cut + 1, rn);
                        proof {
                            processed = processed.push(tok@);
                            assert(split_plus(entry@) =~= processed + split_plus(next@));
                        }
                        rest = next;
                    },
                    None => {
                        let msg = build_invalid_message(tok);
                        return Err(msg);
                    },
                }
            },
            None => {
                proof {
                    assert(split_plus(rest@) == seq![rest@]);
                    assert(tokens[processed.len() as int] == rest@);
                }
                match create_operation(rest) {
                    Some(op) => {
                        ops.push(op);
                        proof {
                            processed = processed.push(rest@);
                            assert(split_plus(entry@) =~= processed);
                        }
                        return Ok(ops);
                    },
                    None => {
                        let msg = build_invalid_message(rest);
                        return Err(msg);
                    },
                }
            },
        }
    }
}

} // verus!
