//! Structure recovery over token sequences: the extent of one value, the
//! members of an object, the elements of an array, and field lookup.
//!
//! Unknown members of an object are tolerated, as the upstream contract
//! allows responses wider than what this library reads; their values are
//! skipped by bracket depth alone.
use vstd::prelude::*;

use crate::lexer::Tok;
use crate::lexer::TokM;
use crate::lexer::tok_model;
use crate::lexer::toks_model;

verus! {

/// The mathematical image of a member list: key and value position pairs.
pub open spec fn fields_model(v: Seq<(String, usize)>) -> Seq<(Seq<char>, int)> {
    v.map_values(|p: (String, usize)| (p.0@, p.1 as int))
}

/// The position just past the container that opened before `i` at nesting
/// `depth`.
pub open spec fn depth_scan(toks: Seq<TokM>, i: int, depth: int) -> Option<int>
    decreases toks.len() - i,
{
    if i < 0 || i >= toks.len() {
        None
    } else {
        match toks[i] {
            TokM::LBrace => depth_scan(toks, i + 1, depth + 1),
            TokM::LBrack => depth_scan(toks, i + 1, depth + 1),
            TokM::RBrace => if depth == 1 {
                Some(i + 1)
            } else {
                depth_scan(toks, i + 1, depth - 1)
            },
            TokM::RBrack => if depth == 1 {
                Some(i + 1)
            } else {
                depth_scan(toks, i + 1, depth - 1)
            },
            _ => depth_scan(toks, i + 1, depth),
        }
    }
}

/// The position just past the value that starts at `i`.
pub open spec fn value_end(toks: Seq<TokM>, i: int) -> Option<int> {
    if i < 0 || i >= toks.len() {
        None
    } else {
        match toks[i] {
            TokM::LBrace => depth_scan(toks, i + 1, 1),
            TokM::LBrack => depth_scan(toks, i + 1, 1),
            TokM::RBrace => None,
            TokM::RBrack => None,
            TokM::Colon => None,
            TokM::Comma => None,
            _ => Some(i + 1),
        }
    }
}

/// The members of the object opening at `i`: key and value position pairs,
/// and the position just past the closing brace. Duplicate keys are kept;
/// the lookup step refuses them.
pub open spec fn obj_fields(toks: Seq<TokM>, i: int) -> Option<(Seq<(Seq<char>, int)>, int)> {
    if !(0 <= i < toks.len() && toks[i] is LBrace) {
        None
    } else if i + 1 < toks.len() && toks[i + 1] is RBrace {
        Some((Seq::empty(), i + 2))
    } else {
        obj_members(toks, i + 1)
    }
}

/// The member list from a key position on, up to the closing brace.
pub open spec fn obj_members(toks: Seq<TokM>, i: int) -> Option<(Seq<(Seq<char>, int)>, int)>
    decreases toks.len() - i,
{
    if !(0 <= i && i + 2 <= toks.len()) {
        None
    } else {
        match toks[i] {
            TokM::Str(k) => if toks[i + 1] is Colon {
                match value_end(toks, i + 2) {
                    None => None,
                    Some(j) => if i + 2 < j && j < toks.len() {
                        if toks[j] is Comma {
                            match obj_members(toks, j + 1) {
                                None => None,
                                Some((rest, end)) => Some((seq![(k, i + 2)] + rest, end)),
                            }
                        } else if toks[j] is RBrace {
                            Some((seq![(k, i + 2)], j + 1))
                        } else {
                            None
                        }
                    } else {
                        None
                    },
                }
            } else {
                None
            },
            _ => None,
        }
    }
}

/// The element positions of the array opening at `i`, and the position just
/// past the closing bracket.
pub open spec fn arr_elems(toks: Seq<TokM>, i: int) -> Option<(Seq<int>, int)> {
    if !(0 <= i < toks.len() && toks[i] is LBrack) {
        None
    } else if i + 1 < toks.len() && toks[i + 1] is RBrack {
        Some((Seq::empty(), i + 2))
    } else {
        arr_items(toks, i + 1)
    }
}

/// The element positions from one element on, up to the closing bracket.
pub open spec fn arr_items(toks: Seq<TokM>, i: int) -> Option<(Seq<int>, int)>
    decreases toks.len() - i,
{
    if i < 0 {
        None
    } else {
        match value_end(toks, i) {
            None => None,
            Some(j) => if i < j && j < toks.len() {
                if toks[j] is Comma {
                    match arr_items(toks, j + 1) {
                        None => None,
                        Some((rest, end)) => Some((seq![i] + rest, end)),
                    }
                } else if toks[j] is RBrack {
                    Some((seq![i], j + 1))
                } else {
                    None
                }
            } else {
                None
            },
        }
    }
}

fn depth_scan_x(toks: &Vec<Tok>, i: usize, depth: usize) -> (r: Option<usize>)
    requires
        i <= toks@.len(),
        1 <= depth <= i,
    ensures
        match r {
            Some(j) => depth_scan(toks_model(toks@), i as int, depth as int) == Some(j as int)
                && i < j <= toks@.len(),
            None => depth_scan(toks_model(toks@), i as int, depth as int) is None,
        },
    decreases toks@.len() - i,
{
    if i >= toks.len() {
        return None;
    }
    proof {
        assert(toks_model(toks@)[i as int] == tok_model(toks@[i as int]));
    }
    match &toks[i] {
        Tok::LBrace => depth_scan_x(toks, i + 1, depth + 1),
        Tok::LBrack => depth_scan_x(toks, i + 1, depth + 1),
        Tok::RBrace => if depth == 1 {
            Some(i + 1)
        } else {
            depth_scan_x(toks, i + 1, depth - 1)
        },
        Tok::RBrack => if depth == 1 {
            Some(i + 1)
        } else {
            depth_scan_x(toks, i + 1, depth - 1)
        },
        _ => depth_scan_x(toks, i + 1, depth),
    }
}

/// The position just past the value that starts at `i`.
pub fn value_end_x(toks: &Vec<Tok>, i: usize) -> (r: Option<usize>)
    ensures
        match r {
            Some(j) => value_end(toks_model(toks@), i as int) == Some(j as int) && i < j
                <= toks@.len(),
            None => value_end(toks_model(toks@), i as int) is None,
        },
{
    if i >= toks.len() {
        return None;
    }
    proof {
        assert(toks_model(toks@)[i as int] == tok_model(toks@[i as int]));
    }
    match &toks[i] {
        Tok::LBrace => depth_scan_x(toks, i + 1, 1),
        Tok::LBrack => depth_scan_x(toks, i + 1, 1),
        Tok::RBrace => None,
        Tok::RBrack => None,
        Tok::Colon => None,
        Tok::Comma => None,
        _ => Some(i + 1),
    }
}

/// The members of the object opening at `i`.
pub fn obj_fields_x(toks: &Vec<Tok>, i: usize) -> (r: Option<(Vec<(String, usize)>, usize)>)
    ensures
        match r {
            Some(p) => obj_fields(toks_model(toks@), i as int) == Some(
                (fields_model(p.0@), p.1 as int),
            ) && i < p.1 <= toks@.len(),
            None => obj_fields(toks_model(toks@), i as int) is None,
        },
{
    if i >= toks.len() {
        return None;
    }
    proof {
        assert(toks_model(toks@)[i as int] == tok_model(toks@[i as int]));
    }
    let is_open = match &toks[i] {
        Tok::LBrace => true,
        _ => false,
    };
    if !is_open {
        return None;
    }
    if i + 1 < toks.len() {
        proof {
            assert(toks_model(toks@)[i as int + 1] == tok_model(toks@[i as int + 1]));
        }
        let empty_obj = match &toks[i + 1] {
            Tok::RBrace => true,
            _ => false,
        };
        if empty_obj {
            let fields: Vec<(String, usize)> = Vec::new();
            proof {
                assert(fields_model(fields@) =~= Seq::<(Seq<char>, int)>::empty());
            }
            return Some((fields, i + 2));
        }
    }
    obj_members_x(toks, i + 1)
}

fn obj_members_x(toks: &Vec<Tok>, i: usize) -> (r: Option<(Vec<(String, usize)>, usize)>)
    ensures
        match r {
            Some(p) => obj_members(toks_model(toks@), i as int) == Some(
                (fields_model(p.0@), p.1 as int),
            ) && i < p.1 <= toks@.len(),
            None => obj_members(toks_model(toks@), i as int) is None,
        },
    decreases toks@.len() - i,
{
    if !(i < toks.len() && toks.len() - i >= 2) {
        return None;
    }
    proof {
        assert(toks_model(toks@)[i as int] == tok_model(toks@[i as int]));
        assert(toks_model(toks@)[i as int + 1] == tok_model(toks@[i as int + 1]));
    }
    let key: String = match &toks[i] {
        Tok::Str(k) => k.clone(),
        _ => {
            return None;
        },
    };
    let is_colon = match &toks[i + 1] {
        Tok::Colon => true,
        _ => false,
    };
    if !is_colon {
        return None;
    }
    let j = match value_end_x(toks, i + 2) {
        None => {
            return None;
        },
        Some(j) => j,
    };
    if !(i + 2 < j && j < toks.len()) {
        return None;
    }
    proof {
        assert(toks_model(toks@)[j as int] == tok_model(toks@[j as int]));
    }
    match &toks[j] {
        Tok::Comma => {
            match obj_members_x(toks, j + 1) {
                None => None,
                Some((mut rest, end)) => {
                    let ghost restm = rest@;
                    rest.insert(0, (key, i + 2));
                    proof {
                        assert(fields_model(rest@) =~= seq![(key@, i as int + 2)] + fields_model(
                            restm,
                        ));
                    }
                    Some((rest, end))
                },
            }
        },
        Tok::RBrace => {
            let mut fields: Vec<(String, usize)> = Vec::new();
            fields.push((key, i + 2));
            proof {
                assert(fields_model(fields@) =~= seq![(key@, i as int + 2)]);
            }
            Some((fields, j + 1))
        },
        _ => None,
    }
}

/// The element positions of the array opening at `i`.
pub fn arr_elems_x(toks: &Vec<Tok>, i: usize) -> (r: Option<(Vec<usize>, usize)>)
    ensures
        match r {
            Some(p) => arr_elems(toks_model(toks@), i as int) == Some(
                (p.0@.map_values(|e: usize| e as int), p.1 as int),
            ) && i < p.1 <= toks@.len(),
            None => arr_elems(toks_model(toks@), i as int) is None,
        },
{
    if i >= toks.len() {
        return None;
    }
    proof {
        assert(toks_model(toks@)[i as int] == tok_model(toks@[i as int]));
    }
    let is_open = match &toks[i] {
        Tok::LBrack => true,
        _ => false,
    };
    if !is_open {
        return None;
    }
    if i + 1 < toks.len() {
        proof {
            assert(toks_model(toks@)[i as int + 1] == tok_model(toks@[i as int + 1]));
        }
        let empty_arr = match &toks[i + 1] {
            Tok::RBrack => true,
            _ => false,
        };
        if empty_arr {
            let elems: Vec<usize> = Vec::new();
            proof {
                assert(elems@.map_values(|e: usize| e as int) =~= Seq::<int>::empty());
            }
            return Some((elems, i + 2));
        }
    }
    arr_items_x(toks, i + 1)
}

fn arr_items_x(toks: &Vec<Tok>, i: usize) -> (r: Option<(Vec<usize>, usize)>)
    ensures
        match r {
            Some(p) => arr_items(toks_model(toks@), i as int) == Some(
                (p.0@.map_values(|e: usize| e as int), p.1 as int),
            ) && i < p.1 <= toks@.len(),
            None => arr_items(toks_model(toks@), i as int) is None,
        },
    decreases toks@.len() - i,
{
    let j = match value_end_x(toks, i) {
        None => {
            return None;
        },
        Some(j) => j,
    };
    if !(i < j && j < toks.len()) {
        return None;
    }
    proof {
        assert(toks_model(toks@)[j as int] == tok_model(toks@[j as int]));
    }
    match &toks[j] {
        Tok::Comma => {
            match arr_items_x(toks, j + 1) {
                None => None,
                Some((mut rest, end)) => {
                    let ghost restm = rest@;
                    rest.insert(0, i);
                    proof {
                        assert(rest@.map_values(|e: usize| e as int) =~= seq![i as int]
                            + restm.map_values(|e: usize| e as int));
                    }
                    Some((rest, end))
                },
            }
        },
        Tok::RBrack => {
            let mut elems: Vec<usize> = Vec::new();
            elems.push(i);
            proof {
                assert(elems@.map_values(|e: usize| e as int) =~= seq![i as int]);
            }
            Some((elems, j + 1))
        },
        _ => None,
    }
}

/// How many members carry the given key, counting from index `i` on.
pub open spec fn key_count_from(fields: Seq<(Seq<char>, int)>, name: Seq<char>, i: int) -> int
    decreases fields.len() - i,
{
    if i < 0 || i >= fields.len() {
        0
    } else {
        (if fields[i].0 == name {
            1int
        } else {
            0int
        }) + key_count_from(fields, name, i + 1)
    }
}

/// How many members carry the given key.
pub open spec fn key_count(fields: Seq<(Seq<char>, int)>, name: Seq<char>) -> int {
    key_count_from(fields, name, 0)
}

/// The value position of the first member at or past `i` carrying the key,
/// or nothing.
pub open spec fn key_pos_from(fields: Seq<(Seq<char>, int)>, name: Seq<char>, i: int) -> Option<
    int,
>
    decreases fields.len() - i,
{
    if i < 0 || i >= fields.len() {
        None
    } else if fields[i].0 == name {
        Some(fields[i].1)
    } else {
        key_pos_from(fields, name, i + 1)
    }
}

/// The value position of the first member carrying the key, or nothing.
pub open spec fn key_pos(fields: Seq<(Seq<char>, int)>, name: Seq<char>) -> Option<int> {
    key_pos_from(fields, name, 0)
}

/// Looks the key up in a member list: how often it occurs, and the value
/// position of its first occurrence.
pub fn find_field(fields: &Vec<(String, usize)>, name: &str) -> (r: (usize, Option<usize>))
    ensures
        r.0 as int == key_count(fields_model(fields@), name@),
        match r.1 {
            Some(p) => key_pos(fields_model(fields@), name@) == Some(p as int),
            None => key_pos(fields_model(fields@), name@) is None,
        },
{
    let n = fields.len();
    let mut count: usize = 0;
    let mut pos: Option<usize> = None;
    let mut i: usize = 0;
    while i < n
        invariant
            n == fields@.len(),
            0 <= i <= n,
            count <= i,
            key_count(fields_model(fields@), name@) == count + key_count_from(
                fields_model(fields@),
                name@,
                i as int,
            ),
            match pos {
                Some(p) => key_pos(fields_model(fields@), name@) == Some(p as int),
                None => key_pos(fields_model(fields@), name@) == key_pos_from(
                    fields_model(fields@),
                    name@,
                    i as int,
                ),
            },
        decreases n - i,
    {
        proof {
            let fm = fields_model(fields@);
            let fi = fields@[i as int];
            assert(fm[i as int] == (fi.0@, fi.1 as int));
        }
        if crate::auth::str_eq(fields[i].0.as_str(), name) {
            count = count + 1;
            if pos.is_none() {
                pos = Some(fields[i].1);
            }
        }
        i = i + 1;
    }
    (count, pos)
}

/// The value position of a member that must be present exactly once.
pub open spec fn req_pos(fields: Seq<(Seq<char>, int)>, name: Seq<char>) -> Option<int> {
    if key_count(fields, name) == 1 {
        key_pos(fields, name)
    } else {
        None
    }
}

/// Looks up a member that must be present exactly once.
pub fn req_pos_x(fields: &Vec<(String, usize)>, name: &str) -> (r: Option<usize>)
    ensures
        match r {
            Some(p) => req_pos(fields_model(fields@), name@) == Some(p as int),
            None => req_pos(fields_model(fields@), name@) is None,
        },
{
    let (count, pos) = find_field(fields, name);
    if count != 1 {
        return None;
    }
    pos
}

/// The string at a token position, if it holds a string.
pub open spec fn str_at(toks: Seq<TokM>, pos: int) -> Option<Seq<char>> {
    if 0 <= pos < toks.len() {
        match toks[pos] {
            TokM::Str(s) => Some(s),
            _ => None,
        }
    } else {
        None
    }
}

/// The integer at a token position, if it holds an integer in the signed
/// 64-bit range.
pub open spec fn int_at(toks: Seq<TokM>, pos: int) -> Option<int> {
    if 0 <= pos < toks.len() {
        match toks[pos] {
            TokM::Int(v) => Some(v),
            _ => None,
        }
    } else {
        None
    }
}

/// The optional string at a token position: `null` reads as absent.
pub open spec fn opt_str_at(toks: Seq<TokM>, pos: int) -> Option<Option<Seq<char>>> {
    if 0 <= pos < toks.len() {
        match toks[pos] {
            TokM::Str(s) => Some(Some(s)),
            TokM::Null => Some(None),
            _ => None,
        }
    } else {
        None
    }
}

/// A required string member: present exactly once and a string.
pub open spec fn req_str(toks: Seq<TokM>, fields: Seq<(Seq<char>, int)>, name: Seq<char>) -> Option<
    Seq<char>,
> {
    if key_count(fields, name) == 1 {
        match key_pos(fields, name) {
            Some(p) => str_at(toks, p),
            None => None,
        }
    } else {
        None
    }
}

/// A required integer member: present exactly once and an integer.
pub open spec fn req_int(toks: Seq<TokM>, fields: Seq<(Seq<char>, int)>, name: Seq<char>) -> Option<
    int,
> {
    if key_count(fields, name) == 1 {
        match key_pos(fields, name) {
            Some(p) => int_at(toks, p),
            None => None,
        }
    } else {
        None
    }
}

/// An optional string member: absent or `null` read as nothing, a string
/// reads as itself, anything else refuses the document.
pub open spec fn opt_str(toks: Seq<TokM>, fields: Seq<(Seq<char>, int)>, name: Seq<char>) -> Option<
    Option<Seq<char>>,
> {
    let c = key_count(fields, name);
    if c == 0 {
        Some(None)
    } else if c == 1 {
        match key_pos(fields, name) {
            Some(p) => opt_str_at(toks, p),
            None => None,
        }
    } else {
        None
    }
}

/// Reads a required string member.
pub fn req_str_x(toks: &Vec<Tok>, fields: &Vec<(String, usize)>, name: &str) -> (r: Option<String>)
    ensures
        r.deep_view() == req_str(toks_model(toks@), fields_model(fields@), name@),
{
    let (count, pos) = find_field(fields, name);
    if count != 1 {
        return None;
    }
    match pos {
        None => None,
        Some(p) => {
            if p >= toks.len() {
                return None;
            }
            proof {
                assert(toks_model(toks@)[p as int] == tok_model(toks@[p as int]));
            }
            match &toks[p] {
                Tok::Str(s) => Some(s.clone()),
                _ => None,
            }
        },
    }
}

/// Reads a required integer member.
pub fn req_int_x(toks: &Vec<Tok>, fields: &Vec<(String, usize)>, name: &str) -> (r: Option<i64>)
    ensures
        match r {
            Some(v) => req_int(toks_model(toks@), fields_model(fields@), name@) == Some(v as int),
            None => req_int(toks_model(toks@), fields_model(fields@), name@) is None,
        },
{
    let (count, pos) = find_field(fields, name);
    if count != 1 {
        return None;
    }
    match pos {
        None => None,
        Some(p) => {
            if p >= toks.len() {
                return None;
            }
            proof {
                assert(toks_model(toks@)[p as int] == tok_model(toks@[p as int]));
            }
            match &toks[p] {
                Tok::Int(v) => Some(*v),
                _ => None,
            }
        },
    }
}

/// Reads an optional string member.
pub fn opt_str_x(toks: &Vec<Tok>, fields: &Vec<(String, usize)>, name: &str) -> (r: Option<
    Option<String>,
>)
    ensures
        match r {
            Some(v) => opt_str(toks_model(toks@), fields_model(fields@), name@) == Some(
                v.deep_view(),
            ),
            None => opt_str(toks_model(toks@), fields_model(fields@), name@) is None,
        },
{
    let (count, pos) = find_field(fields, name);
    if count == 0 {
        return Some(None);
    }
    if count != 1 {
        return None;
    }
    match pos {
        None => None,
        Some(p) => {
            if p >= toks.len() {
                return None;
            }
            proof {
                assert(toks_model(toks@)[p as int] == tok_model(toks@[p as int]));
            }
            match &toks[p] {
                Tok::Str(s) => Some(Some(s.clone())),
                Tok::Null => Some(None),
                _ => None,
            }
        },
    }
}

} // verus!
