//! Ideographic Description Sequences (IDS): an operator from U+2FF0..=U+2FFF
//! followed by as many components as its arity, each a character or a
//! nested sequence, nested at most sixteen levels deep.

use vstd::prelude::*;

verus! {

/// The deepest nesting accepted for a sequence.
pub const MAX_IDS_DEPTH: usize = 16;

/// The number of components that an IDS operator takes; `None` for any
/// other character. U+2FF2 and U+2FF3 take three, U+2FFE and U+2FFF one,
/// the rest of the block two.
pub open spec fn ids_arity(c: char) -> Option<nat> {
    let u = c as int;
    if 0x2FF0 <= u && u <= 0x2FFF {
        if u == 0x2FF2 || u == 0x2FF3 {
            Some(3)
        } else if u == 0x2FFE || u == 0x2FFF {
            Some(1)
        } else {
            Some(2)
        }
    } else {
        None
    }
}

/// The position just after the IDS node starting at `pos` at nesting level
/// `depth`, or `None` when it is incomplete or nested too deeply.
pub open spec fn consume_ids(s: Seq<char>, pos: int, depth: int) -> Option<int>
    decreases 17 - depth, 0nat,
{
    if pos < 0 || pos >= s.len() || depth > 16 {
        None
    } else {
        match ids_arity(s[pos]) {
            None => Some(pos + 1),
            Some(a) => consume_children(s, pos + 1, depth + 1, a),
        }
    }
}

/// The position just after `n` consecutive IDS nodes starting at `pos`.
pub open spec fn consume_children(s: Seq<char>, pos: int, depth: int, n: nat) -> Option<int>
    decreases 17 - depth, n + 1,
{
    if n == 0 {
        Some(pos)
    } else {
        match consume_ids(s, pos, depth) {
            None => None,
            Some(p) => consume_children(s, p, depth, (n - 1) as nat),
        }
    }
}

/// The end of the complete IDS that starts at `start`, if one does: `start`
/// must hold an operator and its components must all be present.
pub open spec fn ids_end(s: Seq<char>, start: int) -> Option<int> {
    if 0 <= start < s.len() && ids_arity(s[start]) is Some {
        consume_ids(s, start, 0)
    } else {
        None
    }
}

proof fn lemma_consume_bounds(s: Seq<char>, pos: int, depth: int)
    ensures
        consume_ids(s, pos, depth) matches Some(e) ==> pos < e <= s.len(),
    decreases 17 - depth, 0nat,
{
    if !(pos < 0 || pos >= s.len() || depth > 16) {
        if let Some(a) = ids_arity(s[pos]) {
            lemma_children_bounds(s, pos + 1, depth + 1, a);
        }
    }
}

proof fn lemma_children_bounds(s: Seq<char>, pos: int, depth: int, n: nat)
    ensures
        consume_children(s, pos, depth, n) matches Some(e) ==> pos <= e && (n > 0 ==> e
            <= s.len()) && (n == 0 ==> e == pos),
    decreases 17 - depth, n + 1,
{
    if n > 0 {
        lemma_consume_bounds(s, pos, depth);
        if let Some(p) = consume_ids(s, pos, depth) {
            lemma_children_bounds(s, p, depth, (n - 1) as nat);
        }
    }
}

/// A complete IDS ends after its start and within the text.
pub proof fn lemma_ids_end_bounds(s: Seq<char>, start: int)
    ensures
        ids_end(s, start) matches Some(e) ==> start < e <= s.len(),
{
    lemma_consume_bounds(s, start, 0);
}

/// The arity of `c` as an IDS operator.
pub fn ids_arity_exec(c: char) -> (r: Option<usize>)
    ensures
        match (r, ids_arity(c)) {
            (Some(x), Some(y)) => x == y,
            (None, None) => true,
            _ => false,
        },
{
    let u = c as u32;
    if 0x2FF0 <= u && u <= 0x2FFF {
        if u == 0x2FF2 || u == 0x2FF3 {
            Some(3)
        } else if u == 0x2FFE || u == 0x2FFF {
            Some(1)
        } else {
            Some(2)
        }
    } else {
        None
    }
}

fn consume_ids_exec(s: &[char], pos: usize, depth: usize) -> (r: Option<usize>)
    requires
        depth <= 17,
    ensures
        match (r, consume_ids(s@, pos as int, depth as int)) {
            (Some(x), Some(y)) => x == y,
            (None, None) => true,
            _ => false,
        },
    decreases 17 - depth, 0nat,
{
    if pos >= s.len() || depth > MAX_IDS_DEPTH {
        return None;
    }
    match ids_arity_exec(s[pos]) {
        None => Some(pos + 1),
        Some(a) => consume_children_exec(s, pos + 1, depth + 1, a),
    }
}

fn consume_children_exec(s: &[char], pos: usize, depth: usize, n: usize) -> (r: Option<usize>)
    requires
        depth <= 17,
        pos <= s@.len(),
    ensures
        match (r, consume_children(s@, pos as int, depth as int, n as nat)) {
            (Some(x), Some(y)) => x == y,
            (None, None) => true,
            _ => false,
        },
    decreases 17 - depth, n + 1,
{
    if n == 0 {
        return Some(pos);
    }
    proof {
        lemma_consume_bounds(s@, pos as int, depth as int);
    }
    match consume_ids_exec(s, pos, depth) {
        None => None,
        Some(p) => consume_children_exec(s, p, depth, n - 1),
    }
}

/// The end of the complete IDS that starts at `start`, if one does.
pub fn ids_range_at(s: &[char], start: usize) -> (r: Option<usize>)
    ensures
        match (r, ids_end(s@, start as int)) {
            (Some(x), Some(y)) => x == y && start < x <= s@.len(),
            (None, None) => true,
            _ => false,
        },
{
    proof {
        lemma_ids_end_bounds(s@, start as int);
    }
    if start >= s.len() {
        return None;
    }
    match ids_arity_exec(s[start]) {
        None => None,
        Some(_) => consume_ids_exec(s, start, 0),
    }
}

/// Whether `s` is exactly one complete IDS.
pub fn is_complete_ids(s: &[char]) -> (r: bool)
    ensures
        r == (ids_end(s@, 0) == Some(s@.len() as int)),
{
    match ids_range_at(s, 0) {
        Some(e) => e == s.len(),
        None => false,
    }
}

} // verus!
