use vstd::prelude::*;
use crate::method::ReturnKind;

verus! {

/// The first `;` of `s` at or after `i`.
pub open spec fn semicolon_from(s: Seq<u8>, i: int) -> Option<int>
    decreases s.len() - i,
{
    if i < 0 || i >= s.len() {
        None
    } else if s[i] == 59u8 {
        Some(i)
    } else {
        semicolon_from(s, i + 1)
    }
}

/// The field type that starts at `i`: the cells it takes (two for `J` and
/// `D`, one otherwise) and where it ends.
pub open spec fn field_at(s: Seq<u8>, i: int) -> Option<(int, int)>
    decreases s.len() - i,
{
    if i < 0 || i >= s.len() {
        None
    } else {
        let c = s[i];
        if c == 66u8 || c == 67u8 || c == 70u8 || c == 73u8 || c == 83u8 || c == 90u8 {
            Some((1, i + 1))
        } else if c == 68u8 || c == 74u8 {
            Some((2, i + 1))
        } else if c == 76u8 {
            match semicolon_from(s, i + 1) {
                Some(e) => if e > i + 1 {
                    Some((1, e + 1))
                } else {
                    None
                },
                None => None,
            }
        } else if c == 91u8 {
            match field_at(s, i + 1) {
                Some(p) => Some((1, p.1)),
                None => None,
            }
        } else {
            None
        }
    }
}

/// The parameters from `i` up to and past the closing `)`: the cells they
/// take and where the return type starts.
pub open spec fn params_at(s: Seq<u8>, i: int) -> Option<(int, int)>
    decreases s.len() - i,
{
    if i < 0 || i >= s.len() {
        None
    } else if s[i] == 41u8 {
        Some((0, i + 1))
    } else {
        match field_at(s, i) {
            Some(f) => if i < f.1 <= s.len() {
                match params_at(s, f.1) {
                    Some(rest) => Some((f.0 + rest.0, rest.1)),
                    None => None,
                }
            } else {
                None
            },
            None => None,
        }
    }
}

/// The return type from `i` to the end of `s`.
pub open spec fn return_at(s: Seq<u8>, i: int) -> Option<ReturnKind> {
    if i == s.len() - 1 && s[i] == 86u8 {
        Some(ReturnKind::Void)
    } else {
        match field_at(s, i) {
            Some(f) => if f.1 == s.len() {
                Some(if f.0 == 2 { ReturnKind::Double } else { ReturnKind::Single })
            } else {
                None
            },
            None => None,
        }
    }
}

/// A method descriptor `(params)ret`: the cells its parameters take and its
/// return kind.
pub open spec fn descriptor_spec(s: Seq<u8>) -> Option<(int, ReturnKind)> {
    if s.len() > 0 && s[0] == 40u8 {
        match params_at(s, 1) {
            Some(p) => match return_at(s, p.1) {
                Some(k) => Some((p.0, k)),
                None => None,
            },
            None => None,
        }
    } else {
        None
    }
}

/// What a method descriptor says of the call.
#[derive(Clone, Copy, Debug, PartialEq, Eq, Structural)]
pub struct MethodSignature {
    /// Cells the parameters take on the operand stack, the receiver apart.
    pub arg_slots: usize,
    pub ret: ReturnKind,
}

fn semicolon(s: &Vec<u8>, i: usize) -> (r: Option<usize>)
    ensures
        match semicolon_from(s@, i as int) {
            Some(e) => r == Some(e as usize),
            None => r is None,
        },
{
    let mut j: usize = i;
    while j < s.len()
        invariant
            i <= j,
            semicolon_from(s@, i as int) == semicolon_from(s@, j as int),
        decreases s.len() - j,
    {
        if s[j] == 59u8 {
            return Some(j);
        }
        j = j + 1;
    }
    None
}

fn field(s: &Vec<u8>, i: usize) -> (r: Option<(usize, usize)>)
    ensures
        match field_at(s@, i as int) {
            Some(f) => r is Some && r->Some_0.0 as int == f.0 && r->Some_0.1 as int == f.1 && i
                < f.1 <= s@.len() && 1 <= f.0 <= 2,
            None => r is None,
        },
    decreases s@.len() - i,
{
    if i >= s.len() {
        return None;
    }
    let c = s[i];
    if c == 66u8 || c == 67u8 || c == 70u8 || c == 73u8 || c == 83u8 || c == 90u8 {
        Some((1, i + 1))
    } else if c == 68u8 || c == 74u8 {
        Some((2, i + 1))
    } else if c == 76u8 {
        proof {
            lemma_semicolon_bound(s@, i + 1);
        }
        match semicolon(s, i + 1) {
            Some(e) => if e > i + 1 {
                Some((1, e + 1))
            } else {
                None
            },
            None => None,
        }
    } else if c == 91u8 {
        match field(s, i + 1) {
            Some(p) => Some((1, p.1)),
            None => None,
        }
    } else {
        None
    }
}

proof fn lemma_semicolon_bound(s: Seq<u8>, i: int)
    ensures
        semicolon_from(s, i) matches Some(e) ==> i <= e < s.len(),
    decreases s.len() - i,
{
    if 0 <= i < s.len() && s[i] != 59u8 {
        lemma_semicolon_bound(s, i + 1);
    }
}

fn params(s: &Vec<u8>, i: usize) -> (r: Option<(usize, usize)>)
    requires
        s@.len() <= usize::MAX / 2,
    ensures
        match params_at(s@, i as int) {
            Some(p) => r is Some && r->Some_0.0 as int == p.0 && r->Some_0.1 as int == p.1 && i
                < p.1 <= s@.len() && 0 <= p.0 <= 2 * (p.1 - i),
            None => r is None,
        },
    decreases s@.len() - i,
{
    if i >= s.len() {
        return None;
    }
    if s[i] == 41u8 {
        return Some((0, i + 1));
    }
    match field(s, i) {
        Some(f) => {
            match params(s, f.1) {
                Some(rest) => {
                    assert(f.0 <= 2);
                    Some((f.0 + rest.0, rest.1))
                },
                None => None,
            }
        },
        None => None,
    }
}

/// Parses a method descriptor; `None` when it is malformed.
pub fn parse_descriptor(s: &Vec<u8>) -> (r: Option<MethodSignature>)
    requires
        s@.len() <= usize::MAX / 2,
    ensures
        match descriptor_spec(s@) {
            Some(d) => r is Some && r->Some_0.arg_slots as int == d.0 && r->Some_0.ret == d.1,
            None => r is None,
        },
{
    if s.len() == 0 || s[0] != 40u8 {
        return None;
    }
    match params(s, 1) {
        Some(p) => {
            let k = p.1;
            let ret = if k + 1 == s.len() && s[k] == 86u8 {
                Some(ReturnKind::Void)
            } else {
                match field(s, k) {
                    Some(f) => if f.1 == s.len() {
                        Some(if f.0 == 2 { ReturnKind::Double } else { ReturnKind::Single })
                    } else {
                        None
                    },
                    None => None,
                }
            };
            match ret {
                Some(kind) => Some(MethodSignature { arg_slots: p.0, ret: kind }),
                None => None,
            }
        },
        None => None,
    }
}

} // verus!
