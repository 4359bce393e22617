//! The tokens that a manifest is written in.
//!
//! A manifest reaches this crate as a tree of tokens: identifiers,
//! punctuation, literals, and groups of tokens between brackets.

use vstd::prelude::*;

verus! {

/// The brackets around a group of tokens.
#[derive(Clone, Copy, Debug, PartialEq, Eq, Structural)]
pub enum Delimiter {
    /// `( ... )`
    Parenthesis,
    /// `{ ... }`
    Brace,
    /// `[ ... ]`
    Bracket,
}

/// A literal.  A number is held without its sign, which is a token of its
/// own; a floating-point number as the bits of an IEEE 754 double.
#[derive(Clone, Debug, PartialEq, Eq)]
pub enum Literal {
    Str(String),
    Int(u64),
    Float(u64),
    /// Any other literal: a character, a byte string.
    Other,
}

/// One token, or a group of tokens between brackets.
#[derive(Debug, PartialEq, Eq)]
pub enum Token {
    Ident(String),
    Punct(char),
    Literal(Literal),
    Group(Delimiter, Vec<Token>),
}

/// The identifier at place `i`, if an identifier stands there.
pub open spec fn spec_ident_at(seg: Seq<Token>, i: int) -> Option<Seq<char>> {
    if 0 <= i < seg.len() {
        match seg[i] {
            Token::Ident(s) => Some(s@),
            _ => None,
        }
    } else {
        None
    }
}

/// Whether the identifier `name` stands at place `i`.
pub open spec fn spec_is_ident(seg: Seq<Token>, i: int, name: Seq<char>) -> bool {
    spec_ident_at(seg, i) == Some(name)
}

/// Whether the punctuation `c` stands at place `i`.
pub open spec fn spec_is_punct(seg: Seq<Token>, i: int, c: char) -> bool {
    0 <= i < seg.len() && (seg[i] matches Token::Punct(p) && p == c)
}

/// The text at place `i`, if a string literal stands there.
pub open spec fn spec_str_at(seg: Seq<Token>, i: int) -> Option<Seq<char>> {
    if 0 <= i < seg.len() {
        match seg[i] {
            Token::Literal(Literal::Str(s)) => Some(s@),
            _ => None,
        }
    } else {
        None
    }
}

/// Whether a literal stands at place `i`.
pub open spec fn spec_is_literal(seg: Seq<Token>, i: int) -> bool {
    0 <= i < seg.len() && seg[i] is Literal
}

/// The integer at place `i`, if an integer literal stands there.
pub open spec fn spec_int_at(seg: Seq<Token>, i: int) -> Option<u64> {
    if 0 <= i < seg.len() {
        match seg[i] {
            Token::Literal(Literal::Int(n)) => Some(n),
            _ => None,
        }
    } else {
        None
    }
}

/// The bits of the number at place `i`, if a floating-point literal stands
/// there.
pub open spec fn spec_float_at(seg: Seq<Token>, i: int) -> Option<u64> {
    if 0 <= i < seg.len() {
        match seg[i] {
            Token::Literal(Literal::Float(b)) => Some(b),
            _ => None,
        }
    } else {
        None
    }
}

/// The tokens of the group at place `i`, if a group between the brackets
/// `d` stands there.
pub open spec fn spec_group_at(seg: Seq<Token>, i: int, d: Delimiter) -> Option<Seq<Token>> {
    if 0 <= i < seg.len() {
        match seg[i] {
            Token::Group(delimiter, inner) => if delimiter == d {
                Some(inner@)
            } else {
                None
            },
            _ => None,
        }
    } else {
        None
    }
}

/// The place `at + off`, if a token stands there.
fn place(seg: &[Token], at: usize, off: usize) -> (r: Option<usize>)
    ensures
        match r {
            Some(i) => i == at + off && i < seg@.len(),
            None => at + off >= seg@.len(),
        },
{
    if at < seg.len() && off < seg.len() - at {
        Some(at + off)
    } else {
        None
    }
}

/// Whether the tokens end at place `at + off`.
pub fn ends_at(seg: &[Token], at: usize, off: usize) -> (r: bool)
    ensures
        r == (seg@.len() == at + off),
{
    at <= seg.len() && off == seg.len() - at
}

/// The identifier at place `at + off`, if an identifier stands there.
pub fn ident_at<'a>(seg: &'a [Token], at: usize, off: usize) -> (r: Option<&'a String>)
    ensures
        match r {
            Some(s) => spec_ident_at(seg@, at + off) == Some(s@) && at + off < usize::MAX,
            None => spec_ident_at(seg@, at + off) is None,
        },
{
    match place(seg, at, off) {
        Some(i) => match &seg[i] {
            Token::Ident(s) => Some(s),
            _ => None,
        },
        None => None,
    }
}

/// Whether the identifier `name` stands at place `at + off`.
pub fn is_ident(seg: &[Token], at: usize, off: usize, name: &str) -> (r: bool)
    ensures
        r == spec_is_ident(seg@, at + off, name@),
        r ==> at + off < usize::MAX,
{
    match ident_at(seg, at, off) {
        Some(s) => crate::text::str_eq(s.as_str(), name),
        None => false,
    }
}

/// Whether the punctuation `c` stands at place `at + off`.
pub fn is_punct(seg: &[Token], at: usize, off: usize, c: char) -> (r: bool)
    ensures
        r == spec_is_punct(seg@, at + off, c),
        r ==> at + off < usize::MAX,
{
    match place(seg, at, off) {
        Some(i) => match &seg[i] {
            Token::Punct(p) => *p == c,
            _ => false,
        },
        None => false,
    }
}

/// The text at place `at + off`, if a string literal stands there.
pub fn str_at<'a>(seg: &'a [Token], at: usize, off: usize) -> (r: Option<&'a String>)
    ensures
        match r {
            Some(s) => spec_str_at(seg@, at + off) == Some(s@) && at + off < usize::MAX,
            None => spec_str_at(seg@, at + off) is None,
        },
{
    match place(seg, at, off) {
        Some(i) => match &seg[i] {
            Token::Literal(Literal::Str(s)) => Some(s),
            _ => None,
        },
        None => None,
    }
}

/// Whether a literal stands at place `at + off`.
pub fn is_literal(seg: &[Token], at: usize, off: usize) -> (r: bool)
    ensures
        r == spec_is_literal(seg@, at + off),
        r ==> at + off < usize::MAX,
{
    match place(seg, at, off) {
        Some(i) => match &seg[i] {
            Token::Literal(_) => true,
            _ => false,
        },
        None => false,
    }
}

/// The integer at place `at + off`, if an integer literal stands there.
pub fn int_at(seg: &[Token], at: usize, off: usize) -> (r: Option<u64>)
    ensures
        r == spec_int_at(seg@, at + off),
        r is Some ==> at + off < usize::MAX,
{
    match place(seg, at, off) {
        Some(i) => match &seg[i] {
            Token::Literal(Literal::Int(n)) => Some(*n),
            _ => None,
        },
        None => None,
    }
}

/// The bits of the number at place `at + off`, if a floating-point literal
/// stands there.
pub fn float_at(seg: &[Token], at: usize, off: usize) -> (r: Option<u64>)
    ensures
        r == spec_float_at(seg@, at + off),
        r is Some ==> at + off < usize::MAX,
{
    match place(seg, at, off) {
        Some(i) => match &seg[i] {
            Token::Literal(Literal::Float(b)) => Some(*b),
            _ => None,
        },
        None => None,
    }
}

/// The tokens of the group at place `at + off`, if a group between the
/// brackets `d` stands there.
pub fn group_at<'a>(seg: &'a [Token], at: usize, off: usize, d: Delimiter) -> (r: Option<
    &'a Vec<Token>,
>)
    ensures
        match r {
            Some(inner) => spec_group_at(seg@, at + off, d) == Some(inner@) && at + off
                < usize::MAX,
            None => spec_group_at(seg@, at + off, d) is None,
        },
{
    match place(seg, at, off) {
        Some(i) => match &seg[i] {
            Token::Group(delimiter, inner) => if *delimiter == d {
                Some(inner)
            } else {
                None
            },
            _ => None,
        },
        None => None,
    }
}

} // verus!
