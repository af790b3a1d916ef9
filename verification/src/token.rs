//! Tokens: slices of a specification text together with their character span.
use vstd::prelude::*;
use vstd::string::*;
use crate::text::{decimal, push_decimal, push_str};

verus! {

/// What a token stands for: its text and its character span, the end exclusive.
pub struct TokenV {
    pub data: Seq<char>,
    pub column_start: int,
    pub column_end: int,
}

/// A token's text and span are consistent: the span is as long as the text.
pub open spec fn token_wf(t: TokenV) -> bool {
    0 <= t.column_start <= t.column_end && t.data.len() == t.column_end - t.column_start
}

/// A token made from `data` starting at column `start`.
pub open spec fn token_at(data: Seq<char>, start: int) -> TokenV {
    TokenV { data, column_start: start, column_end: start + data.len() }
}

/// A slice of the text being parsed, with its character span.
#[derive(Debug, PartialEq, Clone)]
pub struct TokenData<'a> {
    pub data: &'a str,
    pub column_start: usize,
    pub column_end: usize,
}

impl<'a> View for TokenData<'a> {
    type V = TokenV;

    open spec fn view(&self) -> TokenV {
        TokenV {
            data: self.data@,
            column_start: self.column_start as int,
            column_end: self.column_end as int,
        }
    }
}

impl<'a> TokenData<'a> {
    /// Makes a token; the span must be ordered and as long as `data`.
    pub fn new(data: &'a str, column_start: usize, column_end: usize) -> (t: TokenData<'a>)
        requires
            column_start <= column_end,
            data@.len() == column_end - column_start,
        ensures
            t.data == data,
            t.column_start == column_start,
            t.column_end == column_end,
            token_wf(t@),
    {
        TokenData { data, column_start, column_end }
    }

    /// A copy of this token.
    pub fn duplicate(&self) -> (t: TokenData<'a>)
        ensures
            t@ == self@,
            t.data == self.data,
    {
        TokenData { data: self.data, column_start: self.column_start, column_end: self.column_end }
    }
}

/// An owned copy of a token's text and span.
#[derive(Debug, PartialEq, Clone)]
pub struct TokenClone {
    pub data: String,
    pub column_start: usize,
    pub column_end: usize,
}

impl View for TokenClone {
    type V = TokenV;

    open spec fn view(&self) -> TokenV {
        TokenV {
            data: self.data@,
            column_start: self.column_start as int,
            column_end: self.column_end as int,
        }
    }
}

/// How a token is written: `Cols {start}-{end}: {text}`.
pub open spec fn token_text(t: TokenV) -> Seq<char> {
    "Cols "@ + decimal(t.column_start as nat) + "-"@ + decimal(t.column_end as nat) + ": "@
        + t.data
}

impl TokenClone {
    /// The token of `data` that starts at `column_start`.
    pub fn new(data: &str, column_start: usize) -> (t: TokenClone)
        requires
            column_start + data@.len() <= usize::MAX,
        ensures
            t@ == token_at(data@, column_start as int),
    {
        let column_end = column_start + data.unicode_len();
        let td = TokenData::new(data, column_start, column_end);
        Self::from_token_data(&td)
    }

    pub fn from_token_data(token: &TokenData) -> (t: TokenClone)
        ensures
            t@ == token@,
    {
        TokenClone {
            data: token.data.to_owned(),
            column_start: token.column_start,
            column_end: token.column_end,
        }
    }

    /// A copy of this token.
    pub fn duplicate(&self) -> (t: TokenClone)
        ensures
            t@ == self@,
    {
        TokenClone {
            data: self.data.as_str().to_owned(),
            column_start: self.column_start,
            column_end: self.column_end,
        }
    }

    /// The token as text, `Cols {start}-{end}: {text}`.
    pub fn to_display_string(&self) -> (s: String)
        ensures
            s@ == token_text(self@),
    {
        let mut s = String::new();
        push_str(&mut s, "Cols ");
        push_decimal(&mut s, self.column_start as u64);
        push_str(&mut s, "-");
        push_decimal(&mut s, self.column_end as u64);
        push_str(&mut s, ": ");
        push_str(&mut s, self.data.as_str());
        s
    }
}

/// A token that names a member.
#[derive(Debug, PartialEq, Clone)]
pub struct IdentifierToken<'a> {
    pub data: TokenData<'a>,
}

/// A token that names a data type.
#[derive(Debug, PartialEq, Clone)]
pub struct DtypeToken<'a> {
    pub data: TokenData<'a>,
}

/// A token that gives an array's size (empty for a dynamic array).
#[derive(Debug, PartialEq, Clone)]
pub struct SizingToken<'a> {
    pub data: TokenData<'a>,
}

} // verus!
