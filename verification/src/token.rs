//! Token model for the chain surface syntax.
//!
//! Input to the chain builder is a flat sequence of [`Token`]s: opaque leaf
//! expression fragments interleaved with marker punctuation. Output of the
//! code generator is a sequence of [`OutTok`]s forming one nested call
//! expression in the target source.

use vstd::prelude::*;

use crate::expr::Leaf;
use crate::group::ActionGroup;

verus! {

/// One punctuation atom of the marker vocabulary.
#[derive(Clone, Copy, Debug, PartialEq, Eq, Structural)]
pub enum Punct {
    /// `-`, first atom of the sequential-compose marker `->`.
    Dash,
    /// `>`, second atom of the `->`, `|>` and `=>` markers.
    Gt,
    /// `|`, first atom of the transform marker `|>`.
    Pipe,
    /// `=`, first atom of the `=>` marker and second atom of `<=`.
    Equals,
    /// `<`, the fallback marker and the first atom of `<=` and `<<`.
    Lt,
    /// `~`, the deferred-scheduling marker.
    Tilde,
    /// `{`, opens the region of a nested sibling chain.
    OpenBrace,
    /// `}`, closes the region of a nested sibling chain.
    CloseBrace,
}

/// One input token: either an opaque leaf expression fragment, already
/// recognized as a single unit at the host-grammar boundary, or one
/// punctuation atom of the marker vocabulary.
#[derive(Debug, PartialEq, Eq)]
pub enum Token {
    /// An opaque leaf expression fragment.
    Leaf(Leaf),
    /// A marker punctuation atom.
    Punct(Punct),
}

impl Clone for Token {
    fn clone(&self) -> (r: Self)
        ensures
            r == *self,
    {
        match self {
            Token::Leaf(l) => Token::Leaf(l.clone()),
            Token::Punct(p) => Token::Punct(*p),
        }
    }
}

/// One output token of the code generator.
#[derive(Debug, PartialEq, Eq)]
pub enum OutTok {
    /// A leaf expression fragment, re-emitted verbatim.
    Leaf(Leaf),
    /// The combinator name standing for one action kind.
    Comb(ActionGroup),
    /// The combinator that joins sibling pipelines at a synchronization point.
    Join,
    /// Opening parenthesis of a combinator call.
    Open,
    /// Closing parenthesis of a combinator call.
    Close,
    /// Argument separator inside a combinator call.
    Comma,
}

impl Clone for OutTok {
    fn clone(&self) -> (r: Self)
        ensures
            r == *self,
    {
        match self {
            OutTok::Leaf(l) => OutTok::Leaf(l.clone()),
            OutTok::Comb(g) => OutTok::Comb(*g),
            OutTok::Join => OutTok::Join,
            OutTok::Open => OutTok::Open,
            OutTok::Close => OutTok::Close,
            OutTok::Comma => OutTok::Comma,
        }
    }
}

} // verus!
