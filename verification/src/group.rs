//! Group determiner: the lookahead classifier over the marker vocabulary.
//!
//! At each position of the remaining token stream the classifier decides, by
//! bounded lookahead over marker punctuation and without backtracking, which
//! action kind or command the chain builder should commit to next. Each rule
//! is a short marker prefix plus the group it denotes; ties are resolved by
//! priority order, so a marker that is a textual prefix of a longer one is
//! checked only after the longer one.

use vstd::prelude::*;

use crate::token::{Punct, Token};

verus! {

/// The transform- and fallback-style action kinds the classifier can commit
/// to. The first three are process actions, the last two default actions.
#[derive(Clone, Copy, Debug, PartialEq, Eq, Structural)]
pub enum ActionGroup {
    /// `|>`: map the success value.
    MapOk,
    /// `->`: run unconditionally.
    Then,
    /// `=>`: sequentially compose on success.
    AndThen,
    /// `<`: substitute on failure.
    Or,
    /// `<=`: substitute on failure using a computed alternative.
    OrElse,
}

impl ActionGroup {
    /// Whether this kind is a transform-style (process) action; the remaining
    /// kinds are fallback-style (default) actions.
    pub open spec fn is_process(&self) -> bool {
        match self {
            ActionGroup::MapOk => true,
            ActionGroup::Then => true,
            ActionGroup::AndThen => true,
            ActionGroup::Or => false,
            ActionGroup::OrElse => false,
        }
    }
}

/// The commands the classifier can commit to instead of an action.
#[derive(Clone, Copy, Debug, PartialEq, Eq, Structural)]
pub enum CommandGroup {
    /// `<<`: start a nested sibling chain to be joined with the current one.
    Join,
}

/// What the classifier commits to at one position: a specific action kind or
/// a command boundary.
#[derive(Clone, Copy, Debug, PartialEq, Eq, Structural)]
pub enum Group {
    /// A process or default action of the given kind.
    Action(ActionGroup),
    /// A nested-chain command of the given kind.
    Command(CommandGroup),
}

/// Whether position `i` of the stream holds the marker punctuation `p`.
pub open spec fn spec_punct_at(s: Seq<Token>, i: int, p: Punct) -> bool {
    0 <= i < s.len() && s[i] == Token::Punct(p)
}

/// The classification at position `pos`: the group the grammar commits to and
/// the length of its marker, or nothing when no rule matches. Rules are tried
/// in priority order, every two-atom marker before the one-atom marker that
/// is its textual prefix.
pub open spec fn spec_classify(s: Seq<Token>, pos: int) -> Option<(Group, int)> {
    if spec_punct_at(s, pos, Punct::Lt) && spec_punct_at(s, pos + 1, Punct::Lt) {
        Some((Group::Command(CommandGroup::Join), 2int))
    } else if spec_punct_at(s, pos, Punct::Lt) && spec_punct_at(s, pos + 1, Punct::Equals) {
        Some((Group::Action(ActionGroup::OrElse), 2int))
    } else if spec_punct_at(s, pos, Punct::Lt) {
        Some((Group::Action(ActionGroup::Or), 1int))
    } else if spec_punct_at(s, pos, Punct::Dash) && spec_punct_at(s, pos + 1, Punct::Gt) {
        Some((Group::Action(ActionGroup::Then), 2int))
    } else if spec_punct_at(s, pos, Punct::Pipe) && spec_punct_at(s, pos + 1, Punct::Gt) {
        Some((Group::Action(ActionGroup::MapOk), 2int))
    } else if spec_punct_at(s, pos, Punct::Equals) && spec_punct_at(s, pos + 1, Punct::Gt) {
        Some((Group::Action(ActionGroup::AndThen), 2int))
    } else {
        None
    }
}

/// One classifier rule: a marker of one or two punctuation atoms and the
/// group it denotes when the upcoming tokens start with that marker.
#[derive(Clone, Copy, Debug, PartialEq, Eq, Structural)]
pub struct GroupDeterminer {
    /// First atom of the marker.
    pub first: Punct,
    /// Second atom of the marker, absent for a one-atom marker.
    pub second: Option<Punct>,
    /// The group this rule denotes.
    pub group: Group,
}

impl GroupDeterminer {
    /// Length of this rule's marker.
    pub open spec fn spec_marker_len(&self) -> int {
        if self.second is Some {
            2
        } else {
            1
        }
    }

    /// Whether the tokens at `pos` start with this rule's marker.
    pub open spec fn spec_matches_at(&self, s: Seq<Token>, pos: int) -> bool {
        &&& spec_punct_at(s, pos, self.first)
        &&& (self.second matches Some(p) ==> spec_punct_at(s, pos + 1, p))
    }

    /// Bounded lookahead: tests whether the upcoming tokens start with this
    /// rule's marker.
    pub fn matches_at(&self, tokens: &Vec<Token>, pos: usize) -> (r: bool)
        ensures
            r == self.spec_matches_at(tokens@, pos as int),
    {
        if pos >= tokens.len() {
            return false;
        }
        let first_hit = match &tokens[pos] {
            Token::Punct(p) => *p == self.first,
            Token::Leaf(_) => false,
        };
        if !first_hit {
            return false;
        }
        match self.second {
            Option::None => true,
            Option::Some(q) => {
                if pos + 1 >= tokens.len() {
                    false
                } else {
                    match &tokens[pos + 1] {
                        Token::Punct(p) => *p == q,
                        Token::Leaf(_) => false,
                    }
                }
            },
        }
    }
}

/// Decides which group, if any, the grammar commits to at position `pos`,
/// returning the group and the number of marker tokens to consume. The rules
/// run in priority order: each two-atom marker is tried before the one-atom
/// marker that is its textual prefix.
pub fn determine_group(tokens: &Vec<Token>, pos: usize) -> (r: Option<(Group, usize)>)
    ensures
        r is Some <==> spec_classify(tokens@, pos as int) is Some,
        r matches Some(g) ==> spec_classify(tokens@, pos as int) == Some((g.0, g.1 as int)),
{
    let join_rule = GroupDeterminer {
        first: Punct::Lt,
        second: Some(Punct::Lt),
        group: Group::Command(CommandGroup::Join),
    };
    let or_else_rule = GroupDeterminer {
        first: Punct::Lt,
        second: Some(Punct::Equals),
        group: Group::Action(ActionGroup::OrElse),
    };
    let or_rule = GroupDeterminer {
        first: Punct::Lt,
        second: None,
        group: Group::Action(ActionGroup::Or),
    };
    let then_rule = GroupDeterminer {
        first: Punct::Dash,
        second: Some(Punct::Gt),
        group: Group::Action(ActionGroup::Then),
    };
    let map_rule = GroupDeterminer {
        first: Punct::Pipe,
        second: Some(Punct::Gt),
        group: Group::Action(ActionGroup::MapOk),
    };
    let and_then_rule = GroupDeterminer {
        first: Punct::Equals,
        second: Some(Punct::Gt),
        group: Group::Action(ActionGroup::AndThen),
    };
    if join_rule.matches_at(tokens, pos) {
        Some((join_rule.group, 2))
    } else if or_else_rule.matches_at(tokens, pos) {
        Some((or_else_rule.group, 2))
    } else if or_rule.matches_at(tokens, pos) {
        Some((or_rule.group, 1))
    } else if then_rule.matches_at(tokens, pos) {
        Some((then_rule.group, 2))
    } else if map_rule.matches_at(tokens, pos) {
        Some((map_rule.group, 2))
    } else if and_then_rule.matches_at(tokens, pos) {
        Some((and_then_rule.group, 2))
    } else {
        None
    }
}

/// Classifier priority: where one marker is a textual prefix of another,
/// input matching the longer marker classifies as the longer marker's group
/// and never as the shorter. The fallback marker is a prefix of both the
/// computed-fallback marker and the join-command marker.
pub proof fn lemma_classifier_priority(s: Seq<Token>, pos: int)
    ensures
        spec_punct_at(s, pos, Punct::Lt) && spec_punct_at(s, pos + 1, Punct::Equals)
            ==> spec_classify(s, pos) == Some((Group::Action(ActionGroup::OrElse), 2int)),
        spec_punct_at(s, pos, Punct::Lt) && spec_punct_at(s, pos + 1, Punct::Lt)
            ==> spec_classify(s, pos) == Some((Group::Command(CommandGroup::Join), 2int)),
{
}

} // verus!
