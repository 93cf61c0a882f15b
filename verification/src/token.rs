//! The tokens of an attribute's argument list, as far as the configuration
//! grammar tells them apart.

use vstd::prelude::*;

verus! {

/// One token tree of an argument list.
#[derive(Debug, Clone, PartialEq, Eq)]
pub enum Token {
    /// An identifier, keyword or not, with its spelling.
    Ident(String),
    /// One punctuation character.
    Punct(char),
    /// A literal of any kind.
    Literal,
    /// A delimited group.
    Group,
}

/// What a [`Token`] stands for in contracts.
pub enum TokenView {
    Ident(Seq<char>),
    Punct(char),
    Literal,
    Group,
}

impl View for Token {
    type V = TokenView;

    open spec fn view(&self) -> TokenView {
        match *self {
            Token::Ident(name) => TokenView::Ident(name@),
            Token::Punct(c) => TokenView::Punct(c),
            Token::Literal => TokenView::Literal,
            Token::Group => TokenView::Group,
        }
    }
}

/// The views of a run of tokens, in order.
pub open spec fn token_views(tokens: Seq<Token>) -> Seq<TokenView> {
    tokens.map_values(|t: Token| t@)
}

} // verus!
