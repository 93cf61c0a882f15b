//! The calls into `proc_macro2`, `quote` and `syn`. Nothing in this file is
//! proved. Of the lexer and of the identifier test nothing is claimed; of
//! the parts of a parsed function, that they are the texts which the names
//! below stand for. None of the calls parses Rust syntax beyond a single
//! identifier: a function comes in parsed.

use crate::function::{FnInput, FnInputView, ParamType};
use crate::text::{option_view, string_views};
use crate::token::Token;
use proc_macro2::{TokenStream, TokenTree};
use quote::ToTokens;
use std::str::FromStr;
use syn::{FnArg, ReturnType, Type};
use vstd::prelude::*;

verus! {

/// Lexes `src` with `proc_macro2::TokenStream::from_str` and hands out the
/// top-level token trees one for one; `None` where the lexer refuses the
/// text. Nothing is claimed of the result: inside a procedural macro the
/// compiler's lexer reads the text, elsewhere `proc_macro2`'s own, and the
/// two need not agree.
#[verifier::external_body]
pub(crate) fn lex(src: &str) -> (tokens: Option<Vec<Token>>) {
    let stream = TokenStream::from_str(src).ok()?;
    Some(stream.into_iter().map(|tree| match tree {
        TokenTree::Ident(ident) => Token::Ident(ident.to_string()),
        TokenTree::Punct(punct) => Token::Punct(punct.as_char()),
        TokenTree::Literal(_) => Token::Literal,
        TokenTree::Group(_) => Token::Group,
    }).collect())
}

/// Asks `syn::parse_str::<syn::Ident>` whether `name` is an identifier that
/// may name an item: `syn` refuses keywords and `_`. Nothing is claimed of
/// the answer: `syn` lexes the text first, with the lexer of the process
/// that it runs in.
#[verifier::external_body]
pub(crate) fn accepts_identifier(name: &str) -> (accepted: bool) {
    syn::parse_str::<syn::Ident>(name).is_ok()
}

/// A function definition as `syn` holds it, once parsed. Nothing of its
/// inside is known here but what the functions below say. Parsing itself is
/// not done in this library: a caller hands the parsed item in.
#[verifier::external_type_specification]
#[verifier::external_body]
pub struct ExItemFn(syn::ItemFn);

/// The attributes of a parsed function, one text each, in the order of
/// `ItemFn::attrs`: those above the function and, behind them, the inner
/// attributes of its body, which `syn` counts among them.
pub uninterp spec fn item_attrs(item: syn::ItemFn) -> Seq<Seq<char>>;

/// The visibility of a parsed function as text; empty where none is written.
pub uninterp spec fn item_vis(item: syn::ItemFn) -> Seq<char>;

/// The name of a parsed function.
pub uninterp spec fn item_name(item: syn::ItemFn) -> Seq<char>;

/// The parameters of a parsed function, in order.
pub uninterp spec fn item_inputs(item: syn::ItemFn) -> Seq<FnInputView>;

/// The return type of a parsed function as text, where one is written.
pub uninterp spec fn item_output(item: syn::ItemFn) -> Option<Seq<char>>;

/// The body of a parsed function as text, braces included. Inner
/// attributes of the body are not part of it: see [`item_attrs`].
pub uninterp spec fn item_block(item: syn::ItemFn) -> Seq<char>;

/// The tokens of each attribute in `ItemFn::attrs`, as text. Believed: they
/// are the texts that [`item_attrs`] names.
#[verifier::external_body]
pub(crate) fn attrs_of(item: &syn::ItemFn) -> (attrs: Vec<String>)
    ensures
        string_views(attrs@) == item_attrs(*item),
{
    item.attrs.iter().map(|attr| attr.to_token_stream().to_string()).collect()
}

/// The tokens of `ItemFn::vis`, as text. Believed: they are the text that
/// [`item_vis`] names.
#[verifier::external_body]
pub(crate) fn vis_of(item: &syn::ItemFn) -> (vis: String)
    ensures
        vis@ == item_vis(*item),
{
    item.vis.to_token_stream().to_string()
}

/// The identifier in `Signature::ident`, as text. Believed: it is the text
/// that [`item_name`] names.
#[verifier::external_body]
pub(crate) fn name_of(item: &syn::ItemFn) -> (name: String)
    ensures
        name@ == item_name(*item),
{
    item.sig.ident.to_string()
}

/// The type in `Signature::output`, as text; `None` for
/// `ReturnType::Default`. Believed: it is what [`item_output`] names.
#[verifier::external_body]
pub(crate) fn output_of(item: &syn::ItemFn) -> (output: Option<String>)
    ensures
        option_view(output) == item_output(*item),
{
    match &item.sig.output {
        ReturnType::Default => None,
        ReturnType::Type(_, ty) => Some(ty.to_token_stream().to_string()),
    }
}

/// The tokens of `ItemFn::block`, as text. Believed: they are the text that
/// [`item_block`] names.
#[verifier::external_body]
pub(crate) fn block_of(item: &syn::ItemFn) -> (block: String)
    ensures
        block@ == item_block(*item),
{
    item.block.to_token_stream().to_string()
}

/// The length of `Signature::inputs`. Believed: it is the number of
/// parameters that [`item_inputs`] names.
#[verifier::external_body]
pub(crate) fn input_count(item: &syn::ItemFn) -> (count: usize)
    ensures
        count == item_inputs(*item).len(),
{
    item.sig.inputs.len()
}

/// The parameter at `index` of `Signature::inputs`, variant for variant: a
/// `FnArg::Receiver` as its tokens; a `FnArg::Typed` as its attributes, its
/// pattern and its type, of which a `Type::Reference` is taken apart.
/// Believed: it is the parameter that [`item_inputs`] names there.
#[verifier::external_body]
pub(crate) fn input_at(item: &syn::ItemFn, index: usize) -> (input: FnInput)
    requires
        index < item_inputs(*item).len(),
    ensures
        input@ == item_inputs(*item)[index as int],
{
    match &item.sig.inputs[index] {
        FnArg::Receiver(own) => FnInput::Receiver { tokens: own.to_token_stream().to_string() },
        FnArg::Typed(typed) => FnInput::Typed {
            attrs: typed.attrs.iter().map(|attr| attr.to_token_stream().to_string()).collect(),
            pat: typed.pat.to_token_stream().to_string(),
            ty: match &*typed.ty {
                Type::Reference(reference) => ParamType::Reference {
                    lifetime: reference.lifetime.as_ref().map(|named| named.to_string()),
                    mutable: reference.mutability.is_some(),
                    elem: reference.elem.to_token_stream().to_string(),
                },
                other => ParamType::Other { tokens: other.to_token_stream().to_string() },
            },
        },
    }
}

} // verus!
