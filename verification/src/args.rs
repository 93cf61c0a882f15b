//! The configuration written in a command attribute: an optional `true` or
//! `false`, then the names of the permission checks.

use crate::syntax::{accepts_identifier, lex};
use crate::text::{spelled, string_views};
use crate::token::{token_views, Token, TokenView};
use vstd::prelude::*;
use vstd::string::StringExecFns;

verus! {

/// What the parser wanted where it stopped.
#[derive(Debug, Clone, Copy, PartialEq, Eq)]
pub enum Expected {
    /// The name of a permission check.
    Identifier,
    /// A comma between two names.
    Separator,
    /// Nothing more.
    End,
}

/// Why an argument list is no configuration.
#[derive(Debug, Clone, Copy, PartialEq, Eq)]
pub enum ConfigError {
    /// The text is not a run of tokens.
    Unreadable,
    /// The token at `position`, counted from 0, is not what the grammar
    /// wants there.
    Syntax { position: usize, expected: Expected },
}

impl ConfigError {
    /// What stands in the way, in words.
    pub fn message(&self) -> (text: String)
        ensures
            text@ == match *self {
                ConfigError::Unreadable => "configuration is not a run of tokens"@,
                ConfigError::Syntax { position, expected } => match expected {
                    Expected::Identifier => "expected identifier"@,
                    Expected::Separator => "expected `,`"@,
                    Expected::End => "unexpected token"@,
                },
            },
    {
        match self {
            ConfigError::Unreadable => String::from_str("configuration is not a run of tokens"),
            ConfigError::Syntax { position: _, expected } => match expected {
                Expected::Identifier => String::from_str("expected identifier"),
                Expected::Separator => String::from_str("expected `,`"),
                Expected::End => String::from_str("unexpected token"),
            },
        }
    }
}

/// The configuration of one command.
#[derive(Debug, Clone, PartialEq, Eq)]
pub struct SubCommandArgs {
    /// Whether the command may be used outside a guild.
    pub works_in_dms: bool,
    /// The permission checks, in the order in which they are to be asked.
    pub perms_checks: Vec<String>,
}

/// What a [`SubCommandArgs`] stands for in contracts.
pub struct SubCommandArgsView {
    pub works_in_dms: bool,
    pub perms_checks: Seq<Seq<char>>,
}

impl View for SubCommandArgs {
    type V = SubCommandArgsView;

    open spec fn view(&self) -> SubCommandArgsView {
        SubCommandArgsView {
            works_in_dms: self.works_in_dms,
            perms_checks: string_views(self.perms_checks@),
        }
    }
}

/// The view of a parse result.
pub open spec fn outcome_view(outcome: Result<SubCommandArgs, ConfigError>) -> Result<
    SubCommandArgsView,
    ConfigError,
> {
    match outcome {
        Ok(args) => Ok(args@),
        Err(error) => Err(error),
    }
}

/// Whether a token is the separator of the list.
pub open spec fn is_comma(token: TokenView) -> bool {
    token == TokenView::Punct(',')
}

/// The flag that an argument list opens with, if it opens with one: only
/// the words `true` and `false` are read as the flag.
pub open spec fn leading_flag(tokens: Seq<TokenView>) -> Option<bool> {
    if tokens.len() > 0 && tokens[0] == TokenView::Ident("true"@) {
        Some(true)
    } else if tokens.len() > 0 && tokens[0] == TokenView::Ident("false"@) {
        Some(false)
    } else {
        None
    }
}

/// Where the list of names starts: behind the flag, if there is one, and
/// behind one comma, if one follows.
pub open spec fn list_start(tokens: Seq<TokenView>) -> int {
    let after_flag: int = if leading_flag(tokens) is Some {
        1
    } else {
        0
    };
    if after_flag < tokens.len() && is_comma(tokens[after_flag]) {
        after_flag + 1
    } else {
        after_flag
    }
}

/// An error at a place behind `names`, or `names` put in front of the rest.
pub open spec fn after_names(
    names: Seq<Seq<char>>,
    rest: Result<Seq<Seq<char>>, ConfigError>,
) -> Result<Seq<Seq<char>>, ConfigError> {
    match rest {
        Ok(more) => Ok(names + more),
        Err(error) => Err(error),
    }
}

/// The names from `at` to the end of `tokens`: identifiers that were
/// accepted as names, a comma between each two, and at most one comma
/// behind the last. `accepted` holds, for the token at each place, whether
/// it was accepted as a name; only the places of identifiers are read. The
/// error is at the first token that does not fit.
pub open spec fn name_list(tokens: Seq<TokenView>, accepted: Seq<bool>, at: int) -> Result<
    Seq<Seq<char>>,
    ConfigError,
>
    decreases tokens.len() - at,
{
    if at < 0 || at >= tokens.len() {
        Ok(Seq::empty())
    } else {
        match tokens[at] {
            TokenView::Ident(name) => if !accepted[at] {
                Err(ConfigError::Syntax { position: at as usize, expected: Expected::Identifier })
            } else if at + 1 >= tokens.len() {
                Ok(seq![name])
            } else if !is_comma(tokens[at + 1]) {
                Err(
                    ConfigError::Syntax {
                        position: (at + 1) as usize,
                        expected: Expected::Separator,
                    },
                )
            } else {
                after_names(seq![name], name_list(tokens, accepted, at + 2))
            },
            _ => Err(
                ConfigError::Syntax { position: at as usize, expected: Expected::Identifier },
            ),
        }
    }
}

/// The configuration that a run of tokens spells, or the first place where
/// it departs from the grammar
/// `[flag] [","] [name ("," name)* [","]]`,
/// given for each token whether it was accepted as a name.
pub open spec fn parsed_args(tokens: Seq<TokenView>, accepted: Seq<bool>) -> Result<
    SubCommandArgsView,
    ConfigError,
> {
    let start = list_start(tokens);
    let works_in_dms = leading_flag(tokens) == Some(true);
    if start >= tokens.len() {
        Ok(SubCommandArgsView { works_in_dms, perms_checks: Seq::empty() })
    } else if tokens[start] is Ident {
        match name_list(tokens, accepted, start) {
            Ok(names) => Ok(SubCommandArgsView { works_in_dms, perms_checks: names }),
            Err(error) => Err(error),
        }
    } else {
        Err(ConfigError::Syntax { position: start as usize, expected: Expected::End })
    }
}

/// Whether `result` is what `tokens` spell for some answers to the
/// question which identifiers are names.
pub open spec fn read_with_some_answers(
    tokens: Seq<TokenView>,
    result: Result<SubCommandArgsView, ConfigError>,
) -> bool {
    exists|accepted: Seq<bool>|
        accepted.len() == tokens.len() && #[trigger] parsed_args(tokens, accepted) == result
}

/// Whether `names` are the identifiers of `tokens` at `start` and at every
/// second place behind it, in that order.
pub open spec fn names_stand_at(tokens: Seq<TokenView>, start: int, names: Seq<Seq<char>>)
    -> bool {
    forall|k: int|
        0 <= k < names.len() ==> start + 2 * k < tokens.len() && tokens[start + 2 * k]
            == TokenView::Ident(#[trigger] names[k])
}

/// Whether every identifier of `tokens` from `start` on was accepted as a
/// name.
pub open spec fn names_accepted(tokens: Seq<TokenView>, accepted: Seq<bool>, start: int) -> bool {
    forall|i: int| start <= i < tokens.len() && tokens[i] is Ident ==> #[trigger] accepted[i]
}

impl SubCommandArgs {
    /// Reads a configuration from the tokens of an argument list, given
    /// for each token whether it is accepted as the name of a check. The
    /// answer is read for identifiers alone.
    ///
    /// A leading `true` or `false` sets the flag; any other leading
    /// identifier leaves it `false` and is read as the first name. The
    /// whole list must be a configuration: a token that is left over is an
    /// error at its place.
    pub fn parse_with(tokens: &Vec<Token>, accepted: &Vec<bool>) -> (outcome: Result<
        SubCommandArgs,
        ConfigError,
    >)
        requires
            accepted@.len() == tokens@.len(),
        ensures
            outcome_view(outcome) == parsed_args(token_views(tokens@), accepted@),
            !(outcome matches Err(ConfigError::Unreadable)),
    {
        let ghost views = token_views(tokens@);
        let n = tokens.len();
        let mut works_in_dms = false;
        let mut i: usize = 0;
        if n > 0 {
            if let Token::Ident(word) = &tokens[0] {
                if spelled(word, "true") {
                    works_in_dms = true;
                    i = 1;
                } else if spelled(word, "false") {
                    i = 1;
                }
            }
        }
        if i < n {
            if let Token::Punct(c) = &tokens[i] {
                if *c == ',' {
                    i += 1;
                }
            }
        }
        let mut perms_checks: Vec<String> = Vec::new();
        if i >= n {
            return Ok(SubCommandArgs { works_in_dms, perms_checks });
        }
        match &tokens[i] {
            Token::Ident(_) => {},
            _ => {
                return Err(ConfigError::Syntax { position: i, expected: Expected::End });
            },
        }
        let ghost start = i as int;
        while i < n
            invariant
                n == tokens.len(),
                n == accepted.len(),
                views == token_views(tokens@),
                i <= n,
                start == list_start(views),
                start < n,
                views[start] is Ident,
                works_in_dms == (leading_flag(views) == Some(true)),
                name_list(views, accepted@, start) == after_names(
                    string_views(perms_checks@),
                    name_list(views, accepted@, i as int),
                ),
            decreases n - i,
        {
            let ghost before = string_views(perms_checks@);
            match &tokens[i] {
                Token::Ident(name) => {
                    if !accepted[i] {
                        return Err(
                            ConfigError::Syntax { position: i, expected: Expected::Identifier },
                        );
                    }
                    perms_checks.push(name.clone());
                    proof {
                        assert(string_views(perms_checks@) =~= before + seq![name@]);
                    }
                    if i + 1 >= n {
                        return Ok(SubCommandArgs { works_in_dms, perms_checks });
                    }
                    let comma = match &tokens[i + 1] {
                        Token::Punct(c) => *c == ',',
                        _ => false,
                    };
                    if !comma {
                        return Err(
                            ConfigError::Syntax { position: i + 1, expected: Expected::Separator },
                        );
                    }
                    proof {
                        let rest = name_list(views, accepted@, i + 2);
                        match rest {
                            Ok(more) => {
                                assert(before + (seq![name@] + more) =~= (before + seq![name@])
                                    + more);
                            },
                            Err(_) => {},
                        }
                    }
                    i += 2;
                },
                _ => {
                    return Err(
                        ConfigError::Syntax { position: i, expected: Expected::Identifier },
                    );
                },
            }
        }
        proof {
            assert(string_views(perms_checks@) + Seq::<Seq<char>>::empty() =~= string_views(
                perms_checks@,
            ));
        }
        Ok(SubCommandArgs { works_in_dms, perms_checks })
    }

    /// Reads a configuration from the tokens of an argument list. Which
    /// identifiers may name a check is asked of `syn`, once for every
    /// identifier among the tokens; with the answers the tokens are read
    /// as [`SubCommandArgs::parse_with`] reads them.
    ///
    /// Whatever `syn` answers: the flag is decided by the first token
    /// alone; the names are identifiers of the list, in the order of the
    /// tokens; a list that ends behind flag and comma is a configuration
    /// without checks; and a token other than an identifier where the names
    /// should start is an error at its place.
    pub fn parse(tokens: &Vec<Token>) -> (outcome: Result<SubCommandArgs, ConfigError>)
        ensures
            read_with_some_answers(token_views(tokens@), outcome_view(outcome)),
            !(outcome matches Err(ConfigError::Unreadable)),
            outcome matches Ok(args) ==> {
                &&& args.works_in_dms == (leading_flag(token_views(tokens@)) == Some(true))
                &&& names_stand_at(
                    token_views(tokens@),
                    list_start(token_views(tokens@)),
                    args@.perms_checks,
                )
            },
            list_start(token_views(tokens@)) >= tokens@.len() ==> outcome_view(outcome) == Ok::<
                _,
                ConfigError,
            >(
                SubCommandArgsView {
                    works_in_dms: leading_flag(token_views(tokens@)) == Some(true),
                    perms_checks: Seq::empty(),
                },
            ),
            list_start(token_views(tokens@)) < tokens@.len() && !(token_views(
                tokens@,
            )[list_start(token_views(tokens@))] is Ident) ==> outcome == Err::<SubCommandArgs, _>(
                ConfigError::Syntax {
                    position: list_start(token_views(tokens@)) as usize,
                    expected: Expected::End,
                },
            ),
    {
        let mut accepted: Vec<bool> = Vec::new();
        let mut i: usize = 0;
        while i < tokens.len()
            invariant
                i <= tokens.len(),
                accepted@.len() == i,
            decreases tokens.len() - i,
        {
            let answer = match &tokens[i] {
                Token::Ident(name) => accepts_identifier(name.as_str()),
                _ => false,
            };
            accepted.push(answer);
            i += 1;
        }
        let outcome = SubCommandArgs::parse_with(tokens, &accepted);
        proof {
            let views = token_views(tokens@);
            assert(parsed_args(views, accepted@) == outcome_view(outcome));
            if outcome is Ok {
                law_names_come_in_token_order(views, accepted@);
            }
        }
        outcome
    }

    /// Reads a configuration from the text of an argument list: the text
    /// is lexed by `proc_macro2`, and the tokens are read as
    /// [`SubCommandArgs::parse`] reads them.
    ///
    /// Whatever the lexer makes of the text, the result is `Unreadable` or
    /// what some run of tokens spells for some answers of `syn`.
    pub fn parse_str(src: &str) -> (outcome: Result<SubCommandArgs, ConfigError>)
        ensures
            outcome matches Err(ConfigError::Unreadable) || exists|tokens: Seq<TokenView>|
                #[trigger] read_with_some_answers(tokens, outcome_view(outcome)),
    {
        match lex(src) {
            Some(tokens) => {
                let outcome = SubCommandArgs::parse(&tokens);
                assert(read_with_some_answers(token_views(tokens@), outcome_view(outcome)));
                outcome
            },
            None => Err(ConfigError::Unreadable),
        }
    }
}

/// The tokens that spell a list of names: a comma between each two, and
/// one behind the last if `trailing`.
pub open spec fn list_tokens(names: Seq<Seq<char>>, trailing: bool) -> Seq<TokenView>
    decreases names.len(),
{
    if names.len() == 0 {
        Seq::empty()
    } else if names.len() == 1 {
        if trailing {
            seq![TokenView::Ident(names[0]), TokenView::Punct(',')]
        } else {
            seq![TokenView::Ident(names[0])]
        }
    } else {
        seq![TokenView::Ident(names[0]), TokenView::Punct(',')] + list_tokens(
            names.skip(1),
            trailing,
        )
    }
}

/// The tokens that spell a flag, where one is written.
pub open spec fn flag_tokens(flag: Option<bool>) -> Seq<TokenView> {
    match flag {
        Some(true) => seq![TokenView::Ident("true"@)],
        Some(false) => seq![TokenView::Ident("false"@)],
        None => Seq::empty(),
    }
}

/// The tokens that spell a configuration: the flag, if `flag` holds one;
/// a comma, if `separator`; then the names.
pub open spec fn config_tokens(
    flag: Option<bool>,
    separator: bool,
    names: Seq<Seq<char>>,
    trailing: bool,
) -> Seq<TokenView> {
    flag_tokens(flag) + (if separator {
        seq![TokenView::Punct(',')]
    } else {
        Seq::empty()
    }) + list_tokens(names, trailing)
}

proof fn lemma_list_tokens_shape(names: Seq<Seq<char>>, trailing: bool)
    ensures
        names.len() == 0 ==> list_tokens(names, trailing).len() == 0,
        names.len() > 0 && trailing ==> list_tokens(names, trailing).len() == 2 * names.len(),
        names.len() > 0 && !trailing ==> list_tokens(names, trailing).len() == 2 * names.len()
            - 1,
        names.len() > 0 ==> list_tokens(names, trailing)[0] == TokenView::Ident(names[0]),
        names.len() > 1 || (names.len() == 1 && trailing) ==> list_tokens(names, trailing)[1]
            == TokenView::Punct(','),
        names_stand_at(list_tokens(names, trailing), 0, names),
    decreases names.len(),
{
    if names.len() >= 2 {
        let tail = names.skip(1);
        lemma_list_tokens_shape(tail, trailing);
        let list = list_tokens(names, trailing);
        assert forall|k: int| 0 <= k < names.len() implies 2 * k < list.len() && list[2 * k]
            == TokenView::Ident(#[trigger] names[k]) by {
            if k > 0 {
                assert(tail[k - 1] == names[k]);
                assert(list[2 * k] == list_tokens(tail, trailing)[0 + 2 * (k - 1)]);
            }
        }
    }
}

proof fn lemma_written_names_are_read(
    tokens: Seq<TokenView>,
    accepted: Seq<bool>,
    at: int,
    names: Seq<Seq<char>>,
    trailing: bool,
)
    requires
        0 <= at <= tokens.len(),
        tokens.skip(at) == list_tokens(names, trailing),
        names_accepted(tokens, accepted, at),
    ensures
        name_list(tokens, accepted, at) == Ok::<_, ConfigError>(names),
    decreases names.len(),
{
    let rest = tokens.skip(at);
    lemma_list_tokens_shape(names, trailing);
    if names.len() == 0 {
        assert(rest.len() == 0);
        assert(names =~= Seq::empty());
    } else {
        assert(tokens[at] == rest[0]);
        assert(accepted[at]);
        if names.len() == 1 {
            if trailing {
                assert(tokens[at + 1] == rest[1]);
                assert(seq![names[0]] + Seq::<Seq<char>>::empty() =~= names);
            } else {
                assert(seq![names[0]] =~= names);
            }
        } else {
            assert(tokens[at + 1] == rest[1]);
            let tail = list_tokens(names.skip(1), trailing);
            lemma_list_tokens_shape(names.skip(1), trailing);
            assert(tokens.skip(at + 2) =~= tail) by {
                assert forall|i: int| 0 <= i < tail.len() implies tokens.skip(at + 2)[i]
                    == tail[i] by {
                    assert(rest[i + 2] == tail[i]);
                }
            }
            lemma_written_names_are_read(tokens, accepted, at + 2, names.skip(1), trailing);
            assert(seq![names[0]] + names.skip(1) =~= names);
        }
    }
}

proof fn lemma_read_names_were_written(tokens: Seq<TokenView>, accepted: Seq<bool>, at: int) -> (trailing:
    bool)
    requires
        0 <= at <= tokens.len(),
        name_list(tokens, accepted, at) is Ok,
    ensures
        tokens.skip(at) == list_tokens(name_list(tokens, accepted, at)->Ok_0, trailing),
        names_accepted(tokens, accepted, at),
    decreases tokens.len() - at,
{
    let names = name_list(tokens, accepted, at)->Ok_0;
    let rest = tokens.skip(at);
    if at >= tokens.len() {
        assert(rest =~= list_tokens(names, false));
        false
    } else {
        let name = tokens[at]->Ident_0;
        if at + 1 >= tokens.len() {
            assert(rest =~= list_tokens(names, false));
            false
        } else {
            let more = name_list(tokens, accepted, at + 2)->Ok_0;
            let behind = lemma_read_names_were_written(tokens, accepted, at + 2);
            assert(names == seq![name] + more);
            assert(names.skip(1) =~= more);
            assert(rest =~= seq![tokens[at], tokens[at + 1]] + tokens.skip(at + 2));
            if more.len() == 0 {
                assert(rest =~= list_tokens(names, true));
                true
            } else {
                assert(rest =~= list_tokens(names, behind));
                behind
            }
        }
    }
}

/// A configuration that is written by the grammar is read back as it was
/// written: where every identifier of the list is accepted as a name, the
/// flag comes out as given, `false` where none is written, and the names
/// come out in their order. Left out is a list without flag and comma whose
/// first name is `true` or `false`: that word is read as the flag.
pub proof fn law_written_configuration_is_read(
    flag: Option<bool>,
    separator: bool,
    names: Seq<Seq<char>>,
    trailing: bool,
    accepted: Seq<bool>,
)
    requires
        flag is None && !separator && names.len() > 0 ==> names[0] != "true"@ && names[0]
            != "false"@,
        names_accepted(
            config_tokens(flag, separator, names, trailing),
            accepted,
            list_start(config_tokens(flag, separator, names, trailing)),
        ),
    ensures
        parsed_args(config_tokens(flag, separator, names, trailing), accepted) == Ok::<
            _,
            ConfigError,
        >(SubCommandArgsView { works_in_dms: flag == Some(true), perms_checks: names }),
{
    let tokens = config_tokens(flag, separator, names, trailing);
    let list = list_tokens(names, trailing);
    let head = flag_tokens(flag).len() + (if separator {
        1int
    } else {
        0int
    });
    reveal_strlit("true");
    reveal_strlit("false");
    assert("true"@ != "false"@) by {
        assert("true"@.len() != "false"@.len());
    }
    lemma_list_tokens_shape(names, trailing);
    assert(leading_flag(tokens) == flag);
    assert(list_start(tokens) == head);
    assert(tokens.skip(head) =~= list);
    if names.len() == 0 {
        assert(names =~= Seq::empty());
    } else {
        assert(tokens[head] == list[0]);
        lemma_written_names_are_read(tokens, accepted, head, names, trailing);
    }
}

/// Every run of tokens that is read as a configuration was written by the
/// grammar: it is a flag or none, a comma or none, and a list of names with
/// or without a comma behind it, and every identifier of the list was
/// accepted as a name. The result says which.
pub proof fn law_read_configuration_was_written(tokens: Seq<TokenView>, accepted: Seq<bool>) -> (shape:
    (Option<bool>, bool, bool))
    requires
        parsed_args(tokens, accepted) is Ok,
    ensures
        tokens == config_tokens(
            shape.0,
            shape.1,
            parsed_args(tokens, accepted)->Ok_0.perms_checks,
            shape.2,
        ),
        parsed_args(tokens, accepted)->Ok_0.works_in_dms == (shape.0 == Some(true)),
        names_accepted(tokens, accepted, list_start(tokens)),
{
    let flag = leading_flag(tokens);
    let start = list_start(tokens);
    let after_flag: int = if flag is Some {
        1
    } else {
        0
    };
    let separator = start > after_flag;
    let names = parsed_args(tokens, accepted)->Ok_0.perms_checks;
    let trailing = if start >= tokens.len() {
        false
    } else {
        lemma_read_names_were_written(tokens, accepted, start)
    };
    assert(tokens =~= config_tokens(flag, separator, names, trailing)) by {
        assert(tokens =~= tokens.take(start) + tokens.skip(start));
        assert(tokens.take(start) =~= flag_tokens(flag) + (if separator {
            seq![TokenView::Punct(',')]
        } else {
            Seq::empty()
        }));
    }
    (flag, separator, trailing)
}

/// The names of a configuration come out in the order of the tokens: they
/// are the identifiers at the start of the list and at every second place
/// behind it, none left out and none added.
pub proof fn law_names_come_in_token_order(tokens: Seq<TokenView>, accepted: Seq<bool>)
    requires
        parsed_args(tokens, accepted) is Ok,
    ensures
        names_stand_at(tokens, list_start(tokens), parsed_args(tokens, accepted)->Ok_0.perms_checks),
{
    let start = list_start(tokens);
    let names = parsed_args(tokens, accepted)->Ok_0.perms_checks;
    if start < tokens.len() {
        let trailing = lemma_read_names_were_written(tokens, accepted, start);
        lemma_list_tokens_shape(names, trailing);
        let list = list_tokens(names, trailing);
        assert forall|k: int| 0 <= k < names.len() implies start + 2 * k < tokens.len()
            && tokens[start + 2 * k] == TokenView::Ident(#[trigger] names[k]) by {
            assert(list[0 + 2 * k] == TokenView::Ident(names[k]));
            assert(tokens.skip(start)[2 * k] == tokens[start + 2 * k]);
        }
    }
}

} // verus!
