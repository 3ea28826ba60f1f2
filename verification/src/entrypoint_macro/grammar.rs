//! The grammar of the `entrypoint!` macro input, as decisions taken one token at a time.
//!
//! ```text
//! input      := arguments ";" case*
//! arguments  := (argument ("," argument)* ","?)?
//! argument   := name ":" value
//! case       := pattern "=>" "|" accounts (";" data)? "|" body
//! accounts   := (param ("," param)* ","?)?
//! data       := (param ("," param)* ","?)?
//! param      := attribute* pattern ":" type
//! body       := ","? | expression ","?
//! ```
//!
//! Reading patterns, types, attributes and expressions is left to a Rust syntax parser; the
//! functions here decide, from the kind of the next token, what is read next.  A body expression
//! that does not end with a block needs a `,` when more cases follow, as a match arm does.

use vstd::prelude::*;

use super::classify::{is_block_like, ExprKind};

verus! {

/// The kind of the next token of the macro input.
#[derive(Debug, Clone, Copy, PartialEq, Eq, Structural)]
pub enum NextToken {
    /// `#`, the start of an attribute.
    Pound,
    Semicolon,
    /// `|`.
    Pipe,
    Comma,
    Colon,
    Ident,
    /// The input is exhausted.
    End,
    Other,
}

/// Where the reading of the named arguments stands.
#[derive(Debug, Clone, Copy, PartialEq, Eq, Structural)]
pub enum ArgumentsState {
    /// Before an argument, or before the `;` that ends the list.
    Start,
    /// After the value of an argument.
    AfterValue,
}

/// What to do next while reading the named arguments.
#[derive(Debug, Clone, Copy, PartialEq, Eq, Structural)]
pub enum ArgumentsAction {
    /// Read an argument: its name, a `:` and its value.
    ReadArgument,
    /// Skip the `,` between arguments.
    SkipComma,
    /// The list is complete; the `;` that ends it is next.
    Finish,
    /// Refuse the token: a `;` or an argument name was expected.
    ExpectedArgumentOrEnd,
    /// Refuse the token: a `,` or the `;` was expected.
    ExpectedCommaOrEnd,
}

/// The named arguments grammar: arguments are separated by `,` and the list ends before a `;`.
/// An empty list is allowed, and so is a `,` after the last argument.
pub open spec fn spec_arguments_step(state: ArgumentsState, next: NextToken) -> (
    ArgumentsState,
    ArgumentsAction,
) {
    match state {
        ArgumentsState::Start => match next {
            NextToken::Semicolon => (ArgumentsState::Start, ArgumentsAction::Finish),
            NextToken::Ident => (ArgumentsState::AfterValue, ArgumentsAction::ReadArgument),
            _ => (ArgumentsState::Start, ArgumentsAction::ExpectedArgumentOrEnd),
        },
        ArgumentsState::AfterValue => match next {
            NextToken::Semicolon => (ArgumentsState::AfterValue, ArgumentsAction::Finish),
            NextToken::Comma => (ArgumentsState::Start, ArgumentsAction::SkipComma),
            _ => (ArgumentsState::AfterValue, ArgumentsAction::ExpectedCommaOrEnd),
        },
    }
}

/// Decides the next step while reading the named arguments.
pub fn arguments_step(state: ArgumentsState, next: NextToken) -> (r: (
    ArgumentsState,
    ArgumentsAction,
))
    ensures
        r == spec_arguments_step(state, next),
{
    match state {
        ArgumentsState::Start => match next {
            NextToken::Semicolon => (ArgumentsState::Start, ArgumentsAction::Finish),
            NextToken::Ident => (ArgumentsState::AfterValue, ArgumentsAction::ReadArgument),
            _ => (ArgumentsState::Start, ArgumentsAction::ExpectedArgumentOrEnd),
        },
        ArgumentsState::AfterValue => match next {
            NextToken::Semicolon => (ArgumentsState::AfterValue, ArgumentsAction::Finish),
            NextToken::Comma => (ArgumentsState::Start, ArgumentsAction::SkipComma),
            _ => (ArgumentsState::AfterValue, ArgumentsAction::ExpectedCommaOrEnd),
        },
    }
}

/// Runs [`arguments_step`] from `state` over `tokens`, where an argument (its name, `:` and
/// value) is a single `Ident` token.  The run succeeds when it finishes at the `;` that ends the
/// list, the last token, and gives the number of arguments read.
pub open spec fn spec_run_arguments(state: ArgumentsState, tokens: Seq<NextToken>) -> Option<nat>
    decreases tokens.len(),
{
    if tokens.len() == 0 {
        None
    } else {
        let (next_state, action) = spec_arguments_step(state, tokens[0]);
        match action {
            ArgumentsAction::Finish => if tokens.len() == 1 && tokens[0] == NextToken::Semicolon {
                Some(0)
            } else {
                None
            },
            ArgumentsAction::SkipComma => if tokens[0] == NextToken::Comma {
                spec_run_arguments(next_state, tokens.drop_first())
            } else {
                None
            },
            ArgumentsAction::ReadArgument => if tokens[0] == NextToken::Ident {
                match spec_run_arguments(next_state, tokens.drop_first()) {
                    Some(n) => Some(n + 1),
                    None => None,
                }
            } else {
                None
            },
            _ => None,
        }
    }
}

proof fn lemma_run_argument_list(n: nat, trailing_comma: bool)
    ensures
        spec_run_arguments(
            ArgumentsState::Start,
            param_list(n, trailing_comma) + seq![NextToken::Semicolon],
        ) == Some(n),
    decreases n,
{
    let tokens = param_list(n, trailing_comma) + seq![NextToken::Semicolon];
    reveal_with_fuel(spec_run_arguments, 3);
    if n == 0 {
        assert(tokens =~= seq![NextToken::Semicolon]);
    } else if n == 1 {
        let after = tokens.drop_first();
        if trailing_comma {
            assert(tokens =~= seq![NextToken::Ident, NextToken::Comma, NextToken::Semicolon]);
            assert(after =~= seq![NextToken::Comma, NextToken::Semicolon]);
            assert(after.drop_first() =~= seq![NextToken::Semicolon]);
        } else {
            assert(tokens =~= seq![NextToken::Ident, NextToken::Semicolon]);
            assert(after =~= seq![NextToken::Semicolon]);
        }
    } else {
        let rest = param_list((n - 1) as nat, trailing_comma) + seq![NextToken::Semicolon];
        lemma_run_argument_list((n - 1) as nat, trailing_comma);
        assert(tokens =~= seq![NextToken::Ident, NextToken::Comma] + rest);
        assert(tokens[0] == NextToken::Ident);
        assert(tokens.drop_first()[0] == NextToken::Comma);
        assert(tokens.drop_first().drop_first() =~= rest);
    }
}

/// The named arguments are a list separated by `,`, possibly empty and possibly ending with a
/// `,`, that the `;` ends: the grammar reads every such list up to the `;`, counts its arguments,
/// and finishes at the `;` whether or not a `,` precedes it.  A list that does not end with the
/// `;`, or holds two `,` in a row, is refused.
pub proof fn lemma_arguments_grammar(n: nat, trailing_comma: bool)
    ensures
        spec_run_arguments(
            ArgumentsState::Start,
            param_list(n, trailing_comma) + seq![NextToken::Semicolon],
        ) == Some(n),
        spec_run_arguments(ArgumentsState::Start, param_list(n, trailing_comma)) is None,
        n > 0 ==> spec_run_arguments(
            ArgumentsState::Start,
            param_list(n, false) + seq![NextToken::Comma, NextToken::Comma, NextToken::Semicolon],
        ) is None,
{
    lemma_run_argument_list(n, trailing_comma);
    lemma_run_argument_list_unterminated(n, trailing_comma);
    if n > 0 {
        lemma_run_argument_list_double_comma(n);
    }
}

proof fn lemma_run_argument_list_unterminated(n: nat, trailing_comma: bool)
    ensures
        spec_run_arguments(ArgumentsState::Start, param_list(n, trailing_comma)) is None,
    decreases n,
{
    let tokens = param_list(n, trailing_comma);
    reveal_with_fuel(spec_run_arguments, 3);
    if n == 0 {
    } else if n == 1 {
        if trailing_comma {
            assert(tokens.drop_first() =~= seq![NextToken::Comma]);
            assert(tokens.drop_first().drop_first() =~= Seq::<NextToken>::empty());
        } else {
            assert(tokens.drop_first() =~= Seq::<NextToken>::empty());
        }
    } else {
        let rest = param_list((n - 1) as nat, trailing_comma);
        lemma_run_argument_list_unterminated((n - 1) as nat, trailing_comma);
        assert(tokens =~= seq![NextToken::Ident, NextToken::Comma] + rest);
        assert(tokens[0] == NextToken::Ident);
        assert(tokens.drop_first()[0] == NextToken::Comma);
        assert(tokens.drop_first().drop_first() =~= rest);
    }
}

proof fn lemma_run_argument_list_double_comma(n: nat)
    requires
        n > 0,
    ensures
        spec_run_arguments(
            ArgumentsState::Start,
            param_list(n, false) + seq![NextToken::Comma, NextToken::Comma, NextToken::Semicolon],
        ) is None,
    decreases n,
{
    let tail = seq![NextToken::Comma, NextToken::Comma, NextToken::Semicolon];
    let tokens = param_list(n, false) + tail;
    reveal_with_fuel(spec_run_arguments, 4);
    if n == 1 {
        assert(tokens =~= seq![NextToken::Ident] + tail);
        assert(tokens.drop_first() =~= tail);
        assert(tail.drop_first() =~= seq![NextToken::Comma, NextToken::Semicolon]);
    } else {
        let rest = param_list((n - 1) as nat, false) + tail;
        lemma_run_argument_list_double_comma((n - 1) as nat);
        assert(tokens =~= seq![NextToken::Ident, NextToken::Comma] + rest);
        assert(tokens[0] == NextToken::Ident);
        assert(tokens.drop_first()[0] == NextToken::Comma);
        assert(tokens.drop_first().drop_first() =~= rest);
    }
}

/// Where the reading of the parameters of an instruction case stands.
#[derive(Debug, Clone, Copy, PartialEq, Eq, Structural)]
pub enum ParamsState {
    /// Before an account parameter, or before the `;` or the `|` that ends the accounts.
    AccountStart,
    /// After an account parameter.
    AfterAccount,
    /// Before a data parameter, or before the `|` that ends the list.
    DataStart,
    /// After a data parameter.
    AfterData,
}

/// The two kinds of parameters of an instruction case.
#[derive(Debug, Clone, Copy, PartialEq, Eq, Structural)]
pub enum ParamKind {
    Account,
    Data,
}

/// What to do next while reading the parameters of an instruction case.
#[derive(Debug, Clone, Copy, PartialEq, Eq, Structural)]
pub enum ParamsAction {
    /// Read the attributes that start a parameter, then the parameter.
    ReadAttributesAndParam(ParamKind),
    /// Read a parameter: a pattern, a `:` and a type.
    ReadParam(ParamKind),
    /// Skip the `,` or `;` separator.
    SkipSeparator,
    /// The parameters are complete; the closing `|` is next.
    Finish,
    /// Refuse the token: a `,`, a `;` or a `|` was expected.
    ExpectedAccountSeparator,
    /// Refuse the token: a `,` or a `|` was expected.
    ExpectedDataSeparator,
}

/// The parameters grammar: account parameters separated by `,`, optionally followed by a `;` and
/// data parameters separated by `,`; a `,` may follow the last parameter of either list, and the
/// parameters end before the closing `|`.
pub open spec fn spec_params_step(state: ParamsState, next: NextToken) -> (ParamsState, ParamsAction) {
    match state {
        ParamsState::AccountStart => match next {
            NextToken::Pound => (
                ParamsState::AfterAccount,
                ParamsAction::ReadAttributesAndParam(ParamKind::Account),
            ),
            NextToken::Semicolon => (ParamsState::DataStart, ParamsAction::SkipSeparator),
            NextToken::Pipe => (ParamsState::AccountStart, ParamsAction::Finish),
            _ => (ParamsState::AfterAccount, ParamsAction::ReadParam(ParamKind::Account)),
        },
        ParamsState::AfterAccount => match next {
            NextToken::Comma => (ParamsState::AccountStart, ParamsAction::SkipSeparator),
            NextToken::Semicolon => (ParamsState::DataStart, ParamsAction::SkipSeparator),
            NextToken::Pipe => (ParamsState::AfterAccount, ParamsAction::Finish),
            _ => (ParamsState::AfterAccount, ParamsAction::ExpectedAccountSeparator),
        },
        ParamsState::DataStart => match next {
            NextToken::Pound => (
                ParamsState::AfterData,
                ParamsAction::ReadAttributesAndParam(ParamKind::Data),
            ),
            NextToken::Pipe => (ParamsState::DataStart, ParamsAction::Finish),
            _ => (ParamsState::AfterData, ParamsAction::ReadParam(ParamKind::Data)),
        },
        ParamsState::AfterData => match next {
            NextToken::Comma => (ParamsState::DataStart, ParamsAction::SkipSeparator),
            NextToken::Pipe => (ParamsState::AfterData, ParamsAction::Finish),
            _ => (ParamsState::AfterData, ParamsAction::ExpectedDataSeparator),
        },
    }
}

/// Decides the next step while reading the parameters of an instruction case.
pub fn params_step(state: ParamsState, next: NextToken) -> (r: (ParamsState, ParamsAction))
    ensures
        r == spec_params_step(state, next),
{
    match state {
        ParamsState::AccountStart => match next {
            NextToken::Pound => (
                ParamsState::AfterAccount,
                ParamsAction::ReadAttributesAndParam(ParamKind::Account),
            ),
            NextToken::Semicolon => (ParamsState::DataStart, ParamsAction::SkipSeparator),
            NextToken::Pipe => (ParamsState::AccountStart, ParamsAction::Finish),
            _ => (ParamsState::AfterAccount, ParamsAction::ReadParam(ParamKind::Account)),
        },
        ParamsState::AfterAccount => match next {
            NextToken::Comma => (ParamsState::AccountStart, ParamsAction::SkipSeparator),
            NextToken::Semicolon => (ParamsState::DataStart, ParamsAction::SkipSeparator),
            NextToken::Pipe => (ParamsState::AfterAccount, ParamsAction::Finish),
            _ => (ParamsState::AfterAccount, ParamsAction::ExpectedAccountSeparator),
        },
        ParamsState::DataStart => match next {
            NextToken::Pound => (
                ParamsState::AfterData,
                ParamsAction::ReadAttributesAndParam(ParamKind::Data),
            ),
            NextToken::Pipe => (ParamsState::DataStart, ParamsAction::Finish),
            _ => (ParamsState::AfterData, ParamsAction::ReadParam(ParamKind::Data)),
        },
        ParamsState::AfterData => match next {
            NextToken::Comma => (ParamsState::DataStart, ParamsAction::SkipSeparator),
            NextToken::Pipe => (ParamsState::AfterData, ParamsAction::Finish),
            _ => (ParamsState::AfterData, ParamsAction::ExpectedDataSeparator),
        },
    }
}

/// Once the data parameters are reached, every later step stays with data parameters: an
/// account parameter never follows a data parameter.
pub proof fn lemma_data_params_stay_data(state: ParamsState, next: NextToken)
    requires
        state == ParamsState::DataStart || state == ParamsState::AfterData,
    ensures
        spec_params_step(state, next).0 == ParamsState::DataStart || spec_params_step(
            state,
            next,
        ).0 == ParamsState::AfterData,
        spec_params_step(state, next).1 != ParamsAction::ReadParam(ParamKind::Account),
        spec_params_step(state, next).1 != ParamsAction::ReadAttributesAndParam(
            ParamKind::Account,
        ),
{
}

/// Counts a parameter of kind `kind` in the result of a run.
pub open spec fn add_param(kind: ParamKind, r: Option<(nat, nat)>) -> Option<(nat, nat)> {
    match r {
        None => None,
        Some((accounts, data)) => match kind {
            ParamKind::Account => Some((accounts + 1, data)),
            ParamKind::Data => Some((accounts, data + 1)),
        },
    }
}

/// Runs [`params_step`] from `state` over `tokens`, where a parameter is an `Ident` token,
/// preceded by a `Pound` token when it has attributes.  The run succeeds when it finishes at the
/// closing `|`, the last token, and gives the numbers of account and data parameters read.
pub open spec fn spec_run_params(state: ParamsState, tokens: Seq<NextToken>) -> Option<(nat, nat)>
    decreases tokens.len(),
{
    if tokens.len() == 0 {
        None
    } else {
        let (next_state, action) = spec_params_step(state, tokens[0]);
        match action {
            ParamsAction::Finish => if tokens.len() == 1 {
                Some((0, 0))
            } else {
                None
            },
            ParamsAction::SkipSeparator => spec_run_params(next_state, tokens.drop_first()),
            ParamsAction::ReadParam(kind) => if tokens[0] == NextToken::Ident {
                add_param(kind, spec_run_params(next_state, tokens.drop_first()))
            } else {
                None
            },
            ParamsAction::ReadAttributesAndParam(kind) => if tokens.len() >= 2 && tokens[1]
                == NextToken::Ident {
                add_param(kind, spec_run_params(next_state, tokens.subrange(2, tokens.len() as int)))
            } else {
                None
            },
            _ => None,
        }
    }
}

/// `n` parameters separated by `,`, with a `,` after the last one when `trailing_comma` is set.
pub open spec fn param_list(n: nat, trailing_comma: bool) -> Seq<NextToken>
    decreases n,
{
    if n == 0 {
        Seq::empty()
    } else if n == 1 {
        if trailing_comma {
            seq![NextToken::Ident, NextToken::Comma]
        } else {
            seq![NextToken::Ident]
        }
    } else {
        seq![NextToken::Ident, NextToken::Comma] + param_list((n - 1) as nat, trailing_comma)
    }
}

/// Adds `n` accounts to a run result.
pub open spec fn add_accounts(n: nat, r: Option<(nat, nat)>) -> Option<(nat, nat)> {
    match r {
        None => None,
        Some((accounts, data)) => Some((accounts + n, data)),
    }
}

/// After an account parameter, the `;` or the `|` that ends the accounts is read as it is at the
/// start of the list.
proof fn lemma_account_list_end(tail: Seq<NextToken>)
    requires
        tail.len() > 0,
        tail[0] == NextToken::Semicolon || tail[0] == NextToken::Pipe,
    ensures
        spec_run_params(ParamsState::AfterAccount, tail) == spec_run_params(
            ParamsState::AccountStart,
            tail,
        ),
{
}

/// A data parameter list, then the closing `|`, reads as that many data parameters.
proof fn lemma_run_data_list(m: nat, trailing_comma: bool)
    ensures
        spec_run_params(
            ParamsState::DataStart,
            param_list(m, trailing_comma) + seq![NextToken::Pipe],
        ) == Some((0nat, m)),
    decreases m,
{
    let tokens = param_list(m, trailing_comma) + seq![NextToken::Pipe];
    reveal_with_fuel(spec_run_params, 3);
    if m == 0 {
        assert(tokens =~= seq![NextToken::Pipe]);
    } else if m == 1 {
        let after = tokens.drop_first();
        if trailing_comma {
            assert(after =~= seq![NextToken::Comma, NextToken::Pipe]);
            assert(after.drop_first() =~= seq![NextToken::Pipe]);
        } else {
            assert(after =~= seq![NextToken::Pipe]);
        }
    } else {
        let rest = param_list((m - 1) as nat, trailing_comma) + seq![NextToken::Pipe];
        lemma_run_data_list((m - 1) as nat, trailing_comma);
        assert(tokens =~= seq![NextToken::Ident, NextToken::Comma] + rest);
        assert(tokens[0] == NextToken::Ident);
        assert(tokens.drop_first()[0] == NextToken::Comma);
        assert(tokens.drop_first().drop_first() =~= rest);
    }
}

/// An account parameter list, then a `;` or a `|` and whatever follows, reads as that many
/// accounts followed by what the rest reads as.
proof fn lemma_run_account_list(n: nat, trailing_comma: bool, tail: Seq<NextToken>)
    requires
        tail.len() > 0,
        tail[0] == NextToken::Semicolon || tail[0] == NextToken::Pipe,
    ensures
        spec_run_params(ParamsState::AccountStart, param_list(n, trailing_comma) + tail)
            == add_accounts(n, spec_run_params(ParamsState::AccountStart, tail)),
    decreases n,
{
    let tokens = param_list(n, trailing_comma) + tail;
    lemma_account_list_end(tail);
    reveal_with_fuel(spec_run_params, 3);
    if n == 0 {
        assert(tokens =~= tail);
        match spec_run_params(ParamsState::AccountStart, tail) {
            None => {},
            Some((a, d)) => {},
        }
    } else if n == 1 {
        if trailing_comma {
            assert(tokens =~= seq![NextToken::Ident, NextToken::Comma] + tail);
            assert(tokens.drop_first().drop_first() =~= tail);
        } else {
            assert(tokens =~= seq![NextToken::Ident] + tail);
            assert(tokens.drop_first() =~= tail);
        }
    } else {
        let rest = param_list((n - 1) as nat, trailing_comma) + tail;
        lemma_run_account_list((n - 1) as nat, trailing_comma, tail);
        assert(tokens =~= seq![NextToken::Ident, NextToken::Comma] + rest);
        assert(tokens[0] == NextToken::Ident);
        assert(tokens.drop_first()[0] == NextToken::Comma);
        assert(tokens.drop_first().drop_first() =~= rest);
    }
}

/// The parameters of a case are a list of accounts, optionally followed by a `;` and a list of
/// data parameters, each list possibly empty and possibly ending with a `,`: the grammar reads
/// every such list, up to the closing `|`, and counts its parameters.
pub proof fn lemma_params_grammar(n: nat, accounts_comma: bool, m: nat, data_comma: bool)
    ensures
        spec_run_params(
            ParamsState::AccountStart,
            param_list(n, accounts_comma) + seq![NextToken::Pipe],
        ) == Some((n, 0nat)),
        spec_run_params(
            ParamsState::AccountStart,
            param_list(n, accounts_comma) + seq![NextToken::Semicolon] + param_list(m, data_comma)
                + seq![NextToken::Pipe],
        ) == Some((n, m)),
{
    lemma_run_account_list(n, accounts_comma, seq![NextToken::Pipe]);
    let data_tail = seq![NextToken::Semicolon] + param_list(m, data_comma) + seq![NextToken::Pipe];
    lemma_run_account_list(n, accounts_comma, data_tail);
    lemma_run_data_list(m, data_comma);
    assert(data_tail.drop_first() =~= param_list(m, data_comma) + seq![NextToken::Pipe]);
    assert(param_list(n, accounts_comma) + seq![NextToken::Semicolon] + param_list(m, data_comma)
        + seq![NextToken::Pipe] =~= param_list(n, accounts_comma) + data_tail);
}

/// How an instruction case body starts.
#[derive(Debug, Clone, Copy, PartialEq, Eq, Structural)]
pub enum BodyStart {
    /// No body: a `,` to skip, then the next case.
    ImpliedWithComma,
    /// No body, and no more input.
    ImpliedAtEnd,
    /// A body expression to read.
    Explicit,
}

/// A case without a body is followed by a `,` or by the end of the input.
pub open spec fn spec_body_start(next: NextToken) -> BodyStart {
    match next {
        NextToken::Comma => BodyStart::ImpliedWithComma,
        NextToken::End => BodyStart::ImpliedAtEnd,
        _ => BodyStart::Explicit,
    }
}

/// Decides how an instruction case body starts.
pub fn body_start(next: NextToken) -> (r: BodyStart)
    ensures
        r == spec_body_start(next),
{
    match next {
        NextToken::Comma => BodyStart::ImpliedWithComma,
        NextToken::End => BodyStart::ImpliedAtEnd,
        _ => BodyStart::Explicit,
    }
}

/// Whether a `,` follows a body expression.
#[derive(Debug, Clone, Copy, PartialEq, Eq, Structural)]
pub enum CommaAfterBody {
    Required,
    Optional,
}

/// A body expression that does not end with a block needs a `,` unless it ends the input; any
/// other body may be followed by one.
pub open spec fn spec_comma_after_body(kind: ExprKind, at_end: bool) -> CommaAfterBody {
    if !is_block_like(kind) && !at_end {
        CommaAfterBody::Required
    } else {
        CommaAfterBody::Optional
    }
}

/// Decides whether a `,` must follow a body expression of kind `kind`.
pub fn comma_after_body(kind: ExprKind, at_end: bool) -> (r: CommaAfterBody)
    ensures
        r == spec_comma_after_body(kind, at_end),
{
    if super::classify::requires_comma_to_be_match_arm(kind) && !at_end {
        CommaAfterBody::Required
    } else {
        CommaAfterBody::Optional
    }
}

/// Separating the macro arguments with `;` makes the first case start with the name of the second
/// argument followed by a `:`; this is reported with a hint.
pub open spec fn spec_is_misplaced_argument(is_first: bool, pattern_is_ident: bool, next: NextToken) -> bool {
    is_first && pattern_is_ident && next == NextToken::Colon
}

/// Recognizes a macro argument written where the first case was expected.
pub fn is_misplaced_argument(is_first: bool, pattern_is_ident: bool, next: NextToken) -> (r: bool)
    ensures
        r == spec_is_misplaced_argument(is_first, pattern_is_ident, next),
{
    is_first && pattern_is_ident && next == NextToken::Colon
}

/// The message reported for a misplaced macro argument.
pub open spec fn spec_misplaced_argument_message() -> Seq<char> {
    "expected `=>`.  Note: the macro arguments are separated with a `,`, not `;`."@
}

pub fn misplaced_argument_message() -> (r: &'static str)
    ensures
        r@ == spec_misplaced_argument_message(),
{
    "expected `=>`.  Note: the macro arguments are separated with a `,`, not `;`."
}

/// A case body is optional, and a body that is an expression needs a `,` after it exactly as a
/// match arm does: a `,` right after the parameters, or the end of the input, means no body; an
/// expression that ends with a block (`if`, `match`, a block, `unsafe`, `while`, `loop`, `for`,
/// `try`, `const`) never needs a `,`; any other expression needs one unless it ends the input.
pub proof fn lemma_body_commas(kind: ExprKind, at_end: bool, next: NextToken)
    ensures
        spec_body_start(NextToken::Comma) == BodyStart::ImpliedWithComma,
        spec_body_start(NextToken::End) == BodyStart::ImpliedAtEnd,
        next != NextToken::Comma && next != NextToken::End ==> spec_body_start(next)
            == BodyStart::Explicit,
        spec_comma_after_body(ExprKind::If, at_end) == CommaAfterBody::Optional,
        spec_comma_after_body(ExprKind::Match, at_end) == CommaAfterBody::Optional,
        spec_comma_after_body(ExprKind::Block, at_end) == CommaAfterBody::Optional,
        spec_comma_after_body(ExprKind::Unsafe, at_end) == CommaAfterBody::Optional,
        spec_comma_after_body(ExprKind::While, at_end) == CommaAfterBody::Optional,
        spec_comma_after_body(ExprKind::Loop, at_end) == CommaAfterBody::Optional,
        spec_comma_after_body(ExprKind::ForLoop, at_end) == CommaAfterBody::Optional,
        spec_comma_after_body(ExprKind::TryBlock, at_end) == CommaAfterBody::Optional,
        spec_comma_after_body(ExprKind::Const, at_end) == CommaAfterBody::Optional,
        at_end ==> spec_comma_after_body(kind, at_end) == CommaAfterBody::Optional,
        !at_end && kind != ExprKind::If && kind != ExprKind::Match && kind != ExprKind::Block
            && kind != ExprKind::Unsafe && kind != ExprKind::While && kind != ExprKind::Loop
            && kind != ExprKind::ForLoop && kind != ExprKind::TryBlock && kind != ExprKind::Const
            ==> spec_comma_after_body(kind, at_end) == CommaAfterBody::Required,
{
}

} // verus!
