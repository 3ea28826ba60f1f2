use pinocchio_kit::entrypoint_macro::classify::{requires_comma_to_be_match_arm, ExprKind};
use pinocchio_kit::entrypoint_macro::codegen::max_num_accounts;

#[test]
fn block_like_bodies_need_no_comma() {
    for kind in [
        ExprKind::If,
        ExprKind::Match,
        ExprKind::Block,
        ExprKind::Unsafe,
        ExprKind::While,
        ExprKind::Loop,
        ExprKind::ForLoop,
        ExprKind::TryBlock,
        ExprKind::Const,
    ] {
        assert!(!requires_comma_to_be_match_arm(kind), "{kind:?}");
    }
    for kind in [
        ExprKind::Call,
        ExprKind::MethodCall,
        ExprKind::Closure,
        ExprKind::Path,
        ExprKind::Macro,
        ExprKind::Return,
        ExprKind::Other,
    ] {
        assert!(requires_comma_to_be_match_arm(kind), "{kind:?}");
    }
}

#[test]
fn account_lists_fit_the_largest_case() {
    assert_eq!(max_num_accounts(&[]), 0);
    assert_eq!(max_num_accounts(&[2, 5, 1]), 5);
    assert_eq!(max_num_accounts(&[0, 0]), 0);
    assert_eq!(max_num_accounts(&[64]), 64);
}

use pinocchio_kit::entrypoint_macro::classify::ExprKind as Kind;
use pinocchio_kit::entrypoint_macro::grammar::{
    arguments_step, body_start, comma_after_body, is_misplaced_argument,
    misplaced_argument_message, params_step, ArgumentsAction, ArgumentsState, BodyStart,
    CommaAfterBody, NextToken, ParamKind, ParamsAction, ParamsState,
};

/// Runs the parameter grammar over a token list in which a parameter is one `Ident` token, and
/// an attribute is a `Pound` token followed by the parameter.  Returns the account and data
/// parameter counts, or the refusing action.
fn run_params(tokens: &[NextToken]) -> Result<(usize, usize), ParamsAction> {
    let mut state = ParamsState::AccountStart;
    let mut counts = (0, 0);
    let mut i = 0;
    loop {
        let next = tokens.get(i).copied().unwrap_or(NextToken::End);
        let (new_state, action) = params_step(state, next);
        state = new_state;
        match action {
            ParamsAction::ReadAttributesAndParam(kind) | ParamsAction::ReadParam(kind) => {
                if action == ParamsAction::ReadAttributesAndParam(kind) {
                    i += 1;
                }
                assert_eq!(tokens[i], NextToken::Ident, "a parameter");
                i += 1;
                match kind {
                    ParamKind::Account => counts.0 += 1,
                    ParamKind::Data => counts.1 += 1,
                }
            }
            ParamsAction::SkipSeparator => i += 1,
            ParamsAction::Finish => {
                assert_eq!(tokens[i], NextToken::Pipe);
                return Ok(counts);
            }
            refused => return Err(refused),
        }
    }
}

#[test]
fn parameter_lists() {
    // |metadata: X|
    assert_eq!(run_params(&[NextToken::Ident, NextToken::Pipe]), Ok((1, 0)));
    // |metadata: X; name: &str|
    assert_eq!(run_params(&[NextToken::Ident, NextToken::Semicolon, NextToken::Ident, NextToken::Pipe]), Ok((1, 1)));
    // |metadata: X, user: Y, ; new_name: &str, log_entry: &str, |
    assert_eq!(
        run_params(&[NextToken::Ident, NextToken::Comma, NextToken::Ident, NextToken::Comma, NextToken::Semicolon, NextToken::Ident, NextToken::Comma, NextToken::Ident, NextToken::Comma, NextToken::Pipe]),
        Ok((2, 2))
    );
    // |#[signer] metadata: X|
    assert_eq!(run_params(&[NextToken::Pound, NextToken::Ident, NextToken::Pipe]), Ok((1, 0)));
    // |metadata: X; #[max_len(50)] name: &str,|
    assert_eq!(run_params(&[NextToken::Ident, NextToken::Semicolon, NextToken::Pound, NextToken::Ident, NextToken::Comma, NextToken::Pipe]), Ok((1, 1)));
    // ||, |;|
    assert_eq!(run_params(&[NextToken::Pipe]), Ok((0, 0)));
    assert_eq!(run_params(&[NextToken::Semicolon, NextToken::Pipe]), Ok((0, 0)));
    // A second `;` is refused, as is a missing separator.
    assert_eq!(
        run_params(&[NextToken::Ident, NextToken::Semicolon, NextToken::Ident, NextToken::Semicolon, NextToken::Pipe]),
        Err(ParamsAction::ExpectedDataSeparator)
    );
    assert_eq!(run_params(&[NextToken::Ident, NextToken::Ident, NextToken::Pipe]), Err(ParamsAction::ExpectedAccountSeparator));
}

#[test]
fn argument_lists() {
    let (s, a) = arguments_step(ArgumentsState::Start, NextToken::Semicolon);
    assert_eq!((s, a), (ArgumentsState::Start, ArgumentsAction::Finish));
    let (s, a) = arguments_step(ArgumentsState::Start, NextToken::Ident);
    assert_eq!(a, ArgumentsAction::ReadArgument);
    let (s, a) = arguments_step(s, NextToken::Comma);
    assert_eq!(a, ArgumentsAction::SkipComma);
    assert_eq!(arguments_step(s, NextToken::Semicolon).1, ArgumentsAction::Finish);
    assert_eq!(
        arguments_step(ArgumentsState::AfterValue, NextToken::Colon).1,
        ArgumentsAction::ExpectedCommaOrEnd
    );
    assert_eq!(
        arguments_step(ArgumentsState::Start, NextToken::Comma).1,
        ArgumentsAction::ExpectedArgumentOrEnd
    );
}

#[test]
fn bodies() {
    assert_eq!(body_start(NextToken::Comma), BodyStart::ImpliedWithComma);
    assert_eq!(body_start(NextToken::End), BodyStart::ImpliedAtEnd);
    assert_eq!(body_start(NextToken::Other), BodyStart::Explicit);
    assert_eq!(comma_after_body(Kind::Call, false), CommaAfterBody::Required);
    assert_eq!(comma_after_body(Kind::Call, true), CommaAfterBody::Optional);
    assert_eq!(comma_after_body(Kind::Block, false), CommaAfterBody::Optional);
    assert!(is_misplaced_argument(true, true, NextToken::Colon));
    assert!(!is_misplaced_argument(false, true, NextToken::Colon));
    assert!(!is_misplaced_argument(true, false, NextToken::Colon));
    assert_eq!(
        misplaced_argument_message(),
        "expected `=>`.  Note: the macro arguments are separated with a `,`, not `;`."
    );
}
