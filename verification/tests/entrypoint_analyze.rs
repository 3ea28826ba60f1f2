use pinocchio_kit::entrypoint_macro::arguments::{
    accept_argument, ArgumentError, ArgumentName, ArgumentsSeen,
};
use pinocchio_kit::entrypoint_macro::analyze::{
    analyze, analyze_body, find_pinocchio_crate, AnalyzeError, AstShape, BodyPlan, BodyShape,
    CaseShape, Model, ParserShape, PatternShape, PinocchioCrate, RequiredArgument,
};

fn plain() -> ParserShape {
    ParserShape { attrs: 0, type_attrs: 0 }
}

fn path(segments: &[&str]) -> PatternShape {
    PatternShape::Path(segments.iter().map(|s| s.to_string()).collect())
}

fn case(
    segments: &[&str],
    accounts: Vec<ParserShape>,
    data: Vec<ParserShape>,
    body: BodyShape,
) -> CaseShape {
    CaseShape {
        instruction_pat: path(segments),
        account_parsers: accounts,
        data_parsers: data,
        body,
    }
}

fn input(has_instruction_type: bool, has_program_id: bool, cases: Vec<CaseShape>) -> AstShape {
    AstShape {
        pinocchio_crate: PinocchioCrate::Itself,
        has_instruction_type,
        has_program_id,
        cases,
    }
}

/// The error as the macro reports it: a `compile_error!` invocation with the message.
fn assert_macro_error(what: &str, actual: Result<Model, AnalyzeError>, expected: &str) {
    match actual {
        Ok(_) => panic!("expected an error: {what}"),
        Err(err) => {
            let tokens = format!(":: core :: compile_error ! {{ {:?} }}", err.message());
            assert_eq!(tokens, expected, "{what}");
        }
    }
}

#[test]
fn analyze_single_mut_account() {
    let ast = input(
        true,
        true,
        vec![case(&["Instruction", "Setup"], vec![plain()], vec![], BodyShape::Explicit)],
    );
    let actual = analyze(&ast).unwrap();
    assert_eq!(actual.cases.len(), 1);
    assert_eq!(actual.cases[0].account_parsers.len(), 1);
}

#[test]
fn analyze_single_ref_account() {
    let ast = input(
        true,
        true,
        vec![case(&["Instruction", "Setup"], vec![plain()], vec![], BodyShape::Explicit)],
    );
    let actual = analyze(&ast).unwrap();
    assert_eq!(actual.cases.len(), 1);
    assert_eq!(actual.cases[0].account_parsers.len(), 1);
}

#[test]
fn missing_program_id() {
    let ast = input(
        true,
        false,
        vec![case(&["Instruction", "Setup"], vec![plain()], vec![], BodyShape::Explicit)],
    );
    let actual = analyze(&ast);
    assert_macro_error(
        "`instruction_type` is missing from the argument list",
        actual,
        ":: core :: compile_error ! { \"`program_id` is a required argument\" }",
    );
}

#[test]
fn missing_instruction_type() {
    let ast = input(
        false,
        true,
        vec![case(&["Instruction", "Setup"], vec![plain()], vec![], BodyShape::Explicit)],
    );
    let actual = analyze(&ast);
    assert_macro_error(
        "`instruction_type` is missing from the argument list",
        actual,
        ":: core :: compile_error ! { \"`instruction_type` is a required argument\" }",
    );
}

#[test]
fn analyze_single_account_with_attributes() {
    let ast = input(
        true,
        true,
        vec![case(
            &["Instruction", "Setup"],
            vec![ParserShape { attrs: 1, type_attrs: 0 }],
            vec![],
            BodyShape::Explicit,
        )],
    );
    let actual = analyze(&ast);
    assert_macro_error(
        "Account attributes are not supported at the moment",
        actual,
        ":: core :: compile_error ! { \"Account attributes are not supported\" }",
    );
}

#[test]
fn analyze_account_and_data_parser() {
    let ast = input(
        true,
        true,
        vec![case(&["Instruction", "NewUser"], vec![plain()], vec![plain()], BodyShape::Explicit)],
    );
    let actual = analyze(&ast).unwrap();
    assert_eq!(actual.cases.len(), 1);
    assert_eq!(actual.cases[0].account_parsers.len(), 1);
    assert_eq!(actual.cases[0].data_parsers.len(), 1);
}

#[test]
fn analyze_account_and_data_parser_with_attributes() {
    let ast = input(
        true,
        true,
        vec![case(
            &["Instruction", "NewUser"],
            vec![plain()],
            vec![ParserShape { attrs: 1, type_attrs: 0 }],
            BodyShape::Explicit,
        )],
    );
    let actual = analyze(&ast);
    assert_macro_error(
        "Data parser attributes are not supported at the moment",
        actual,
        ":: core :: compile_error ! { \"Data parser attributes are not supported\" }",
    );
}

#[test]
fn implied_call_is_snake_case_of_last_segment() {
    let ast = input(
        true,
        true,
        vec![
            case(&["Instruction", "CreateUser"], vec![plain()], vec![], BodyShape::Implied),
            case(&["ProgramInst", "MintToken"], vec![], vec![plain()], BodyShape::Implied),
        ],
    );
    let model = analyze(&ast).unwrap();
    assert_eq!(model.cases.len(), 2);
    match &model.cases[0].body {
        BodyPlan::Implied(f) => assert_eq!(f, "create_user"),
        BodyPlan::Explicit => panic!("expected an implied call"),
    }
    match &model.cases[1].body {
        BodyPlan::Implied(f) => assert_eq!(f, "mint_token"),
        BodyPlan::Explicit => panic!("expected an implied call"),
    }
}

#[test]
fn implied_call_needs_a_path() {
    let r = analyze_body(3, &PatternShape::Other, BodyShape::Implied);
    assert_eq!(r.unwrap_err(), AnalyzeError::ImpliedCallNeedsPath { case: 3 });
    let r = analyze_body(1, &PatternShape::Path(vec![]), BodyShape::Implied);
    assert_eq!(r.unwrap_err(), AnalyzeError::ImpliedCallNeedsNonEmptyPath { case: 1 });
    assert!(matches!(
        analyze_body(0, &PatternShape::Other, BodyShape::Explicit),
        Ok(BodyPlan::Explicit)
    ));
}

#[test]
fn account_limit_is_64() {
    let ok = input(
        true,
        true,
        vec![case(&["I", "A"], vec![plain(); 64], vec![], BodyShape::Explicit)],
    );
    assert_eq!(analyze(&ok).unwrap().cases[0].account_parsers.len(), 64);
    let too_many = input(
        true,
        true,
        vec![
            case(&["I", "A"], vec![plain()], vec![], BodyShape::Explicit),
            case(&["I", "B"], vec![plain(); 65], vec![], BodyShape::Explicit),
        ],
    );
    let err = analyze(&too_many).unwrap_err();
    assert_eq!(err, AnalyzeError::TooManyAccounts { case: 1 });
    assert_eq!(
        err.message(),
        "No more than 64 accounts are currently supported per instruction.\nThis is the 65th account."
    );
}

#[test]
fn first_problem_is_reported() {
    let ast = input(
        true,
        true,
        vec![case(
            &["I", "A"],
            vec![plain(), ParserShape { attrs: 0, type_attrs: 2 }, ParserShape { attrs: 1, type_attrs: 0 }],
            vec![ParserShape { attrs: 0, type_attrs: 1 }],
            BodyShape::Explicit,
        )],
    );
    let err = analyze(&ast).unwrap_err();
    assert_eq!(err, AnalyzeError::AccountTypeAttributes { case: 0, account: 1 });
    assert_eq!(err.message(), "Account type attributes are not supported");

    let ast = input(
        true,
        true,
        vec![case(
            &["I", "A"],
            vec![plain()],
            vec![plain(), ParserShape { attrs: 0, type_attrs: 1 }],
            BodyShape::Explicit,
        )],
    );
    let err = analyze(&ast).unwrap_err();
    assert_eq!(err, AnalyzeError::DataParserTypeAttributes { case: 0, argument: 1 });
    assert_eq!(err.message(), "Data parser type attributes are not supported");
}

#[test]
fn crate_name_choice() {
    let provided = find_pinocchio_crate(&PinocchioCrate::Provided("renamed_pinocchio".to_string())).unwrap();
    assert_eq!(provided.name, "renamed_pinocchio");
    assert!(!provided.raw);
    let itself = find_pinocchio_crate(&PinocchioCrate::Itself).unwrap();
    assert_eq!(itself.name, "pinocchio");
    assert!(!itself.raw);
    let renamed = find_pinocchio_crate(&PinocchioCrate::Renamed("pino".to_string())).unwrap();
    assert_eq!(renamed.name, "pino");
    assert!(renamed.raw);
    let err = find_pinocchio_crate(&PinocchioCrate::NotFound("no manifest".to_string())).unwrap_err();
    assert_eq!(err, AnalyzeError::CrateNotFound("no manifest".to_string()));
    assert!(err.message().starts_with("Failed to find a name for the `pinocchio` crate to use.\n"));
    assert!(err.message().ends_with("Error from `proc_macro_crate`:\nno manifest"));
}

#[test]
fn crate_lookup_comes_before_arguments() {
    let ast = AstShape {
        pinocchio_crate: PinocchioCrate::NotFound("x".to_string()),
        has_instruction_type: false,
        has_program_id: false,
        cases: vec![],
    };
    assert_eq!(analyze(&ast).unwrap_err(), AnalyzeError::CrateNotFound("x".to_string()));
    assert_eq!(RequiredArgument::ProgramId.name(), "program_id");
    assert_eq!(RequiredArgument::InstructionType.name(), "instruction_type");
}

#[test]
fn arguments_are_accepted_once_each() {
    let mut seen = ArgumentsSeen::new();
    assert_eq!(
        accept_argument(&"program_id".to_string(), &mut seen),
        Ok(ArgumentName::ProgramId)
    );
    assert_eq!(
        accept_argument(&"instruction_type".to_string(), &mut seen),
        Ok(ArgumentName::InstructionType)
    );
    assert!(seen.program_id && seen.instruction_type && !seen.pinocchio_crate);
    let err = accept_argument(&"program_id".to_string(), &mut seen).unwrap_err();
    assert_eq!(err, ArgumentError::Duplicate(ArgumentName::ProgramId));
    assert_eq!(err.message(), "Duplicate `program_id` argument.");
    assert_eq!(
        err.previous_definition_note().unwrap(),
        "Previous definition of `program_id`"
    );
    let before = seen;
    let err = accept_argument(&"program".to_string(), &mut seen).unwrap_err();
    assert_eq!(err, ArgumentError::Unexpected);
    assert_eq!(seen, before);
    assert_eq!(
        err.message(),
        "Unexpected argument name.\nKnown argument names: pinocchio_crate, instruction_type, program_id"
    );
    assert!(err.previous_definition_note().is_none());
    assert_eq!(
        accept_argument(&"pinocchio_crate".to_string(), &mut seen),
        Ok(ArgumentName::PinocchioCrate)
    );
    assert_eq!(ArgumentName::PinocchioCrate.name(), "pinocchio_crate");
}
