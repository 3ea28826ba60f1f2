//! Checks of the `entrypoint!` macro input, and the decisions taken from it.

use vstd::prelude::*;

verus! {

/// Converts `s` to snake case (`heck::ToSnakeCase::to_snake_case`).
pub uninterp spec fn spec_snake_case(s: Seq<char>) -> Seq<char>;

/// Converts `s` to snake case, with `heck::ToSnakeCase::to_snake_case`.
///
/// Trusted: the result is the snake case conversion of `s` and depends on `s` alone; the
/// conversion rules (word boundaries at case changes and at non-alphanumeric characters, Unicode
/// lowercasing) are left unstated.
#[verifier::external_body]
fn to_snake_case(s: &str) -> (r: String)
    ensures
        r@ == spec_snake_case(s@),
{
    heck::ToSnakeCase::to_snake_case(s)
}

/// An argument of the macro that must be given.
#[derive(Debug, Clone, Copy, PartialEq, Eq, Structural)]
pub enum RequiredArgument {
    InstructionType,
    ProgramId,
}

/// Where the name of the crate that provides the account and parsing types comes from.
#[derive(Debug)]
pub enum PinocchioCrate {
    /// Given in the macro input, with the `pinocchio_crate` argument.
    Provided(String),
    /// The macro is used inside the crate itself.
    Itself,
    /// The crate is a dependency, under this name.
    Renamed(String),
    /// The crate could not be found; the reason.
    NotFound(String),
}

/// The name to use for the crate that provides the account and parsing types.
#[derive(Debug)]
pub struct CrateName {
    pub name: String,
    /// The name needs to be written as a raw identifier.
    pub raw: bool,
}

/// What the checks need to know of an account or instruction data argument.
#[derive(Debug, Clone, Copy, PartialEq, Eq, Structural)]
pub struct ParserShape {
    /// Number of attributes written before the argument.
    pub attrs: usize,
    /// Number of attributes on the argument pattern.
    pub type_attrs: usize,
}

/// What the checks need to know of an instruction pattern.
#[derive(Debug)]
pub enum PatternShape {
    /// A path, such as `Instruction::MintToken`, with its segments.
    Path(Vec<String>),
    /// Any other pattern.
    Other,
}

/// Whether an instruction case has a body.
#[derive(Debug, Clone, Copy, PartialEq, Eq, Structural)]
pub enum BodyShape {
    Explicit,
    Implied,
}

/// What the checks need to know of an instruction case.
#[derive(Debug)]
pub struct CaseShape {
    pub instruction_pat: PatternShape,
    pub account_parsers: Vec<ParserShape>,
    pub data_parsers: Vec<ParserShape>,
    pub body: BodyShape,
}

/// What the checks need to know of the macro input.
#[derive(Debug)]
pub struct AstShape {
    pub pinocchio_crate: PinocchioCrate,
    pub has_instruction_type: bool,
    pub has_program_id: bool,
    pub cases: Vec<CaseShape>,
}

/// Problems found in the macro input.  Case, account and argument indices locate the problem.
#[derive(Debug, PartialEq, Eq)]
pub enum AnalyzeError {
    CrateNotFound(String),
    MissingArgument(RequiredArgument),
    TooManyAccounts { case: usize },
    AccountAttributes { case: usize, account: usize },
    AccountTypeAttributes { case: usize, account: usize },
    DataParserAttributes { case: usize, argument: usize },
    DataParserTypeAttributes { case: usize, argument: usize },
    ImpliedCallNeedsPath { case: usize },
    ImpliedCallNeedsNonEmptyPath { case: usize },
}

/// What an instruction case runs.
#[derive(Debug)]
pub enum BodyPlan {
    /// The body written in the macro input.
    Explicit,
    /// A call of the function with this name.
    Implied(String),
}

/// An instruction case that passed its checks.
#[derive(Debug)]
pub struct InstructionCase {
    /// The account arguments, in order.
    pub account_parsers: Vec<ParserShape>,
    /// The instruction data arguments, in order.
    pub data_parsers: Vec<ParserShape>,
    /// What the case runs.
    pub body: BodyPlan,
}

/// The decisions taken from the macro input.
#[derive(Debug)]
pub struct Model {
    pub pinocchio_crate: CrateName,
    /// The instruction cases, in order.
    pub cases: Vec<InstructionCase>,
}

/// Maximum number of accounts of an instruction: the allowed references mask has 64 bits.
pub const MAX_ACCOUNTS_PER_INSTRUCTION: usize = 64;

impl RequiredArgument {
    /// The argument name, as written in the macro input.
    pub open spec fn spec_name(self) -> &'static str {
        match self {
            RequiredArgument::InstructionType => "instruction_type",
            RequiredArgument::ProgramId => "program_id",
        }
    }

    pub fn name(&self) -> (r: &'static str)
        ensures
            r == self.spec_name(),
    {
        match self {
            RequiredArgument::InstructionType => "instruction_type",
            RequiredArgument::ProgramId => "program_id",
        }
    }
}

impl AnalyzeError {
    /// The message reported for the problem.
    pub open spec fn spec_message(self) -> Seq<char> {
        match self {
            AnalyzeError::CrateNotFound(reason) => "Failed to find a name for the `pinocchio` crate to use.\nYou can either specify it in the `entrypoint! {}` macro invocation as a `pinocchio_crate` argument value, like this:\n\nentrypoint! {\n    pinocchio_crate: pinocchio,\n    ...\n}\n\nOr you need to add `pinocchio` to your Cargo.toml and make sure that `proc_macro_crate` can find it.  Error from `proc_macro_crate`:\n"@ + reason@,
            AnalyzeError::MissingArgument(RequiredArgument::InstructionType) => "`instruction_type` is a required argument"@,
            AnalyzeError::MissingArgument(RequiredArgument::ProgramId) => "`program_id` is a required argument"@,
            AnalyzeError::TooManyAccounts { .. } => "No more than 64 accounts are currently supported per instruction.\nThis is the 65th account."@,
            AnalyzeError::AccountAttributes { .. } => "Account attributes are not supported"@,
            AnalyzeError::AccountTypeAttributes { .. } => "Account type attributes are not supported"@,
            AnalyzeError::DataParserAttributes { .. } => "Data parser attributes are not supported"@,
            AnalyzeError::DataParserTypeAttributes { .. } => "Data parser type attributes are not supported"@,
            AnalyzeError::ImpliedCallNeedsPath { .. } => "An implied instruction function call is only supported when the instruction match expression is a path.  For example, `Instruction::MintToken`."@,
            AnalyzeError::ImpliedCallNeedsNonEmptyPath { .. } => "An implied instruction function call is only supported when the instruction match expression is a non-empty path.  For example, `Instruction::MintToken`.  The last path component must to be spelled explicitly."@,
        }
    }

    pub fn message(&self) -> (r: String)
        ensures
            r@ == self.spec_message(),
    {
        match self {
            AnalyzeError::CrateNotFound(reason) => {
                let mut m = String::from_str(
                    "Failed to find a name for the `pinocchio` crate to use.\nYou can either specify it in the `entrypoint! {}` macro invocation as a `pinocchio_crate` argument value, like this:\n\nentrypoint! {\n    pinocchio_crate: pinocchio,\n    ...\n}\n\nOr you need to add `pinocchio` to your Cargo.toml and make sure that `proc_macro_crate` can find it.  Error from `proc_macro_crate`:\n",
                );
                m.append(reason.as_str());
                m
            },
            AnalyzeError::MissingArgument(RequiredArgument::InstructionType) => String::from_str(
                "`instruction_type` is a required argument",
            ),
            AnalyzeError::MissingArgument(RequiredArgument::ProgramId) => String::from_str(
                "`program_id` is a required argument",
            ),
            AnalyzeError::TooManyAccounts { .. } => String::from_str(
                "No more than 64 accounts are currently supported per instruction.\nThis is the 65th account.",
            ),
            AnalyzeError::AccountAttributes { .. } => String::from_str(
                "Account attributes are not supported",
            ),
            AnalyzeError::AccountTypeAttributes { .. } => String::from_str(
                "Account type attributes are not supported",
            ),
            AnalyzeError::DataParserAttributes { .. } => String::from_str(
                "Data parser attributes are not supported",
            ),
            AnalyzeError::DataParserTypeAttributes { .. } => String::from_str(
                "Data parser type attributes are not supported",
            ),
            AnalyzeError::ImpliedCallNeedsPath { .. } => String::from_str(
                "An implied instruction function call is only supported when the instruction match expression is a path.  For example, `Instruction::MintToken`.",
            ),
            AnalyzeError::ImpliedCallNeedsNonEmptyPath { .. } => String::from_str(
                "An implied instruction function call is only supported when the instruction match expression is a non-empty path.  For example, `Instruction::MintToken`.  The last path component must to be spelled explicitly.",
            ),
        }
    }
}

/// The crate name decision: a name given in the macro input wins; otherwise the crate is
/// `pinocchio` when the macro is used inside it, or the name it is a dependency under, written as
/// a raw identifier.
pub open spec fn spec_find_pinocchio_crate(c: PinocchioCrate) -> Result<(Seq<char>, bool), AnalyzeError> {
    match c {
        PinocchioCrate::Provided(name) => Ok((name@, false)),
        PinocchioCrate::Itself => Ok(("pinocchio"@, false)),
        PinocchioCrate::Renamed(name) => Ok((name@, true)),
        PinocchioCrate::NotFound(reason) => Err(AnalyzeError::CrateNotFound(reason)),
    }
}

/// Decides the name of the crate that provides the account and parsing types.
pub fn find_pinocchio_crate(c: &PinocchioCrate) -> (r: Result<CrateName, AnalyzeError>)
    ensures
        match spec_find_pinocchio_crate(*c) {
            Ok((name, raw)) => r matches Ok(n) && n.name@ == name && n.raw == raw,
            Err(e) => r == Err::<CrateName, AnalyzeError>(e),
        },
{
    match c {
        PinocchioCrate::Provided(name) => Ok(CrateName { name: name.clone(), raw: false }),
        PinocchioCrate::Itself => Ok(CrateName { name: String::from_str("pinocchio"), raw: false }),
        PinocchioCrate::Renamed(name) => Ok(CrateName { name: name.clone(), raw: true }),
        PinocchioCrate::NotFound(reason) => Err(AnalyzeError::CrateNotFound(reason.clone())),
    }
}

/// Checks that a required argument was given.
pub fn required_arg(name: RequiredArgument, provided: bool) -> (r: Result<(), AnalyzeError>)
    ensures
        provided ==> r is Ok,
        !provided ==> r == Err::<(), AnalyzeError>(AnalyzeError::MissingArgument(name)),
{
    if provided {
        Ok(())
    } else {
        Err(AnalyzeError::MissingArgument(name))
    }
}

/// The problem with the account argument at `account` of case `case`, if any: attributes are not
/// supported, neither before the argument nor on its pattern.
pub open spec fn account_parser_error(case: usize, account: int, p: ParserShape) -> Option<
    AnalyzeError,
> {
    if p.attrs > 0 {
        Some(AnalyzeError::AccountAttributes { case, account: account as usize })
    } else if p.type_attrs > 0 {
        Some(AnalyzeError::AccountTypeAttributes { case, account: account as usize })
    } else {
        None
    }
}

/// The problem with the data argument at `argument` of case `case`, if any: attributes are not
/// supported, neither before the argument nor on its pattern.
pub open spec fn data_parser_error(case: usize, argument: int, p: ParserShape) -> Option<
    AnalyzeError,
> {
    if p.attrs > 0 {
        Some(AnalyzeError::DataParserAttributes { case, argument: argument as usize })
    } else if p.type_attrs > 0 {
        Some(AnalyzeError::DataParserTypeAttributes { case, argument: argument as usize })
    } else {
        None
    }
}

/// The problem with the first argument that has one, if any.
pub open spec fn first_parser_error(case: usize, parsers: Seq<ParserShape>, account: bool) -> Option<
    AnalyzeError,
>
    decreases parsers.len(),
{
    if parsers.len() == 0 {
        None
    } else {
        match first_parser_error(case, parsers.drop_last(), account) {
            Some(e) => Some(e),
            None => if account {
                account_parser_error(case, parsers.len() - 1, parsers.last())
            } else {
                data_parser_error(case, parsers.len() - 1, parsers.last())
            },
        }
    }
}

/// Checks an account argument.
pub fn analyze_account_parser(case: usize, account: usize, p: &ParserShape) -> (r: Result<
    (),
    AnalyzeError,
>)
    ensures
        match account_parser_error(case, account as int, *p) {
            Some(e) => r == Err::<(), AnalyzeError>(e),
            None => r is Ok,
        },
{
    if p.attrs > 0 {
        return Err(AnalyzeError::AccountAttributes { case, account });
    }
    if p.type_attrs > 0 {
        return Err(AnalyzeError::AccountTypeAttributes { case, account });
    }
    Ok(())
}

/// Checks an instruction data argument.
pub fn analyze_data_parser(case: usize, argument: usize, p: &ParserShape) -> (r: Result<
    (),
    AnalyzeError,
>)
    ensures
        match data_parser_error(case, argument as int, *p) {
            Some(e) => r == Err::<(), AnalyzeError>(e),
            None => r is Ok,
        },
{
    if p.attrs > 0 {
        return Err(AnalyzeError::DataParserAttributes { case, argument });
    }
    if p.type_attrs > 0 {
        return Err(AnalyzeError::DataParserTypeAttributes { case, argument });
    }
    Ok(())
}

/// Checks a list of arguments, in order, stopping at the first problem.
fn analyze_parsers(case: usize, parsers: &Vec<ParserShape>, account: bool) -> (r: Result<
    (),
    AnalyzeError,
>)
    ensures
        match first_parser_error(case, parsers@, account) {
            Some(e) => r == Err::<(), AnalyzeError>(e),
            None => r is Ok,
        },
{
    let mut i: usize = 0;
    while i < parsers.len()
        invariant
            0 <= i <= parsers@.len(),
            first_parser_error(case, parsers@.take(i as int), account) is None,
        decreases parsers@.len() - i,
    {
        assert(parsers@.take(i + 1).drop_last() =~= parsers@.take(i as int));
        let checked = if account {
            analyze_account_parser(case, i, &parsers[i])
        } else {
            analyze_data_parser(case, i, &parsers[i])
        };
        if checked.is_err() {
            proof {
                lemma_first_error_extends(case, parsers@, account, i + 1);
            }
            return checked;
        }
        i = i + 1;
    }
    assert(parsers@.take(parsers@.len() as int) =~= parsers@);
    Ok(())
}

/// A problem found in a prefix of the arguments is the first problem of all of them.
proof fn lemma_first_error_extends(case: usize, parsers: Seq<ParserShape>, account: bool, k: int)
    requires
        0 <= k <= parsers.len(),
        first_parser_error(case, parsers.take(k), account) is Some,
    ensures
        first_parser_error(case, parsers, account) == first_parser_error(
            case,
            parsers.take(k),
            account,
        ),
    decreases parsers.len() - k,
{
    if k < parsers.len() {
        assert(parsers.take(k + 1).drop_last() =~= parsers.take(k));
        lemma_first_error_extends(case, parsers, account, k + 1);
    } else {
        assert(parsers.take(k) =~= parsers);
    }
}

/// The arguments of a list carry no attribute, neither before them nor on their patterns.
pub open spec fn parsers_plain(parsers: Seq<ParserShape>) -> bool {
    forall|j: int| 0 <= j < parsers.len() ==> #[trigger] parsers[j].attrs == 0 && parsers[j].type_attrs == 0
}

/// A list has a problem exactly when one of its arguments carries an attribute.
proof fn lemma_first_parser_error_plain(case: usize, parsers: Seq<ParserShape>, account: bool)
    ensures
        first_parser_error(case, parsers, account) is None <==> parsers_plain(parsers),
    decreases parsers.len(),
{
    if parsers.len() > 0 {
        let prefix = parsers.drop_last();
        lemma_first_parser_error_plain(case, prefix, account);
        let last = parsers.last();
        assert(last == parsers[parsers.len() - 1]);
        if parsers_plain(parsers) {
            assert forall|j: int| 0 <= j < prefix.len() implies #[trigger] prefix[j].attrs == 0
                && prefix[j].type_attrs == 0 by {
                assert(prefix[j] == parsers[j]);
            }
        }
        if parsers_plain(prefix) && last.attrs == 0 && last.type_attrs == 0 {
            assert forall|j: int| 0 <= j < parsers.len() implies #[trigger] parsers[j].attrs == 0
                && parsers[j].type_attrs == 0 by {
                if j < prefix.len() {
                    assert(prefix[j] == parsers[j]);
                }
            }
        }
    }
}

/// What a case runs: the written body, or a call of the function named after the last segment
/// of the instruction path, in snake case.  An implied call needs a non-empty path.
pub open spec fn spec_analyze_body(case: usize, pat: PatternShape, body: BodyShape) -> Result<
    Option<Seq<char>>,
    AnalyzeError,
> {
    match body {
        BodyShape::Explicit => Ok(None),
        BodyShape::Implied => match pat {
            PatternShape::Path(segments) => if segments@.len() == 0 {
                Err(AnalyzeError::ImpliedCallNeedsNonEmptyPath { case })
            } else {
                Ok(Some(spec_snake_case(segments@.last()@)))
            },
            PatternShape::Other => Err(AnalyzeError::ImpliedCallNeedsPath { case }),
        },
    }
}

/// Decides what an instruction case runs.
pub fn analyze_body(case: usize, instruction_pat: &PatternShape, body: BodyShape) -> (r: Result<
    BodyPlan,
    AnalyzeError,
>)
    ensures
        match spec_analyze_body(case, *instruction_pat, body) {
            Ok(None) => r matches Ok(BodyPlan::Explicit),
            Ok(Some(name)) => r matches Ok(BodyPlan::Implied(f)) && f@ == name,
            Err(e) => r == Err::<BodyPlan, AnalyzeError>(e),
        },
{
    match body {
        BodyShape::Explicit => return Ok(BodyPlan::Explicit),
        BodyShape::Implied => {},
    }
    let segments = match instruction_pat {
        PatternShape::Path(segments) => segments,
        PatternShape::Other => {
            return Err(AnalyzeError::ImpliedCallNeedsPath { case });
        },
    };
    if segments.len() == 0 {
        return Err(AnalyzeError::ImpliedCallNeedsNonEmptyPath { case });
    }
    let last_path_segment = &segments[segments.len() - 1];
    Ok(BodyPlan::Implied(to_snake_case(last_path_segment.as_str())))
}

/// Checks an instruction case: at most 64 accounts, no attributes on the account arguments, then
/// none on the data arguments, then the body.
pub open spec fn spec_analyze_instruction_case(case: usize, c: CaseShape) -> Result<
    Option<Seq<char>>,
    AnalyzeError,
> {
    if c.account_parsers@.len() > MAX_ACCOUNTS_PER_INSTRUCTION {
        Err(AnalyzeError::TooManyAccounts { case })
    } else if let Some(e) = first_parser_error(case, c.account_parsers@, true) {
        Err(e)
    } else if let Some(e) = first_parser_error(case, c.data_parsers@, false) {
        Err(e)
    } else {
        spec_analyze_body(case, c.instruction_pat, c.body)
    }
}

/// A copy of the argument list.
fn copy_parsers(parsers: &Vec<ParserShape>) -> (r: Vec<ParserShape>)
    ensures
        r@ == parsers@,
{
    let mut r: Vec<ParserShape> = Vec::new();
    let mut i: usize = 0;
    while i < parsers.len()
        invariant
            0 <= i <= parsers@.len(),
            r@ == parsers@.take(i as int),
        decreases parsers@.len() - i,
    {
        r.push(parsers[i]);
        i = i + 1;
        assert(r@ =~= parsers@.take(i as int));
    }
    assert(parsers@.take(parsers@.len() as int) =~= parsers@);
    r
}

/// The checks of an instruction case: more than 64 accounts are refused with `TooManyAccounts`;
/// with at most 64, an attribute on any account or data argument is refused; a case without
/// attributes runs its written body, or calls the function named after the last segment of its
/// path pattern in snake case, and refuses an implied call on any other pattern.
pub proof fn lemma_instruction_case_checks(case: usize, c: CaseShape)
    ensures
        c.account_parsers@.len() > 64 ==> spec_analyze_instruction_case(case, c) == Err::<
            Option<Seq<char>>,
            AnalyzeError,
        >(AnalyzeError::TooManyAccounts { case }),
        c.account_parsers@.len() <= 64 && !(parsers_plain(c.account_parsers@) && parsers_plain(
            c.data_parsers@,
        )) ==> spec_analyze_instruction_case(case, c) is Err,
        c.account_parsers@.len() <= 64 && parsers_plain(c.account_parsers@) && parsers_plain(
            c.data_parsers@,
        ) ==> {
            &&& c.body == BodyShape::Explicit ==> spec_analyze_instruction_case(case, c) == Ok::<
                Option<Seq<char>>,
                AnalyzeError,
            >(None)
            &&& c.body == BodyShape::Implied ==> match c.instruction_pat {
                PatternShape::Path(segments) => if segments@.len() > 0 {
                    spec_analyze_instruction_case(case, c) == Ok::<
                        Option<Seq<char>>,
                        AnalyzeError,
                    >(Some(spec_snake_case(segments@.last()@)))
                } else {
                    spec_analyze_instruction_case(case, c) == Err::<
                        Option<Seq<char>>,
                        AnalyzeError,
                    >(AnalyzeError::ImpliedCallNeedsNonEmptyPath { case })
                },
                PatternShape::Other => spec_analyze_instruction_case(case, c) == Err::<
                    Option<Seq<char>>,
                    AnalyzeError,
                >(AnalyzeError::ImpliedCallNeedsPath { case }),
            }
        },
{
    lemma_first_parser_error_plain(case, c.account_parsers@, true);
    lemma_first_parser_error_plain(case, c.data_parsers@, false);
}

/// Checks an instruction case, and decides what it runs.
pub fn analyze_instruction_case(case: usize, c: &CaseShape) -> (r: Result<
    InstructionCase,
    AnalyzeError,
>)
    ensures
        match spec_analyze_instruction_case(case, *c) {
            Ok(plan) => r matches Ok(ic) && plan_view(ic.body) == plan && ic.account_parsers@
                == c.account_parsers@ && ic.data_parsers@ == c.data_parsers@,
            Err(e) => r == Err::<InstructionCase, AnalyzeError>(e),
        },
{
    if c.account_parsers.len() > MAX_ACCOUNTS_PER_INSTRUCTION {
        return Err(AnalyzeError::TooManyAccounts { case });
    }
    analyze_parsers(case, &c.account_parsers, true)?;
    analyze_parsers(case, &c.data_parsers, false)?;
    let body = analyze_body(case, &c.instruction_pat, c.body)?;
    Ok(
        InstructionCase {
            account_parsers: copy_parsers(&c.account_parsers),
            data_parsers: copy_parsers(&c.data_parsers),
            body,
        },
    )
}

/// The plans of the cases, when every case passes its checks, or the problem of the first case
/// that does not.
pub open spec fn spec_analyze_cases(cases: Seq<CaseShape>) -> Result<Seq<Option<Seq<char>>>, AnalyzeError>
    decreases cases.len(),
{
    if cases.len() == 0 {
        Ok(Seq::empty())
    } else {
        match spec_analyze_cases(cases.drop_last()) {
            Err(e) => Err(e),
            Ok(plans) => match spec_analyze_instruction_case(
                (cases.len() - 1) as usize,
                cases.last(),
            ) {
                Err(e) => Err(e),
                Ok(plan) => Ok(plans.push(plan)),
            },
        }
    }
}

/// The checks of the whole input, in order: the crate name, the instruction type, the program id,
/// then the cases.
pub open spec fn spec_analyze(ast: AstShape) -> Result<(Seq<char>, bool, Seq<Option<Seq<char>>>), AnalyzeError> {
    match spec_find_pinocchio_crate(ast.pinocchio_crate) {
        Err(e) => Err(e),
        Ok((name, raw)) => if !ast.has_instruction_type {
            Err(AnalyzeError::MissingArgument(RequiredArgument::InstructionType))
        } else if !ast.has_program_id {
            Err(AnalyzeError::MissingArgument(RequiredArgument::ProgramId))
        } else {
            match spec_analyze_cases(ast.cases@) {
                Err(e) => Err(e),
                Ok(plans) => Ok((name, raw, plans)),
            }
        },
    }
}

/// The plan of a case, as a value.
pub open spec fn plan_view(plan: BodyPlan) -> Option<Seq<char>> {
    match plan {
        BodyPlan::Explicit => None,
        BodyPlan::Implied(f) => Some(f@),
    }
}

proof fn lemma_cases_error_extends(cases: Seq<CaseShape>, k: int)
    requires
        0 <= k <= cases.len(),
        spec_analyze_cases(cases.take(k)) is Err,
    ensures
        spec_analyze_cases(cases) == spec_analyze_cases(cases.take(k)),
    decreases cases.len() - k,
{
    if k < cases.len() {
        assert(cases.take(k + 1).drop_last() =~= cases.take(k));
        lemma_cases_error_extends(cases, k + 1);
    } else {
        assert(cases.take(k) =~= cases);
    }
}

/// What an analyzed case runs, as a value.
pub open spec fn case_plan(c: InstructionCase) -> Option<Seq<char>> {
    plan_view(c.body)
}

/// Checks the macro input and takes the decisions the generated code is built from.
pub fn analyze(ast: &AstShape) -> (r: Result<Model, AnalyzeError>)
    ensures
        match spec_analyze(*ast) {
            Ok((name, raw, plans)) => r matches Ok(m) && m.pinocchio_crate.name@ == name
                && m.pinocchio_crate.raw == raw && m.cases@.map_values(
                |c: InstructionCase| case_plan(c),
            ) == plans && m.cases@.len() == ast.cases@.len() && (forall|j: int|
                0 <= j < m.cases@.len() ==> (#[trigger] m.cases@[j]).account_parsers@
                    == ast.cases@[j].account_parsers@ && m.cases@[j].data_parsers@
                    == ast.cases@[j].data_parsers@),
            Err(e) => r == Err::<Model, AnalyzeError>(e),
        },
{
    let pinocchio_crate = find_pinocchio_crate(&ast.pinocchio_crate)?;
    required_arg(RequiredArgument::InstructionType, ast.has_instruction_type)?;
    required_arg(RequiredArgument::ProgramId, ast.has_program_id)?;

    let mut cases: Vec<InstructionCase> = Vec::new();
    let mut i: usize = 0;
    assert(ast.cases@.take(0) =~= Seq::<CaseShape>::empty());
    assert(cases@.map_values(|c: InstructionCase| case_plan(c)) =~= Seq::<
        Option<Seq<char>>,
    >::empty());
    while i < ast.cases.len()
        invariant
            0 <= i <= ast.cases@.len(),
            ast.has_instruction_type,
            ast.has_program_id,
            spec_find_pinocchio_crate(ast.pinocchio_crate) == Ok::<(Seq<char>, bool), AnalyzeError>(
                (pinocchio_crate.name@, pinocchio_crate.raw),
            ),
            spec_analyze_cases(ast.cases@.take(i as int)) == Ok::<
                Seq<Option<Seq<char>>>,
                AnalyzeError,
            >(cases@.map_values(|c: InstructionCase| case_plan(c))),
            cases@.len() == i,
            forall|j: int|
                0 <= j < i ==> (#[trigger] cases@[j]).account_parsers@
                    == ast.cases@[j].account_parsers@ && cases@[j].data_parsers@
                    == ast.cases@[j].data_parsers@,
        decreases ast.cases@.len() - i,
    {
        assert(ast.cases@.take(i + 1).drop_last() =~= ast.cases@.take(i as int));
        assert(ast.cases@.take(i + 1).last() == ast.cases@[i as int]);
        match analyze_instruction_case(i, &ast.cases[i]) {
            Ok(ic) => {
                let ghost before = cases@;
                cases.push(ic);
                assert(cases@.map_values(|c: InstructionCase| case_plan(c)) =~= before.map_values(
                    |c: InstructionCase| case_plan(c),
                ).push(case_plan(cases@.last())));
            },
            Err(e) => {
                proof {
                    assert(spec_analyze_cases(ast.cases@.take(i + 1)) == Err::<
                        Seq<Option<Seq<char>>>,
                        AnalyzeError,
                    >(e));
                    lemma_cases_error_extends(ast.cases@, i + 1);
                }
                return Err(e);
            },
        }
        i = i + 1;
    }
    assert(ast.cases@.take(ast.cases@.len() as int) =~= ast.cases@);
    Ok(Model { pinocchio_crate, cases })
}

} // verus!
