//! The named arguments that start the `entrypoint!` macro input: each may be given once, in any
//! order, and no other name is accepted.

use vstd::prelude::*;

verus! {

/// A named argument of the macro.
#[derive(Debug, Clone, Copy, PartialEq, Eq, Structural)]
pub enum ArgumentName {
    PinocchioCrate,
    InstructionType,
    ProgramId,
}

/// The named arguments given so far.
#[derive(Debug, Clone, Copy, PartialEq, Eq, Structural)]
pub struct ArgumentsSeen {
    pub pinocchio_crate: bool,
    pub instruction_type: bool,
    pub program_id: bool,
}

/// Why an argument name is refused.
#[derive(Debug, Clone, Copy, PartialEq, Eq, Structural)]
pub enum ArgumentError {
    /// The name is not one of the known argument names.
    Unexpected,
    /// The argument was already given.
    Duplicate(ArgumentName),
}

impl ArgumentName {
    /// The argument name, as written in the macro input.
    pub open spec fn spec_name(self) -> &'static str {
        match self {
            ArgumentName::PinocchioCrate => "pinocchio_crate",
            ArgumentName::InstructionType => "instruction_type",
            ArgumentName::ProgramId => "program_id",
        }
    }

    pub fn name(&self) -> (r: &'static str)
        ensures
            r == self.spec_name(),
    {
        match self {
            ArgumentName::PinocchioCrate => "pinocchio_crate",
            ArgumentName::InstructionType => "instruction_type",
            ArgumentName::ProgramId => "program_id",
        }
    }
}

impl ArgumentsSeen {
    /// No argument given yet.
    pub fn new() -> (r: Self)
        ensures
            !r.pinocchio_crate && !r.instruction_type && !r.program_id,
    {
        ArgumentsSeen { pinocchio_crate: false, instruction_type: false, program_id: false }
    }

    /// Whether `name` was given.
    pub open spec fn spec_has(self, name: ArgumentName) -> bool {
        match name {
            ArgumentName::PinocchioCrate => self.pinocchio_crate,
            ArgumentName::InstructionType => self.instruction_type,
            ArgumentName::ProgramId => self.program_id,
        }
    }

    /// The arguments given, with `name` added.
    pub open spec fn spec_with(self, name: ArgumentName) -> ArgumentsSeen {
        match name {
            ArgumentName::PinocchioCrate => ArgumentsSeen { pinocchio_crate: true, ..self },
            ArgumentName::InstructionType => ArgumentsSeen { instruction_type: true, ..self },
            ArgumentName::ProgramId => ArgumentsSeen { program_id: true, ..self },
        }
    }
}

/// The argument a name in the macro input refers to, if it is a known one.
pub open spec fn spec_argument_name(name: Seq<char>) -> Option<ArgumentName> {
    if name == "pinocchio_crate"@ {
        Some(ArgumentName::PinocchioCrate)
    } else if name == "instruction_type"@ {
        Some(ArgumentName::InstructionType)
    } else if name == "program_id"@ {
        Some(ArgumentName::ProgramId)
    } else {
        None
    }
}

/// Accepts the argument name `name`, met after the arguments in `seen`: a known name that was not
/// given before is recorded in `seen`; an unknown name, or one given before, is refused and leaves
/// `seen` unchanged.
pub fn accept_argument(name: &String, seen: &mut ArgumentsSeen) -> (r: Result<
    ArgumentName,
    ArgumentError,
>)
    ensures
        match spec_argument_name(name@) {
            None => {
                &&& r == Err::<ArgumentName, ArgumentError>(ArgumentError::Unexpected)
                &&& *final(seen) == *old(seen)
            },
            Some(arg) => if old(seen).spec_has(arg) {
                &&& r == Err::<ArgumentName, ArgumentError>(ArgumentError::Duplicate(arg))
                &&& *final(seen) == *old(seen)
            } else {
                &&& r == Ok::<ArgumentName, ArgumentError>(arg)
                &&& *final(seen) == old(seen).spec_with(arg)
            },
        },
{
    let arg = if *name == String::from_str("pinocchio_crate") {
        ArgumentName::PinocchioCrate
    } else if *name == String::from_str("instruction_type") {
        ArgumentName::InstructionType
    } else if *name == String::from_str("program_id") {
        ArgumentName::ProgramId
    } else {
        return Err(ArgumentError::Unexpected);
    };
    let given = match arg {
        ArgumentName::PinocchioCrate => seen.pinocchio_crate,
        ArgumentName::InstructionType => seen.instruction_type,
        ArgumentName::ProgramId => seen.program_id,
    };
    if given {
        return Err(ArgumentError::Duplicate(arg));
    }
    match arg {
        ArgumentName::PinocchioCrate => seen.pinocchio_crate = true,
        ArgumentName::InstructionType => seen.instruction_type = true,
        ArgumentName::ProgramId => seen.program_id = true,
    }
    Ok(arg)
}

/// Each argument is accepted at most once: after `name` is accepted it counts as given, so
/// [`accept_argument`] refuses it as a duplicate from then on, while whether any other argument
/// was given is unchanged.
pub proof fn lemma_argument_accepted_once(seen: ArgumentsSeen, name: ArgumentName, other: ArgumentName)
    ensures
        seen.spec_with(name).spec_has(name),
        other != name ==> seen.spec_with(name).spec_has(other) == seen.spec_has(other),
{
}

/// The three argument names are recognised as themselves and nothing else is: a name refers to
/// an argument exactly when it is that argument's name, so distinct arguments have distinct
/// names.
pub proof fn lemma_argument_names(name: Seq<char>, arg: ArgumentName)
    ensures
        spec_argument_name(name) == Some(arg) <==> name == arg.spec_name()@,
{
    reveal_strlit("pinocchio_crate");
    reveal_strlit("instruction_type");
    reveal_strlit("program_id");
    assert("pinocchio_crate"@ != "instruction_type"@) by {
        assert("pinocchio_crate"@.len() != "instruction_type"@.len());
    }
    assert("pinocchio_crate"@ != "program_id"@) by {
        assert("pinocchio_crate"@.len() != "program_id"@.len());
    }
    assert("instruction_type"@ != "program_id"@) by {
        assert("instruction_type"@.len() != "program_id"@.len());
    }
}

impl ArgumentError {
    /// The message reported for the problem.
    pub open spec fn spec_message(self) -> Seq<char> {
        match self {
            ArgumentError::Unexpected =>
                "Unexpected argument name.\nKnown argument names: pinocchio_crate, instruction_type, program_id"@,
            ArgumentError::Duplicate(ArgumentName::PinocchioCrate) =>
                "Duplicate `pinocchio_crate` argument."@,
            ArgumentError::Duplicate(ArgumentName::InstructionType) =>
                "Duplicate `instruction_type` argument."@,
            ArgumentError::Duplicate(ArgumentName::ProgramId) => "Duplicate `program_id` argument."@,
        }
    }

    /// For a duplicate, the note attached to the earlier occurrence of the argument.
    pub open spec fn spec_previous_definition_note(self) -> Option<Seq<char>> {
        match self {
            ArgumentError::Unexpected => None,
            ArgumentError::Duplicate(ArgumentName::PinocchioCrate) => Some(
                "Previous definition of `pinocchio_crate`"@,
            ),
            ArgumentError::Duplicate(ArgumentName::InstructionType) => Some(
                "Previous definition of `instruction_type`"@,
            ),
            ArgumentError::Duplicate(ArgumentName::ProgramId) => Some(
                "Previous definition of `program_id`"@,
            ),
        }
    }

    pub fn message(&self) -> (r: String)
        ensures
            r@ == self.spec_message(),
    {
        match self {
            ArgumentError::Unexpected => String::from_str(
                "Unexpected argument name.\nKnown argument names: pinocchio_crate, instruction_type, program_id",
            ),
            ArgumentError::Duplicate(ArgumentName::PinocchioCrate) => String::from_str(
                "Duplicate `pinocchio_crate` argument.",
            ),
            ArgumentError::Duplicate(ArgumentName::InstructionType) => String::from_str(
                "Duplicate `instruction_type` argument.",
            ),
            ArgumentError::Duplicate(ArgumentName::ProgramId) => String::from_str(
                "Duplicate `program_id` argument.",
            ),
        }
    }

    pub fn previous_definition_note(&self) -> (r: Option<String>)
        ensures
            match self.spec_previous_definition_note() {
                None => r is None,
                Some(note) => r matches Some(s) && s@ == note,
            },
    {
        match self {
            ArgumentError::Unexpected => None,
            ArgumentError::Duplicate(ArgumentName::PinocchioCrate) => Some(
                String::from_str("Previous definition of `pinocchio_crate`"),
            ),
            ArgumentError::Duplicate(ArgumentName::InstructionType) => Some(
                String::from_str("Previous definition of `instruction_type`"),
            ),
            ArgumentError::Duplicate(ArgumentName::ProgramId) => Some(
                String::from_str("Previous definition of `program_id`"),
            ),
        }
    }
}

} // verus!
