# pinocchio_kit

Building blocks for on-chain programs, written in Verus: the account model, the program input
layout and its parsing, the construction of typed accounts and typed instruction arguments, a
system program transfer, and the checks and decisions of the `entrypoint!` macro.  Each function
states its behaviour in `requires` / `ensures` and is proved against it.

Layout:

* `src/account` - account headers (byte layout, getters and setters), the account types
  (`AnyAccount`, `OwnAccount`, `NewAccount`, `SysvarAccount`, `Account`), their checks, and typed
  access to account content through `AccountContent::content` / `content_mut`.
* `src/entrypoint_v2` - the program input format (`input_format`: a 4 byte account count, the
  account blocks, the instruction data and the program id), `parse_program_input`, the account
  and instruction data parsers, the data sharing rules between account types, and `write_back`,
  which lays the accounts as the program left them back out in the input for the runtime.
* `src/entrypoint_macro` - the grammar, argument checks, input analysis and code generation
  decisions of the `entrypoint!` macro, over a description of the parsed input.
* `src/system` - the system program id and the transfer instruction.
* `src/test_utils` - mock accounts and a writer of program input bytes.
* `app` - the macro front end that reads and writes Rust syntax (`syn`, `quote`,
  `proc-macro-crate`), and log printing.

Laws proved in `src`: the header layout round trip and field offsets
(`account::abi_account_header`), parsing a serialized program input gives back what was
serialized (`entrypoint_v2::input_format::lemma_parse_serialized_program_input`), writing back
unchanged accounts leaves the input as it was and what is written back reads back as the
accounts the program left (`entrypoint_v2::write_back`), data sharing is
symmetric (`entrypoint_v2::can_reference`), a matching discriminator means an initialized account
(`account::account_content`), an error never reports the success code (`program_error`), every
case fits in the generated account lists (`entrypoint_macro::codegen`), each macro argument is
accepted once (`entrypoint_macro::arguments`), and the case parameter grammar reads every
account and data list, empty or with a trailing `,` (`entrypoint_macro::grammar`).
