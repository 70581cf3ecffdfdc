//! The instruction dispatcher and the program's one handler, `initialize`.
use vstd::prelude::*;

use crate::accounts::{validate, validation, AccountContext, AccountRef, AccountSlot, ValidationError};
use crate::address::Address;

verus! {

/// Identifier of the `initialize` instruction.
pub const INITIALIZE_IX: &'static str = "initialize";

/// The trace record that `initialize` emits.
pub const INITIALIZE_LOG: &'static str = "Privacy Devkit program initialized (devnet)";

/// A request to the program: the instruction to run, the accounts it is
/// given, in order, and its payload.
#[derive(Clone, Debug)]
pub struct Instruction {
    pub identifier: String,
    pub accounts: Vec<AccountRef>,
    pub data: Vec<u8>,
}

/// Why an instruction failed.
#[derive(Clone, Copy, Debug, PartialEq, Eq, Structural)]
pub enum ProgramError {
    /// No handler is registered under the instruction's identifier.
    UnknownInstruction,
    /// The supplied accounts do not match the handler's schema.
    Validation(ValidationError),
}

/// The registered handlers.
#[derive(Clone, Copy, Debug, PartialEq, Eq, Structural)]
pub enum Handler {
    Initialize,
}

/// The handler registered under `identifier`, if any.
pub open spec fn handler_for(identifier: Seq<char>) -> Option<Handler> {
    if identifier == INITIALIZE_IX@ {
        Some(Handler::Initialize)
    } else {
        None
    }
}

/// The account schema that handler `h` declares.
pub open spec fn handler_schema(h: Handler) -> Seq<AccountSlot> {
    match h {
        Handler::Initialize => Seq::empty(),
    }
}

/// The trace records that handler `h` emits when it runs.
pub open spec fn handler_log(h: Handler) -> Seq<&'static str> {
    match h {
        Handler::Initialize => seq![INITIALIZE_LOG],
    }
}

/// Outcome of dispatching the instruction `identifier` with `accounts` in
/// the program whose id is `program_id`.
pub open spec fn dispatch_outcome(
    program_id: Seq<u8>,
    identifier: Seq<char>,
    accounts: Seq<AccountRef>,
) -> Result<(), ProgramError> {
    match handler_for(identifier) {
        None => Err(ProgramError::UnknownInstruction),
        Some(h) => match validation(handler_schema(h), accounts, program_id) {
            Err(e) => Err(ProgramError::Validation(e)),
            Ok(()) => Ok(()),
        },
    }
}

/// The trace after dispatching that instruction onto `trace`: the handler's
/// records are appended only where it ran.
pub open spec fn dispatch_trace(
    program_id: Seq<u8>,
    identifier: Seq<char>,
    accounts: Seq<AccountRef>,
    trace: Seq<&'static str>,
) -> Seq<&'static str> {
    match handler_for(identifier) {
        Some(h) if dispatch_outcome(program_id, identifier, accounts) is Ok => trace + handler_log(h),
        _ => trace,
    }
}

impl Handler {
    /// Looks up the handler registered under `identifier`.
    pub fn lookup(identifier: &String) -> (r: Option<Handler>)
        ensures
            r == handler_for(identifier@),
    {
        if *identifier == INITIALIZE_IX.to_owned() {
            Some(Handler::Initialize)
        } else {
            None
        }
    }

    /// The account schema this handler declares.
    pub fn schema(&self) -> (r: Vec<AccountSlot>)
        ensures
            r@ == handler_schema(*self),
    {
        match self {
            Handler::Initialize => Initialize::schema(),
        }
    }
}

/// What a handler receives: the executing program's id and its typed,
/// validated accounts.
#[derive(Debug)]
pub struct Context<T> {
    pub program_id: Address,
    pub accounts: T,
}

/// The accounts of `initialize`: none. Later program-derived state would be
/// declared here.
#[derive(Clone, Copy, Debug)]
pub struct Initialize {}

impl Initialize {
    /// The schema of `initialize`: no account slots.
    pub fn schema() -> (r: Vec<AccountSlot>)
        ensures
            r@ == handler_schema(Handler::Initialize),
    {
        Vec::new()
    }

    /// The typed accounts of a context validated against the schema.
    pub fn from_context(ctx: AccountContext) -> (r: Initialize)
        requires
            ctx@.len() == 0,
    {
        Initialize {}
    }
}

/// The `initialize` handler: changes no state and emits one trace record.
pub fn initialize(_ctx: Context<Initialize>, trace: &mut Vec<&'static str>) -> (r: Result<
    (),
    ProgramError,
>)
    ensures
        r == Ok::<(), ProgramError>(()),
        final(trace)@ == old(trace)@.push(INITIALIZE_LOG),
{
    trace.push(INITIALIZE_LOG);
    Ok(())
}

/// The program: its fixed id, set at deployment, and its handlers.
#[derive(Clone, Copy, Debug)]
pub struct Program {
    pub program_id: Address,
}

impl Program {
    /// A program with the given id.
    pub fn new(program_id: Address) -> (r: Program)
        ensures
            r.program_id == program_id,
    {
        Program { program_id }
    }

    /// Runs `ix`: looks up its handler, validates its accounts against the
    /// handler's schema, and runs the handler on the validated context,
    /// appending what it emits to `trace`. Nothing is emitted on failure.
    pub fn dispatch(&self, ix: Instruction, trace: &mut Vec<&'static str>) -> (r: Result<
        (),
        ProgramError,
    >)
        ensures
            r == dispatch_outcome(self.program_id@, ix.identifier@, ix.accounts@),
            final(trace)@ == dispatch_trace(
                self.program_id@,
                ix.identifier@,
                ix.accounts@,
                old(trace)@,
            ),
    {
        let handler = match Handler::lookup(&ix.identifier) {
            None => {
                return Err(ProgramError::UnknownInstruction);
            },
            Some(h) => h,
        };
        let schema = handler.schema();
        let ctx = match validate(&schema, ix.accounts, &self.program_id) {
            Err(e) => {
                return Err(ProgramError::Validation(e));
            },
            Ok(ctx) => ctx,
        };
        match handler {
            Handler::Initialize => {
                let accounts = Initialize::from_context(ctx);
                initialize(Context { program_id: self.program_id, accounts }, trace)
            },
        }
    }
}

} // verus!
