//! Properties of dispatch that span inputs or repeated calls.
use vstd::prelude::*;

use crate::accounts::{validation, AccountRef, AccountSlot, ValidationError};
use crate::program::{
    dispatch_outcome, dispatch_trace, handler_for, ProgramError, INITIALIZE_IX, INITIALIZE_LOG,
};

verus! {

/// The trace after dispatching the same instruction `n` times onto `trace`.
pub open spec fn dispatch_repeated(
    program_id: Seq<u8>,
    identifier: Seq<char>,
    accounts: Seq<AccountRef>,
    trace: Seq<&'static str>,
    n: nat,
) -> Seq<&'static str>
    decreases n,
{
    if n == 0 {
        trace
    } else {
        dispatch_trace(
            program_id,
            identifier,
            accounts,
            dispatch_repeated(program_id, identifier, accounts, trace, (n - 1) as nat),
        )
    }
}

/// `initialize` with no accounts succeeds and emits exactly one trace record,
/// the fixed message.
pub proof fn initialize_without_accounts_succeeds(
    program_id: Seq<u8>,
    identifier: Seq<char>,
    accounts: Seq<AccountRef>,
    trace: Seq<&'static str>,
)
    requires
        identifier == INITIALIZE_IX@,
        accounts.len() == 0,
    ensures
        dispatch_outcome(program_id, identifier, accounts) == Ok::<(), ProgramError>(()),
        dispatch_trace(program_id, identifier, accounts, trace) == trace.push(INITIALIZE_LOG),
{
    assert(trace + seq![INITIALIZE_LOG] =~= trace.push(INITIALIZE_LOG));
}

/// `initialize` given any account fails validation, and its handler leaves
/// no trace.
pub proof fn initialize_with_accounts_fails(
    program_id: Seq<u8>,
    identifier: Seq<char>,
    accounts: Seq<AccountRef>,
    trace: Seq<&'static str>,
)
    requires
        identifier == INITIALIZE_IX@,
        accounts.len() > 0,
    ensures
        dispatch_outcome(program_id, identifier, accounts) == Err::<(), _>(
            ProgramError::Validation(ValidationError::UnexpectedAccount { slot: 0 }),
        ),
        dispatch_trace(program_id, identifier, accounts, trace) == trace,
{
}

/// Dispatching `initialize` with no accounts `n` times succeeds each time and
/// leaves exactly `n` records behind: no call depends on an earlier one.
pub proof fn initialize_is_repeatable(
    program_id: Seq<u8>,
    identifier: Seq<char>,
    accounts: Seq<AccountRef>,
    trace: Seq<&'static str>,
    n: nat,
)
    requires
        identifier == INITIALIZE_IX@,
        accounts.len() == 0,
    ensures
        dispatch_outcome(program_id, identifier, accounts) == Ok::<(), ProgramError>(()),
        dispatch_repeated(program_id, identifier, accounts, trace, n) == trace + Seq::new(
            n,
            |_i: int| INITIALIZE_LOG,
        ),
    decreases n,
{
    if n == 0 {
        assert(trace + Seq::new(0, |_i: int| INITIALIZE_LOG) =~= trace);
    } else {
        let prev = dispatch_repeated(program_id, identifier, accounts, trace, (n - 1) as nat);
        initialize_is_repeatable(program_id, identifier, accounts, trace, (n - 1) as nat);
        initialize_without_accounts_succeeds(program_id, identifier, accounts, prev);
        assert(prev.push(INITIALIZE_LOG) =~= trace + Seq::new(n, |_i: int| INITIALIZE_LOG));
    }
}

/// An identifier with no registered handler fails with `UnknownInstruction`
/// whatever accounts come with it, since they are never validated, and
/// leaves no trace.
pub proof fn unknown_instruction_fails(
    program_id: Seq<u8>,
    identifier: Seq<char>,
    accounts: Seq<AccountRef>,
    other_accounts: Seq<AccountRef>,
    trace: Seq<&'static str>,
)
    requires
        handler_for(identifier) is None,
    ensures
        dispatch_outcome(program_id, identifier, accounts) == Err::<(), _>(
            ProgramError::UnknownInstruction,
        ),
        dispatch_outcome(program_id, identifier, accounts) == dispatch_outcome(
            program_id,
            identifier,
            other_accounts,
        ),
        dispatch_trace(program_id, identifier, accounts, trace) == trace,
{
}

/// Validation depends on its inputs alone: identical inputs give identical
/// outcomes.
pub proof fn validation_is_deterministic(
    schema: Seq<AccountSlot>,
    accounts: Seq<AccountRef>,
    program_id: Seq<u8>,
    schema2: Seq<AccountSlot>,
    accounts2: Seq<AccountRef>,
    program_id2: Seq<u8>,
)
    requires
        schema == schema2,
        accounts == accounts2,
        program_id == program_id2,
    ensures
        validation(schema, accounts, program_id) == validation(schema2, accounts2, program_id2),
{
}

/// Dispatch depends on its inputs alone: identical inputs give identical
/// outcomes and traces.
pub proof fn dispatch_is_deterministic(
    program_id: Seq<u8>,
    identifier: Seq<char>,
    accounts: Seq<AccountRef>,
    trace: Seq<&'static str>,
    program_id2: Seq<u8>,
    identifier2: Seq<char>,
    accounts2: Seq<AccountRef>,
    trace2: Seq<&'static str>,
)
    requires
        program_id == program_id2,
        identifier == identifier2,
        accounts == accounts2,
        trace == trace2,
    ensures
        dispatch_outcome(program_id, identifier, accounts) == dispatch_outcome(
            program_id2,
            identifier2,
            accounts2,
        ),
        dispatch_trace(program_id, identifier, accounts, trace) == dispatch_trace(
            program_id2,
            identifier2,
            accounts2,
            trace2,
        ),
{
}

} // verus!
