//! Account references, account schemas and the validator that matches one
//! against the other.
use vstd::prelude::*;

use crate::address::{derive_program_address, program_address, seeds_view, Address};

verus! {

/// A caller-supplied account reference: the account's address, the program
/// that owns it, and the permission flags the caller granted.
#[derive(Clone, Copy, Debug)]
pub struct AccountRef {
    pub key: Address,
    pub owner: Address,
    pub is_signer: bool,
    pub is_writable: bool,
}

/// One requirement that a schema slot places on its account.
#[derive(Clone, Debug)]
pub enum Constraint {
    /// The account must have signed the transaction.
    Signer,
    /// The account must be passed as writable.
    Writable,
    /// The account must be owned by the given program.
    Owner(Address),
    /// The account's address must be the program-derived address of these
    /// seeds under the executing program.
    Derived(Vec<Vec<u8>>),
}

/// A schema slot: an account must be supplied at this position, and it must
/// meet each constraint, checked in the order listed.
#[derive(Clone, Debug)]
pub struct AccountSlot {
    pub constraints: Vec<Constraint>,
}

/// The constraints of a slot built from its requirements, in the order they
/// are checked: signer, writable, ownership, derivation.
pub open spec fn slot_constraints(
    signer: bool,
    writable: bool,
    owner: Option<Address>,
    seeds: Option<Vec<Vec<u8>>>,
) -> Seq<Constraint> {
    (if signer { seq![Constraint::Signer] } else { Seq::empty() })
        + (if writable { seq![Constraint::Writable] } else { Seq::empty() })
        + (match owner { Some(o) => seq![Constraint::Owner(o)], None => Seq::empty() })
        + (match seeds { Some(s) => seq![Constraint::Derived(s)], None => Seq::empty() })
}

impl AccountSlot {
    /// A slot with the given requirements, checked in the order signer,
    /// writable, ownership, derivation.
    pub fn new(signer: bool, writable: bool, owner: Option<Address>, seeds: Option<Vec<Vec<u8>>>) -> (r:
        AccountSlot)
        ensures
            r.constraints@ == slot_constraints(signer, writable, owner, seeds),
    {
        let mut constraints: Vec<Constraint> = Vec::new();
        if signer {
            constraints.push(Constraint::Signer);
        }
        if writable {
            constraints.push(Constraint::Writable);
        }
        match owner {
            Some(o) => constraints.push(Constraint::Owner(o)),
            None => {},
        }
        match seeds {
            Some(s) => constraints.push(Constraint::Derived(s)),
            None => {},
        }
        assert(constraints@ =~= slot_constraints(signer, writable, owner, seeds));
        AccountSlot { constraints }
    }
}

/// Why a supplied account list does not match a schema. `slot` is the
/// position of the offending account.
#[derive(Clone, Copy, Debug, PartialEq, Eq, Structural)]
pub enum ValidationError {
    /// The schema declares a slot at this position but no account was supplied.
    MissingAccount { slot: usize },
    /// The account at this position has not signed.
    NotSigner { slot: usize },
    /// The account at this position is not writable.
    NotWritable { slot: usize },
    /// The account at this position is owned by another program.
    OwnerMismatch { slot: usize },
    /// The account at this position is not the expected derived address.
    DerivationMismatch { slot: usize },
    /// An account was supplied at this position but the schema ends before it.
    UnexpectedAccount { slot: usize },
}

/// Whether `account` meets `c`, where `derived` is the derivation outcome of
/// `c` (used by `Derived` only).
pub open spec fn constraint_met(c: Constraint, account: AccountRef, derived: Option<Seq<u8>>) -> bool {
    match c {
        Constraint::Signer => account.is_signer,
        Constraint::Writable => account.is_writable,
        Constraint::Owner(o) => account.owner@ == o@,
        Constraint::Derived(_) => derived == Some(account.key@),
    }
}

/// The derivation outcome that `c` asks for under `program_id`.
pub open spec fn derivation_of(c: Constraint, program_id: Seq<u8>) -> Option<Seq<u8>> {
    match c {
        Constraint::Derived(seeds) => program_address(seeds_view(seeds@), program_id),
        _ => None,
    }
}

/// Whether `account` meets `c` in a program whose id is `program_id`.
pub open spec fn constraint_holds(c: Constraint, account: AccountRef, program_id: Seq<u8>) -> bool {
    constraint_met(c, account, derivation_of(c, program_id))
}

/// The error reported for the account at `slot` failing `c`.
pub open spec fn violation(c: Constraint, slot: usize) -> ValidationError {
    match c {
        Constraint::Signer => ValidationError::NotSigner { slot },
        Constraint::Writable => ValidationError::NotWritable { slot },
        Constraint::Owner(_) => ValidationError::OwnerMismatch { slot },
        Constraint::Derived(_) => ValidationError::DerivationMismatch { slot },
    }
}

/// Outcome of checking `account`, supplied at `slot`, against the
/// constraints from position `k` on: the first failing one decides.
pub open spec fn slot_outcome_from(
    cs: Seq<Constraint>,
    account: AccountRef,
    program_id: Seq<u8>,
    slot: usize,
    k: int,
) -> Result<(), ValidationError>
    decreases cs.len() - k,
{
    if k < 0 || k >= cs.len() {
        Ok(())
    } else if !constraint_holds(cs[k], account, program_id) {
        Err(violation(cs[k], slot))
    } else {
        slot_outcome_from(cs, account, program_id, slot, k + 1)
    }
}

/// Outcome of checking `account`, supplied at `slot`, against a slot's
/// constraints.
pub open spec fn slot_outcome(
    cs: Seq<Constraint>,
    account: AccountRef,
    program_id: Seq<u8>,
    slot: usize,
) -> Result<(), ValidationError> {
    slot_outcome_from(cs, account, program_id, slot, 0)
}

/// Outcome of validating `accounts` against the slots of `schema` from
/// position `i` on: slots are checked in order, existence first, and the
/// first failure decides; accounts beyond the schema are rejected.
pub open spec fn validation_from(
    schema: Seq<AccountSlot>,
    accounts: Seq<AccountRef>,
    program_id: Seq<u8>,
    i: int,
) -> Result<(), ValidationError>
    decreases schema.len() - i,
{
    if i < 0 || i >= schema.len() {
        if accounts.len() > schema.len() {
            Err(ValidationError::UnexpectedAccount { slot: schema.len() as usize })
        } else {
            Ok(())
        }
    } else if i >= accounts.len() {
        Err(ValidationError::MissingAccount { slot: i as usize })
    } else {
        match slot_outcome(schema[i].constraints@, accounts[i], program_id, i as usize) {
            Err(e) => Err(e),
            Ok(()) => validation_from(schema, accounts, program_id, i + 1),
        }
    }
}

/// Outcome of validating `accounts` against `schema` in a program whose id is
/// `program_id`.
pub open spec fn validation(
    schema: Seq<AccountSlot>,
    accounts: Seq<AccountRef>,
    program_id: Seq<u8>,
) -> Result<(), ValidationError> {
    validation_from(schema, accounts, program_id, 0)
}

/// Checks `account` against `c`, given `derived`, the outcome of the
/// derivation that a `Derived` constraint asks for (ignored otherwise).
pub fn check_constraint(c: &Constraint, account: &AccountRef, derived: &Option<Address>) -> (r: bool)
    ensures
        r == constraint_met(*c, *account, derived_view(*derived)),
{
    match c {
        Constraint::Signer => account.is_signer,
        Constraint::Writable => account.is_writable,
        Constraint::Owner(o) => account.owner.same_as(o),
        Constraint::Derived(_) => match derived {
            Some(d) => account.key.same_as(d),
            None => false,
        },
    }
}

/// The view of a derivation outcome.
pub open spec fn derived_view(d: Option<Address>) -> Option<Seq<u8>> {
    match d {
        Some(a) => Some(a@),
        None => None,
    }
}

/// Checks `account` against `c` in a program whose id is `program_id`,
/// deriving the expected address where `c` asks for one.
fn constraint_holds_exec(c: &Constraint, account: &AccountRef, program_id: &Address) -> (r: bool)
    ensures
        r == constraint_holds(*c, *account, program_id@),
{
    let derived = match c {
        Constraint::Derived(seeds) => derive_program_address(seeds, program_id),
        _ => None,
    };
    check_constraint(c, account, &derived)
}

/// The error reported for the account at `slot` failing `c`.
fn violation_exec(c: &Constraint, slot: usize) -> (r: ValidationError)
    ensures
        r == violation(*c, slot),
{
    match c {
        Constraint::Signer => ValidationError::NotSigner { slot },
        Constraint::Writable => ValidationError::NotWritable { slot },
        Constraint::Owner(_) => ValidationError::OwnerMismatch { slot },
        Constraint::Derived(_) => ValidationError::DerivationMismatch { slot },
    }
}

/// Checks `account`, supplied at position `slot`, against each constraint of
/// `slot_def` in order; the first that fails decides the error.
pub fn check_slot(slot_def: &AccountSlot, slot: usize, account: &AccountRef, program_id: &Address) -> (r:
    Result<(), ValidationError>)
    ensures
        r == slot_outcome(slot_def.constraints@, *account, program_id@, slot),
{
    let cs = &slot_def.constraints;
    let mut k: usize = 0;
    while k < cs.len()
        invariant
            0 <= k <= cs@.len(),
            cs@ == slot_def.constraints@,
            slot_outcome(cs@, *account, program_id@, slot) == slot_outcome_from(
                cs@,
                *account,
                program_id@,
                slot,
                k as int,
            ),
        decreases cs@.len() - k,
    {
        if !constraint_holds_exec(&cs[k], account, program_id) {
            return Err(violation_exec(&cs[k], slot));
        }
        k = k + 1;
    }
    Ok(())
}

/// The validated accounts of one invocation. Only `validate` builds one, and
/// only after every constraint of its schema was met; it is never partially
/// valid.
#[derive(Debug)]
pub struct AccountContext {
    accounts: Vec<AccountRef>,
}

impl View for AccountContext {
    type V = Seq<AccountRef>;

    closed spec fn view(&self) -> Seq<AccountRef> {
        self.accounts@
    }
}

impl AccountContext {
    /// Number of validated accounts.
    pub fn len(&self) -> (r: usize)
        ensures
            r == self@.len(),
    {
        self.accounts.len()
    }

    /// The validated account at position `i`.
    pub fn get(&self, i: usize) -> (r: &AccountRef)
        requires
            i < self@.len(),
        ensures
            *r == self@[i as int],
    {
        &self.accounts[i]
    }
}

/// Validates `accounts` against `schema` in a program whose id is
/// `program_id`. On success the accounts, unchanged, form the context; on
/// failure the error names the first offending slot and constraint.
pub fn validate(schema: &Vec<AccountSlot>, accounts: Vec<AccountRef>, program_id: &Address) -> (r:
    Result<AccountContext, ValidationError>)
    ensures
        r is Ok <==> validation(schema@, accounts@, program_id@) is Ok,
        r matches Ok(ctx) ==> ctx@ == accounts@,
        r matches Err(e) ==> validation(schema@, accounts@, program_id@) == Err::<(), _>(e),
{
    let mut i: usize = 0;
    while i < schema.len()
        invariant
            0 <= i <= schema@.len(),
            validation(schema@, accounts@, program_id@) == validation_from(
                schema@,
                accounts@,
                program_id@,
                i as int,
            ),
        decreases schema@.len() - i,
    {
        if i >= accounts.len() {
            return Err(ValidationError::MissingAccount { slot: i });
        }
        match check_slot(&schema[i], i, &accounts[i], program_id) {
            Err(e) => {
                return Err(e);
            },
            Ok(()) => {},
        }
        i = i + 1;
    }
    if accounts.len() > schema.len() {
        return Err(ValidationError::UnexpectedAccount { slot: schema.len() });
    }
    Ok(AccountContext { accounts })
}

} // verus!
