//! The instruction protocol: routing by discriminator, decoding the
//! parameter block, then build, validate and execute in this order.
//!
//! The first byte of an instruction buffer selects the handler, and the bytes
//! after it are the handler's parameter block. `route` takes the first byte
//! off; `Instruction::process` and `parse_params` are handed what follows it
//! and decode from its first byte.

use vstd::prelude::*;
use vstd::slice::slice_subrange;
use crate::address::Address;
use crate::error::ProgramError;
use crate::handle::AccountHandle;
use crate::traits::Pod;
use crate::wrappers::rules::typed;

verus! {

/// Names the parameter block of an instruction.
pub trait InstructionParams {
    /// The fixed-layout parameter block.
    type Params: Pod;
}

/// What decoding a parameter block from `data` gives: the value that its
/// first `LEN` bytes stand for, or `InvalidInstructionData` for a buffer
/// that is too short.
pub open spec fn decoded_params<P: Pod>(data: Seq<u8>) -> Result<P, ProgramError> {
    if data.len() < P::LEN {
        Err(ProgramError::InvalidInstructionData)
    } else {
        Ok(typed::<P>(data))
    }
}

/// Decodes a parameter block from the start of `data`.
pub fn parse_params<P: Pod>(data: &[u8]) -> (r: Result<P, ProgramError>)
    ensures
        r == decoded_params::<P>(data@),
{
    if data.len() < P::LEN {
        return Err(ProgramError::InvalidInstructionData);
    }
    Ok(P::from_bytes(slice_subrange(data, 0, P::LEN)))
}

/// Decoding the image of a parameter block gives the block back, whatever
/// follows the image in the buffer, for a block whose image has `LEN` bytes
/// and stands for the block.
pub proof fn lemma_params_round_trip<P: Pod>(params: P, rest: Seq<u8>)
    requires
        params.encode().len() == P::LEN,
        P::decode(params.encode()) == params,
    ensures
        decoded_params::<P>(params.encode() + rest) == Ok::<P, ProgramError>(params),
{
    assert((params.encode() + rest).subrange(0, P::LEN as int) =~= params.encode());
}

/// Whether `handler` is the first position in `registered` that holds
/// `discriminator`.
pub open spec fn is_first_handler(registered: Seq<u8>, discriminator: u8, handler: int) -> bool {
    &&& 0 <= handler < registered.len()
    &&& registered[handler] == discriminator
    &&& forall|j: int| 0 <= j < handler ==> registered[j] != discriminator
}

/// What routing an instruction buffer against the registered discriminators
/// gives: the position of the first handler registered under the buffer's
/// first byte, or `InvalidInstructionData` for an empty buffer and for a
/// byte that no handler is registered under.
pub open spec fn routed(registered: Seq<u8>, data: Seq<u8>) -> Result<int, ProgramError> {
    if data.len() == 0 || !registered.contains(data[0]) {
        Err(ProgramError::InvalidInstructionData)
    } else {
        Ok(choose|handler: int| is_first_handler(registered, data[0], handler))
    }
}

/// Selects the handler of an instruction buffer: the position in
/// `registered` of the buffer's first byte, beside the bytes that follow it,
/// which are the handler's parameter block.
pub fn route<'d>(registered: &[u8], data: &'d [u8]) -> (r: Result<(usize, &'d [u8]), ProgramError>)
    ensures
        match r {
            Ok((handler, params)) => routed(registered@, data@) == Ok::<int, ProgramError>(
                handler as int,
            ) && is_first_handler(registered@, data@[0], handler as int) && params@
                == data@.subrange(1, data@.len() as int),
            Err(e) => routed(registered@, data@) == Err::<int, ProgramError>(e),
        },
{
    if data.len() == 0 {
        return Err(ProgramError::InvalidInstructionData);
    }
    let discriminator = data[0];
    let mut i: usize = 0;
    while i < registered.len()
        invariant
            i <= registered@.len(),
            data@.len() > 0,
            discriminator == data@[0],
            forall|j: int| 0 <= j < i ==> registered@[j] != discriminator,
        decreases registered@.len() - i,
    {
        if registered[i] == discriminator {
            proof {
                assert(registered@.contains(discriminator));
                assert(is_first_handler(registered@, discriminator, i as int));
                let first = choose|handler: int|
                    is_first_handler(registered@, discriminator, handler);
                assert(first == i as int);
            }
            return Ok((i, slice_subrange(data, 1, data.len())));
        }
        i += 1;
    }
    proof {
        if registered@.contains(discriminator) {
            let at = choose|j: int| 0 <= j < registered@.len() && registered@[j] == discriminator;
            assert(false);
        }
    }
    Err(ProgramError::InvalidInstructionData)
}

/// An instruction handler: its context is built from the accounts, then
/// validated without being changed, then executed.
pub trait Instruction<'a>: InstructionParams + Sized {
    /// Builds the context from the accounts, in the order in which the
    /// instruction declares them. Every accessor and wrapper is constructed
    /// here, so every structural check has passed once this returns `Ok`.
    fn build(accounts: &'a mut [AccountHandle], params: &Self::Params) -> Result<
        Self,
        ProgramError,
    >;

    /// Checks what the structural checks cannot express. The context is
    /// shared, not exclusive: nothing can be written through it.
    fn validate(&self, program_id: &Address, params: &Self::Params) -> Result<(), ProgramError>;

    /// Performs the changes.
    fn execute(&mut self, program_id: &Address, params: &Self::Params) -> Result<
        (),
        ProgramError,
    >;

    /// Runs the instruction on its parameter bytes: decode, build, validate,
    /// execute, each only after the one before it has succeeded; the first
    /// failure is the outcome.
    ///
    /// Where the bytes are too short for the parameter block, nothing is
    /// built and the accounts stay as they were. Otherwise `build` is given
    /// the accounts and the decoded block. Where it fails, its error is the
    /// outcome. Where it succeeds, `validate` is given the context that it
    /// built; where that fails, its error is the outcome and the context is
    /// let go as `build` made it, `execute` never having run. Only then
    /// `execute` is given the same context, and its result is the outcome.
    fn process(program_id: &Address, accounts: &'a mut [AccountHandle], data: &[u8]) -> (r: Result<
        (),
        ProgramError,
    >)
        ensures
            match decoded_params::<Self::Params>(data@) {
                Err(e) => r == Err::<(), ProgramError>(e) && final(accounts)@ == old(accounts)@,
                Ok(params) => exists|
                    list: &'a mut [AccountHandle],
                    built: Result<Self, ProgramError>,
                |
                    list@ == old(accounts)@ && final(list)@ == final(accounts)@ && #[trigger]
                    call_ensures(Self::build, (list, &params), built) && match built {
                        Err(e) => r == Err::<(), ProgramError>(e),
                        Ok(context) => exists|validated: Result<(), ProgramError>| #[trigger]
                            call_ensures(Self::validate, (&context, program_id, &params), validated)
                                && match validated {
                                Err(e) => r == Err::<(), ProgramError>(e) && has_resolved(context),
                                Ok(()) => exists|running: &mut Self|
                                    *running == context && has_resolved(*final(running))
                                        && #[trigger] call_ensures(
                                        Self::execute,
                                        (running, program_id, &params),
                                        r,
                                    ),
                            },
                    },
            },
    {
        let params = match parse_params::<Self::Params>(data) {
            Ok(params) => params,
            Err(e) => {
                return Err(e);
            },
        };
        let mut context = match Self::build(accounts, &params) {
            Ok(context) => context,
            Err(e) => {
                return Err(e);
            },
        };
        match context.validate(program_id, &params) {
            Ok(()) => {},
            Err(e) => {
                return Err(e);
            },
        }
        context.execute(program_id, &params)
    }
}

} // verus!
