//! What a type must offer to be read from, and written to, account bytes.

use vstd::prelude::*;
use vstd::slice::slice_subrange;
use crate::bytes::write_prefix;
use crate::error::ProgramError;

verus! {

/// Plain data with a fixed byte layout: every value has an image of exactly
/// `LEN` bytes, and every buffer of `LEN` bytes stands for a value.
///
/// `decode` and `encode` say in contracts what the layout is; an
/// implementation gives them a body and proves its two methods against it.
pub trait Pod: Sized {
    /// The size of the byte image.
    const LEN: usize;

    /// The value that a byte image stands for.
    open spec fn decode(bytes: Seq<u8>) -> Self {
        arbitrary()
    }

    /// The byte image of a value.
    open spec fn encode(&self) -> Seq<u8> {
        arbitrary()
    }

    /// Reads a value from its byte image.
    fn from_bytes(bytes: &[u8]) -> (value: Self)
        requires
            bytes@.len() == Self::LEN,
        ensures
            value == Self::decode(bytes@),
    ;

    /// Writes out the byte image of a value.
    fn to_bytes(&self) -> (bytes: Vec<u8>)
        ensures
            bytes@ == self.encode(),
            bytes@.len() == Self::LEN,
    ;
}

/// A persisted structure: plain data whose first byte on the wire is its
/// discriminator. The value 0 is kept for accounts not yet initialized.
pub trait Loadable: Pod {
    /// The byte that identifies this type within one program's accounts.
    const DISCRIMINATOR: u8;
}

/// A persisted structure that has logic of its own for filling a fresh
/// buffer, beyond the discriminator byte.
pub trait Initializable: Loadable {
    /// What the initialization needs to be told.
    type InitParams;

    /// Fills `data` from `params`.
    fn init(data: &mut [u8], params: Self::InitParams) -> Result<(), ProgramError>;
}

/// Whether `data` is not empty and starts with `expected`.
pub open spec fn has_discriminator(data: Seq<u8>, expected: u8) -> bool {
    data.len() > 0 && data[0] == expected
}

/// Whether account data carries the expected discriminator.
pub fn check_discriminator(data: &[u8], expected: u8) -> (matches: bool)
    ensures
        matches == has_discriminator(data@, expected),
{
    data.len() > 0 && data[0] == expected
}

/// The value that the first `LEN` bytes of a buffer stand for.
pub open spec fn typed<T: Pod>(data: Seq<u8>) -> T {
    T::decode(data.subrange(0, T::LEN as int))
}

/// A buffer with the image of `value` in place of its first `LEN` bytes.
pub open spec fn retyped<T: Pod>(data: Seq<u8>, value: T) -> Seq<u8> {
    value.encode() + data.subrange(T::LEN as int, data.len() as int)
}

/// A discriminator as it stands in a persisted structure: the byte itself,
/// then seven bytes of 0.
pub fn discriminator_bytes(discriminator: u8) -> (bytes: [u8; 8])
    ensures
        bytes@ == seq![discriminator, 0u8, 0u8, 0u8, 0u8, 0u8, 0u8, 0u8],
{
    let bytes = [discriminator, 0, 0, 0, 0, 0, 0, 0];
    assert(bytes@ =~= seq![discriminator, 0u8, 0u8, 0u8, 0u8, 0u8, 0u8, 0u8]);
    bytes
}

/// What reading a buffer as a structure of `len` bytes checks: its size,
/// then its discriminator.
pub open spec fn buffer_check(data: Seq<u8>, len: nat, discriminator: u8) -> Result<
    (),
    ProgramError,
> {
    if data.len() < len {
        Err(ProgramError::InvalidAccountData)
    } else if !has_discriminator(data, discriminator) {
        Err(ProgramError::InvalidAccountData)
    } else {
        Ok(())
    }
}

/// A persisted structure that carries its discriminator in a field of eight
/// bytes, and can be read from a buffer and changed in it by itself.
pub trait Account: Pod {
    /// The byte that identifies this type within one program's accounts.
    const DISCRIMINATOR: u8;

    /// The discriminator field of a value.
    open spec fn discriminator_field(&self) -> Seq<u8> {
        arbitrary()
    }

    /// The discriminator field.
    fn discriminator(&self) -> (field: &[u8; 8])
        ensures
            field@ == self.discriminator_field(),
    ;

    /// Whether the discriminator field starts with the discriminator of the
    /// type.
    fn verify_discriminator(&self) -> (matches: bool)
        ensures
            matches == (self.discriminator_field()[0] == Self::DISCRIMINATOR),
    {
        self.discriminator()[0] == Self::DISCRIMINATOR
    }

    /// Whether a buffer starts with the discriminator of the type.
    fn check_data(data: &[u8]) -> (matches: bool)
        ensures
            matches == has_discriminator(data@, Self::DISCRIMINATOR),
    {
        check_discriminator(data, Self::DISCRIMINATOR)
    }

    /// Reads a value from a buffer, after checking its size and its
    /// discriminator.
    fn load(data: &[u8]) -> (r: Result<Self, ProgramError>)
        ensures
            match r {
                Ok(value) => buffer_check(data@, Self::LEN as nat, Self::DISCRIMINATOR) is Ok
                    && value == typed::<Self>(data@),
                Err(e) => buffer_check(data@, Self::LEN as nat, Self::DISCRIMINATOR) == Err::<
                    (),
                    ProgramError,
                >(e),
            },
    {
        if data.len() < Self::LEN {
            return Err(ProgramError::InvalidAccountData);
        }
        if !Self::check_data(data) {
            return Err(ProgramError::InvalidAccountData);
        }
        Ok(Self::from_bytes(slice_subrange(data, 0, Self::LEN)))
    }

    /// Changes the value in a buffer, after checking its size and its
    /// discriminator: `update` is given the value, and what it returns is
    /// written over the first `LEN` bytes. A buffer that fails the checks is
    /// left as it was.
    fn load_mut<G: FnOnce(Self) -> Self>(data: &mut [u8], update: G) -> (r: Result<
        (),
        ProgramError,
    >)
        requires
            buffer_check(old(data)@, Self::LEN as nat, Self::DISCRIMINATOR) is Ok
                ==> update.requires(
                (typed::<Self>(old(data)@),),
            ),
        ensures
            match r {
                Ok(()) => buffer_check(old(data)@, Self::LEN as nat, Self::DISCRIMINATOR) is Ok
                    && exists|value: Self| #[trigger]
                    update.ensures((typed::<Self>(old(data)@),), value) && final(data)@
                        == retyped::<Self>(old(data)@, value),
                Err(e) => buffer_check(old(data)@, Self::LEN as nat, Self::DISCRIMINATOR) == Err::<
                    (),
                    ProgramError,
                >(e)
                    && final(data)@ == old(data)@,
            },
    {
        if data.len() < Self::LEN {
            return Err(ProgramError::InvalidAccountData);
        }
        if !Self::check_data(data) {
            return Err(ProgramError::InvalidAccountData);
        }
        Self::load_unchecked_mut(data, update);
        Ok(())
    }

    /// Reads a value from a buffer that is long enough, without looking at
    /// its discriminator.
    fn load_unchecked(data: &[u8]) -> (value: Self)
        requires
            data@.len() >= Self::LEN,
        ensures
            value == typed::<Self>(data@),
    {
        Self::from_bytes(slice_subrange(data, 0, Self::LEN))
    }

    /// Changes the value in a buffer that is long enough, without looking at
    /// its discriminator.
    fn load_unchecked_mut<G: FnOnce(Self) -> Self>(data: &mut [u8], update: G)
        requires
            old(data)@.len() >= Self::LEN,
            update.requires((typed::<Self>(old(data)@),)),
        ensures
            exists|value: Self| #[trigger]
                update.ensures((typed::<Self>(old(data)@),), value) && final(data)@
                    == retyped::<Self>(old(data)@, value),
    {
        let current = Self::from_bytes(slice_subrange(data, 0, Self::LEN));
        let next = update(current);
        let image = next.to_bytes();
        write_prefix(data, image.as_slice());
    }
}

} // verus!
