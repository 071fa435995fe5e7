//! Random bytes from the operating system.

use crate::secret::Secret;
use rand::rngs::{SysError, SysRng};
use rand::TryRng;
use vstd::prelude::*;

verus! {

/// The error that the operating system's generator reports, `rand::rngs::SysError`.
#[verifier::external_type_specification]
#[verifier::external_body]
pub struct ExSysError(SysError);

/// Errors returned by the OS-RNG utilities in this module.
#[derive(Debug, Clone, Copy, PartialEq, Eq, Structural)]
pub enum CRandErrors {
    /// The OS RNG failed to supply entropy (e.g. `getrandom` syscall error).
    FailedToFillBuffer,
}

impl CRandErrors {
    /// The text shown to a user.
    pub open spec fn message(self) -> Seq<char> {
        match self {
            CRandErrors::FailedToFillBuffer => "failed to fill buffer with random data"@,
        }
    }

    /// Renders the error for a user.
    pub fn to_string(&self) -> (text: String)
        ensures
            text@ == self.message(),
    {
        match self {
            CRandErrors::FailedToFillBuffer => "failed to fill buffer with random data".to_owned(),
        }
    }
}

/// Fills a buffer from the operating system's generator.
///
/// Calls `rand::rngs::SysRng::try_fill_bytes`; trusted to keep the buffer's length, and to succeed on
/// an empty buffer, for which the system is not asked. What it writes into any other, and whether it
/// succeeds there, is chance and left unsaid.
#[verifier::external_body]
fn fill_from_system(buf: &mut [u8]) -> (filled: Result<(), SysError>)
    ensures
        final(buf)@.len() == old(buf)@.len(),
        old(buf)@.len() == 0 ==> filled is Ok,
{
    SysRng.try_fill_bytes(buf)
}

/// Asks the operating system for `SIZE` random bytes: its answer, and the buffer that it was given
/// to fill.
fn ask_system<const SIZE: usize>() -> (asked: (Result<(), SysError>, Secret<SIZE>))
    ensures
        SIZE == 0 ==> asked.0 is Ok,
{
    let mut output: Secret<SIZE> = Secret::new([0u8; SIZE]);
    let filled = fill_from_system(&mut output.bytes);
    (filled, output)
}

/// Whether these are `SIZE` bytes that the operating system supplied when it was asked for as many.
pub closed spec fn os_supplied<const SIZE: usize>(bytes: Seq<u8>) -> bool {
    exists|asked: (Result<(), SysError>, Secret<SIZE>)|
        asked.0 is Ok && asked.1@ == bytes && #[trigger] call_ensures(
            ask_system::<SIZE>,
            (),
            asked,
        )
}

/// Whether the operating system supplied nothing when it was asked for `SIZE` bytes.
pub closed spec fn os_refused<const SIZE: usize>() -> bool {
    exists|asked: (Result<(), SysError>, Secret<SIZE>)|
        asked.0 is Err && #[trigger] call_ensures(ask_system::<SIZE>, (), asked)
}

/// Whether this is what came of a draw of `SIZE` bytes: bytes that the operating system supplied, or
/// none because it refused.
pub open spec fn os_answered<const SIZE: usize>(bytes: Option<Seq<u8>>) -> bool {
    match bytes {
        Some(bytes) => os_supplied::<SIZE>(bytes),
        None => os_refused::<SIZE>(),
    }
}

/// What the operating system supplies has the size that was asked for, and where nothing is asked
/// for it refuses nothing.
pub proof fn law_os_answers<const SIZE: usize>(bytes: Seq<u8>)
    ensures
        os_supplied::<SIZE>(bytes) ==> bytes.len() == SIZE,
        SIZE == 0 ==> !os_refused::<SIZE>(),
{
}

/// What a draw comes to: the bytes where the generator filled the buffer, the error where it did
/// not.
pub fn drawn<const SIZE: usize>(filled: Result<(), SysError>, output: Secret<SIZE>) -> (r: Result<
    Secret<SIZE>,
    CRandErrors,
>)
    ensures
        r == (match filled {
            Ok(_) => Ok::<Secret<SIZE>, CRandErrors>(output),
            Err(_) => Err(CRandErrors::FailedToFillBuffer),
        }),
{
    match filled {
        Ok(()) => Ok(output),
        Err(_) => Err(CRandErrors::FailedToFillBuffer),
    }
}

/// What a draw leaves a caller that goes on without it: the bytes, or nothing where it failed.
pub fn supplied<const SIZE: usize>(draw: Result<Secret<SIZE>, CRandErrors>) -> (bytes: Option<
    Secret<SIZE>,
>)
    ensures
        bytes == (match draw {
            Ok(output) => Some(output),
            Err(_) => None,
        }),
{
    match draw {
        Ok(output) => Some(output),
        Err(_) => None,
    }
}

/// Returns cryptographically secure random bytes sourced directly from the OS.
///
/// Which bytes they are, and whether the OS supplies them, is chance: any array of `SIZE` bytes may
/// come back, or the one error. No bytes at all are always there. The buffer is wiped when it is
/// dropped.
pub fn random_array<const SIZE: usize>() -> (r: Result<Secret<SIZE>, CRandErrors>)
    ensures
        match r {
            Ok(output) => output@.len() == SIZE && os_supplied::<SIZE>(output@),
            Err(e) => SIZE > 0 && e == CRandErrors::FailedToFillBuffer && os_refused::<SIZE>(),
        },
{
    let (filled, output) = ask_system::<SIZE>();
    drawn(filled, output)
}

} // verus!
