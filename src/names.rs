//! Fixed-width encoding of module and call names.
use vstd::prelude::*;
use vstd::string::StringSliceAdditionalSpecFns;

verus! {

/// Width in bytes of an encoded module or call name.
pub const NAME_LENGTH: usize = 36;

/// A module name, right-padded with zero bytes.
pub type PalletName = [u8; 36];

/// A call name, right-padded with zero bytes.
pub type CallName = [u8; 36];

/// Why the admission check turned a call away.
#[derive(Clone, Copy, Debug, PartialEq, Eq, Structural)]
pub enum Rejection {
    /// A module or call name is longer than `NAME_LENGTH` bytes.
    NameTooLong,
    /// The caller holds no grant for the targeted call.
    Unauthorized,
}

/// The fixed-width form of a name of at most `NAME_LENGTH` bytes: the bytes
/// themselves, then zero bytes up to the full width.
pub open spec fn encode_name(b: Seq<u8>) -> Seq<u8>
    recommends
        b.len() <= NAME_LENGTH,
{
    b + Seq::new((NAME_LENGTH - b.len()) as nat, |i: int| 0u8)
}

/// Encodes `name` into a fixed-width buffer. A name longer than the width is
/// refused, never truncated.
pub fn validate_name(name: &str) -> (r: Result<[u8; 36], Rejection>)
    ensures
        name.spec_bytes().len() > NAME_LENGTH ==> r == Err::<[u8; 36], Rejection>(
            Rejection::NameTooLong,
        ),
        name.spec_bytes().len() <= NAME_LENGTH ==> r is Ok && r->Ok_0@ == encode_name(
            name.spec_bytes(),
        ),
{
    let bytes = name.as_bytes();
    if bytes.len() > NAME_LENGTH {
        return Err(Rejection::NameTooLong);
    }
    let mut out = [0u8; 36];
    let mut i: usize = 0;
    while i < bytes.len()
        invariant
            bytes@ == name.spec_bytes(),
            bytes@.len() <= NAME_LENGTH,
            0 <= i <= bytes@.len(),
            out@.len() == NAME_LENGTH,
            forall|j: int| 0 <= j < i ==> out@[j] == bytes@[j],
            forall|j: int| i <= j < NAME_LENGTH ==> out@[j] == 0u8,
        decreases bytes@.len() - i,
    {
        out[i] = bytes[i];
        i = i + 1;
    }
    assert(out@ =~= encode_name(bytes@));
    Ok(out)
}

} // verus!
