//! The default delegate type of the identity layer.

use vstd::prelude::*;

verus! {

/// Longest delegate type, in bytes.
pub const MAX_DELEGATE_TYPE_LEN: u32 = 64;

/// The default delegate type, the ASCII text `x25519VerificationKey2018`.
pub open spec fn default_delegate_type() -> Seq<u8> {
    seq![
        0x78u8, 0x32, 0x35, 0x35, 0x31, 0x39, 0x56, 0x65, 0x72, 0x69, 0x66, 0x69, 0x63, 0x61,
        0x74, 0x69, 0x6f, 0x6e, 0x4b, 0x65, 0x79, 0x32, 0x30, 0x31, 0x38,
    ]
}

/// Supplies the delegate type that is used where none is named.
#[derive(Clone, Copy, Debug, PartialEq, Eq)]
pub struct DelegateTypeProvider;

impl DelegateTypeProvider {
    /// The default delegate type. It is within the bound on delegate types.
    pub fn get() -> (delegate_type: Vec<u8>)
        ensures
            delegate_type@ == default_delegate_type(),
            delegate_type@.len() <= MAX_DELEGATE_TYPE_LEN,
    {
        let delegate_type: Vec<u8> = vec![
            0x78u8, 0x32, 0x35, 0x35, 0x31, 0x39, 0x56, 0x65, 0x72, 0x69, 0x66, 0x69, 0x63, 0x61,
            0x74, 0x69, 0x6f, 0x6e, 0x4b, 0x65, 0x79, 0x32, 0x30, 0x31, 0x38,
        ];
        assert(delegate_type@ =~= default_delegate_type());
        delegate_type
    }
}

} // verus!
