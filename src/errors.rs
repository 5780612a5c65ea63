use vstd::prelude::*;

verus! {

/// Every way in which an operation of the protocol can be rejected.
#[derive(Clone, Copy, Debug, PartialEq, Eq, Structural)]
pub enum ErrorCode {
    /// Arithmetic left the range of its type, or a conversion divided by a zero price.
    Overflow,
    /// A certificate cannot be sent back to the uninitialized state.
    UninitializedCert,
    /// The certificate's state does not allow printing.
    NotPrintable,
    /// The certificate's state does not allow burning.
    NotBurnable,
    /// A burn asks for more than the cheque holds.
    InsufficientLedger,
    /// The signer is not the authority that the record names.
    Unauthorized,
    /// The accounts handed in do not belong to one another.
    MismatchedAccount,
}

} // verus!
