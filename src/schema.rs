//! The records that the protocol keeps: printers, certificates and cheques.
pub mod cert;
pub mod cheque;
pub mod printer;
