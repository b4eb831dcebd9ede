//! A semantic lint engine: rule checks that run over a type-resolved program
//! representation supplied by a host toolchain.
//!
//! Two checks are provided. The atomic-ordering validator flags atomic
//! `load`/`store` calls whose memory-ordering argument is invalid for the
//! operation. The large-value-pass detector flags by-value parameters whose
//! resolved type is copyable and larger than a configured byte limit.
//!
//! The host owns tree traversal, name/type resolution, layout computation and
//! diagnostic rendering; it hands each check a plain record of its answers
//! (see [`oracle`]) and receives structured [`diagnostics::Diagnostic`]
//! values back.

pub mod diagnostics;
pub mod oracle;
pub mod text;
pub mod validity;
pub mod atomic_ordering;
pub mod large_data_pass_by_val;
pub mod engine;
