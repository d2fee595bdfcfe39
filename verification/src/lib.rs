//! A built-in-operation registry for an EVM-style inline-assembly dialect.
//!
//! Given a bare identifier found in an assembly call position, the registry
//! answers whether it names a supported low-level operation (and with what
//! calling contract), whether it is a recognized but deliberately unsupported
//! higher-level operation, or whether it is simply unknown. All state is
//! immutable catalog data; every query is a pure function over it.

pub mod builtin;
pub mod consistency;
pub mod lookup;

pub use builtin::AssemblyBuiltInFunction;
pub use builtin::AssemblyBuiltinPrototype;
pub use builtin::BUILTIN_COUNT;
pub use builtin::builtin_catalog;
pub use lookup::assembly_unsupported_builtin;
pub use lookup::parse_builtin_keyword;
