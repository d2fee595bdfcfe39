//! Consistency laws of the registry's catalog data.
//!
//! The catalog's single most important invariant is the parallelism between
//! an operation's discriminant and its position in the catalog order; the
//! lemmas here pin that down, together with the uniqueness of mnemonics and
//! the disjointness of the catalog from the unsupported-name set.

use vstd::prelude::*;

use crate::builtin::AssemblyBuiltInFunction;
use crate::builtin::BUILTIN_COUNT;
use crate::builtin::spec_discriminant;
use crate::builtin::spec_is_unsupported;
use crate::builtin::spec_name;

verus! {

broadcast use vstd::string::group_string_axioms;

/// Every discriminant is a valid catalog position.
pub proof fn lemma_discriminant_in_range(f: AssemblyBuiltInFunction)
    ensures
        0 <= spec_discriminant(f) < BUILTIN_COUNT,
{
}

/// A discriminant identifies exactly one operation: two operations with the
/// same catalog position are the same operation.
pub proof fn lemma_discriminant_determines_builtin(
    f: AssemblyBuiltInFunction,
    g: AssemblyBuiltInFunction,
)
    requires
        spec_discriminant(f) == spec_discriminant(g),
    ensures
        f == g,
{
}

/// A mnemonic names exactly one operation: no name appears twice in the
/// catalog. Together with the contract of `parse_builtin_keyword` this gives
/// the round-trip law: looking up the name of any operation yields that
/// operation itself.
pub proof fn lemma_name_determines_builtin(
    f: AssemblyBuiltInFunction,
    g: AssemblyBuiltInFunction,
)
    requires
        spec_name(f) == spec_name(g),
    ensures
        f == g,
{
    reveal_strlit("stop");
    reveal_strlit("add");
    reveal_strlit("sub");
    reveal_strlit("mul");
    reveal_strlit("div");
    reveal_strlit("sdiv");
    reveal_strlit("mod");
    reveal_strlit("smod");
    reveal_strlit("exp");
    reveal_strlit("not");
    reveal_strlit("lt");
    reveal_strlit("gt");
    reveal_strlit("slt");
    reveal_strlit("sgt");
    reveal_strlit("eq");
    reveal_strlit("iszero");
    reveal_strlit("and");
    reveal_strlit("or");
    reveal_strlit("xor");
    reveal_strlit("byte");
    reveal_strlit("shl");
    reveal_strlit("shr");
    reveal_strlit("sar");
    reveal_strlit("addmod");
    reveal_strlit("mulmod");
    reveal_strlit("signextend");
    reveal_strlit("keccak256");
    reveal_strlit("pc");
    reveal_strlit("pop");
    reveal_strlit("mload");
    reveal_strlit("mstore");
    reveal_strlit("mstore8");
    reveal_strlit("sload");
    reveal_strlit("sstore");
    reveal_strlit("msize");
    reveal_strlit("gas");
    reveal_strlit("address");
    reveal_strlit("balance");
    reveal_strlit("selfbalance");
    reveal_strlit("caller");
    reveal_strlit("callvalue");
    reveal_strlit("calldataload");
    reveal_strlit("calldatasize");
    reveal_strlit("calldatacopy");
    reveal_strlit("codesize");
    reveal_strlit("codecopy");
    reveal_strlit("extcodesize");
    reveal_strlit("extcodecopy");
    reveal_strlit("returndatasize");
    reveal_strlit("returndatacopy");
    reveal_strlit("extcodehash");
    reveal_strlit("create");
    reveal_strlit("create2");
    reveal_strlit("call");
    reveal_strlit("callcode");
    reveal_strlit("delegatecall");
    reveal_strlit("staticcall");
    reveal_strlit("return");
    reveal_strlit("revert");
    reveal_strlit("selfdestruct");
    reveal_strlit("invalid");
    reveal_strlit("log0");
    reveal_strlit("log1");
    reveal_strlit("log2");
    reveal_strlit("log3");
    reveal_strlit("log4");
    reveal_strlit("chainid");
    reveal_strlit("basefee");
    reveal_strlit("origin");
    reveal_strlit("gasprice");
    reveal_strlit("blockhash");
    reveal_strlit("coinbase");
    reveal_strlit("timestamp");
    reveal_strlit("number");
    reveal_strlit("difficulty");
    reveal_strlit("gaslimit");
    assert("stop"@.len() == 4);
    assert("add"@.len() == 3);
    assert("sub"@.len() == 3);
    assert("mul"@.len() == 3);
    assert("div"@.len() == 3);
    assert("sdiv"@.len() == 4);
    assert("mod"@.len() == 3);
    assert("smod"@.len() == 4);
    assert("exp"@.len() == 3);
    assert("not"@.len() == 3);
    assert("lt"@.len() == 2);
    assert("gt"@.len() == 2);
    assert("slt"@.len() == 3);
    assert("sgt"@.len() == 3);
    assert("eq"@.len() == 2);
    assert("iszero"@.len() == 6);
    assert("and"@.len() == 3);
    assert("or"@.len() == 2);
    assert("xor"@.len() == 3);
    assert("byte"@.len() == 4);
    assert("shl"@.len() == 3);
    assert("shr"@.len() == 3);
    assert("sar"@.len() == 3);
    assert("addmod"@.len() == 6);
    assert("mulmod"@.len() == 6);
    assert("signextend"@.len() == 10);
    assert("keccak256"@.len() == 9);
    assert("pc"@.len() == 2);
    assert("pop"@.len() == 3);
    assert("mload"@.len() == 5);
    assert("mstore"@.len() == 6);
    assert("mstore8"@.len() == 7);
    assert("sload"@.len() == 5);
    assert("sstore"@.len() == 6);
    assert("msize"@.len() == 5);
    assert("gas"@.len() == 3);
    assert("address"@.len() == 7);
    assert("balance"@.len() == 7);
    assert("selfbalance"@.len() == 11);
    assert("caller"@.len() == 6);
    assert("callvalue"@.len() == 9);
    assert("calldataload"@.len() == 12);
    assert("calldatasize"@.len() == 12);
    assert("calldatacopy"@.len() == 12);
    assert("codesize"@.len() == 8);
    assert("codecopy"@.len() == 8);
    assert("extcodesize"@.len() == 11);
    assert("extcodecopy"@.len() == 11);
    assert("returndatasize"@.len() == 14);
    assert("returndatacopy"@.len() == 14);
    assert("extcodehash"@.len() == 11);
    assert("create"@.len() == 6);
    assert("create2"@.len() == 7);
    assert("call"@.len() == 4);
    assert("callcode"@.len() == 8);
    assert("delegatecall"@.len() == 12);
    assert("staticcall"@.len() == 10);
    assert("return"@.len() == 6);
    assert("revert"@.len() == 6);
    assert("selfdestruct"@.len() == 12);
    assert("invalid"@.len() == 7);
    assert("log0"@.len() == 4);
    assert("log1"@.len() == 4);
    assert("log2"@.len() == 4);
    assert("log3"@.len() == 4);
    assert("log4"@.len() == 4);
    assert("chainid"@.len() == 7);
    assert("basefee"@.len() == 7);
    assert("origin"@.len() == 6);
    assert("gasprice"@.len() == 8);
    assert("blockhash"@.len() == 9);
    assert("coinbase"@.len() == 8);
    assert("timestamp"@.len() == 9);
    assert("number"@.len() == 6);
    assert("difficulty"@.len() == 10);
    assert("gaslimit"@.len() == 8);
    assert("stop"@[1] != "sdiv"@[1]);
    assert("stop"@[1] != "smod"@[1]);
    assert("stop"@[0] != "byte"@[0]);
    assert("stop"@[0] != "call"@[0]);
    assert("stop"@[0] != "log0"@[0]);
    assert("stop"@[0] != "log1"@[0]);
    assert("stop"@[0] != "log2"@[0]);
    assert("stop"@[0] != "log3"@[0]);
    assert("stop"@[0] != "log4"@[0]);
    assert("add"@[0] != "sub"@[0]);
    assert("add"@[0] != "mul"@[0]);
    assert("add"@[0] != "div"@[0]);
    assert("add"@[0] != "mod"@[0]);
    assert("add"@[0] != "exp"@[0]);
    assert("add"@[0] != "not"@[0]);
    assert("add"@[0] != "slt"@[0]);
    assert("add"@[0] != "sgt"@[0]);
    assert("add"@[1] != "and"@[1]);
    assert("add"@[0] != "xor"@[0]);
    assert("add"@[0] != "shl"@[0]);
    assert("add"@[0] != "shr"@[0]);
    assert("add"@[0] != "sar"@[0]);
    assert("add"@[0] != "pop"@[0]);
    assert("add"@[0] != "gas"@[0]);
    assert("sub"@[0] != "mul"@[0]);
    assert("sub"@[0] != "div"@[0]);
    assert("sub"@[0] != "mod"@[0]);
    assert("sub"@[0] != "exp"@[0]);
    assert("sub"@[0] != "not"@[0]);
    assert("sub"@[1] != "slt"@[1]);
    assert("sub"@[1] != "sgt"@[1]);
    assert("sub"@[0] != "and"@[0]);
    assert("sub"@[0] != "xor"@[0]);
    assert("sub"@[1] != "shl"@[1]);
    assert("sub"@[1] != "shr"@[1]);
    assert("sub"@[1] != "sar"@[1]);
    assert("sub"@[0] != "pop"@[0]);
    assert("sub"@[0] != "gas"@[0]);
    assert("mul"@[0] != "div"@[0]);
    assert("mul"@[1] != "mod"@[1]);
    assert("mul"@[0] != "exp"@[0]);
    assert("mul"@[0] != "not"@[0]);
    assert("mul"@[0] != "slt"@[0]);
    assert("mul"@[0] != "sgt"@[0]);
    assert("mul"@[0] != "and"@[0]);
    assert("mul"@[0] != "xor"@[0]);
    assert("mul"@[0] != "shl"@[0]);
    assert("mul"@[0] != "shr"@[0]);
    assert("mul"@[0] != "sar"@[0]);
    assert("mul"@[0] != "pop"@[0]);
    assert("mul"@[0] != "gas"@[0]);
    assert("div"@[0] != "mod"@[0]);
    assert("div"@[0] != "exp"@[0]);
    assert("div"@[0] != "not"@[0]);
    assert("div"@[0] != "slt"@[0]);
    assert("div"@[0] != "sgt"@[0]);
    assert("div"@[0] != "and"@[0]);
    assert("div"@[0] != "xor"@[0]);
    assert("div"@[0] != "shl"@[0]);
    assert("div"@[0] != "shr"@[0]);
    assert("div"@[0] != "sar"@[0]);
    assert("div"@[0] != "pop"@[0]);
    assert("div"@[0] != "gas"@[0]);
    assert("sdiv"@[1] != "smod"@[1]);
    assert("sdiv"@[0] != "byte"@[0]);
    assert("sdiv"@[0] != "call"@[0]);
    assert("sdiv"@[0] != "log0"@[0]);
    assert("sdiv"@[0] != "log1"@[0]);
    assert("sdiv"@[0] != "log2"@[0]);
    assert("sdiv"@[0] != "log3"@[0]);
    assert("sdiv"@[0] != "log4"@[0]);
    assert("mod"@[0] != "exp"@[0]);
    assert("mod"@[0] != "not"@[0]);
    assert("mod"@[0] != "slt"@[0]);
    assert("mod"@[0] != "sgt"@[0]);
    assert("mod"@[0] != "and"@[0]);
    assert("mod"@[0] != "xor"@[0]);
    assert("mod"@[0] != "shl"@[0]);
    assert("mod"@[0] != "shr"@[0]);
    assert("mod"@[0] != "sar"@[0]);
    assert("mod"@[0] != "pop"@[0]);
    assert("mod"@[0] != "gas"@[0]);
    assert("smod"@[0] != "byte"@[0]);
    assert("smod"@[0] != "call"@[0]);
    assert("smod"@[0] != "log0"@[0]);
    assert("smod"@[0] != "log1"@[0]);
    assert("smod"@[0] != "log2"@[0]);
    assert("smod"@[0] != "log3"@[0]);
    assert("smod"@[0] != "log4"@[0]);
    assert("exp"@[0] != "not"@[0]);
    assert("exp"@[0] != "slt"@[0]);
    assert("exp"@[0] != "sgt"@[0]);
    assert("exp"@[0] != "and"@[0]);
    assert("exp"@[0] != "xor"@[0]);
    assert("exp"@[0] != "shl"@[0]);
    assert("exp"@[0] != "shr"@[0]);
    assert("exp"@[0] != "sar"@[0]);
    assert("exp"@[0] != "pop"@[0]);
    assert("exp"@[0] != "gas"@[0]);
    assert("not"@[0] != "slt"@[0]);
    assert("not"@[0] != "sgt"@[0]);
    assert("not"@[0] != "and"@[0]);
    assert("not"@[0] != "xor"@[0]);
    assert("not"@[0] != "shl"@[0]);
    assert("not"@[0] != "shr"@[0]);
    assert("not"@[0] != "sar"@[0]);
    assert("not"@[0] != "pop"@[0]);
    assert("not"@[0] != "gas"@[0]);
    assert("lt"@[0] != "gt"@[0]);
    assert("lt"@[0] != "eq"@[0]);
    assert("lt"@[0] != "or"@[0]);
    assert("lt"@[0] != "pc"@[0]);
    assert("gt"@[0] != "eq"@[0]);
    assert("gt"@[0] != "or"@[0]);
    assert("gt"@[0] != "pc"@[0]);
    assert("slt"@[1] != "sgt"@[1]);
    assert("slt"@[0] != "and"@[0]);
    assert("slt"@[0] != "xor"@[0]);
    assert("slt"@[1] != "shl"@[1]);
    assert("slt"@[1] != "shr"@[1]);
    assert("slt"@[1] != "sar"@[1]);
    assert("slt"@[0] != "pop"@[0]);
    assert("slt"@[0] != "gas"@[0]);
    assert("sgt"@[0] != "and"@[0]);
    assert("sgt"@[0] != "xor"@[0]);
    assert("sgt"@[1] != "shl"@[1]);
    assert("sgt"@[1] != "shr"@[1]);
    assert("sgt"@[1] != "sar"@[1]);
    assert("sgt"@[0] != "pop"@[0]);
    assert("sgt"@[0] != "gas"@[0]);
    assert("eq"@[0] != "or"@[0]);
    assert("eq"@[0] != "pc"@[0]);
    assert("iszero"@[0] != "addmod"@[0]);
    assert("iszero"@[0] != "mulmod"@[0]);
    assert("iszero"@[0] != "mstore"@[0]);
    assert("iszero"@[0] != "sstore"@[0]);
    assert("iszero"@[0] != "caller"@[0]);
    assert("iszero"@[0] != "create"@[0]);
    assert("iszero"@[0] != "return"@[0]);
    assert("iszero"@[0] != "revert"@[0]);
    assert("iszero"@[0] != "origin"@[0]);
    assert("iszero"@[0] != "number"@[0]);
    assert("and"@[0] != "xor"@[0]);
    assert("and"@[0] != "shl"@[0]);
    assert("and"@[0] != "shr"@[0]);
    assert("and"@[0] != "sar"@[0]);
    assert("and"@[0] != "pop"@[0]);
    assert("and"@[0] != "gas"@[0]);
    assert("or"@[0] != "pc"@[0]);
    assert("xor"@[0] != "shl"@[0]);
    assert("xor"@[0] != "shr"@[0]);
    assert("xor"@[0] != "sar"@[0]);
    assert("xor"@[0] != "pop"@[0]);
    assert("xor"@[0] != "gas"@[0]);
    assert("byte"@[0] != "call"@[0]);
    assert("byte"@[0] != "log0"@[0]);
    assert("byte"@[0] != "log1"@[0]);
    assert("byte"@[0] != "log2"@[0]);
    assert("byte"@[0] != "log3"@[0]);
    assert("byte"@[0] != "log4"@[0]);
    assert("shl"@[2] != "shr"@[2]);
    assert("shl"@[1] != "sar"@[1]);
    assert("shl"@[0] != "pop"@[0]);
    assert("shl"@[0] != "gas"@[0]);
    assert("shr"@[1] != "sar"@[1]);
    assert("shr"@[0] != "pop"@[0]);
    assert("shr"@[0] != "gas"@[0]);
    assert("sar"@[0] != "pop"@[0]);
    assert("sar"@[0] != "gas"@[0]);
    assert("addmod"@[0] != "mulmod"@[0]);
    assert("addmod"@[0] != "mstore"@[0]);
    assert("addmod"@[0] != "sstore"@[0]);
    assert("addmod"@[0] != "caller"@[0]);
    assert("addmod"@[0] != "create"@[0]);
    assert("addmod"@[0] != "return"@[0]);
    assert("addmod"@[0] != "revert"@[0]);
    assert("addmod"@[0] != "origin"@[0]);
    assert("addmod"@[0] != "number"@[0]);
    assert("mulmod"@[1] != "mstore"@[1]);
    assert("mulmod"@[0] != "sstore"@[0]);
    assert("mulmod"@[0] != "caller"@[0]);
    assert("mulmod"@[0] != "create"@[0]);
    assert("mulmod"@[0] != "return"@[0]);
    assert("mulmod"@[0] != "revert"@[0]);
    assert("mulmod"@[0] != "origin"@[0]);
    assert("mulmod"@[0] != "number"@[0]);
    assert("signextend"@[1] != "staticcall"@[1]);
    assert("signextend"@[0] != "difficulty"@[0]);
    assert("keccak256"@[0] != "callvalue"@[0]);
    assert("keccak256"@[0] != "blockhash"@[0]);
    assert("keccak256"@[0] != "timestamp"@[0]);
    assert("pop"@[0] != "gas"@[0]);
    assert("mload"@[0] != "sload"@[0]);
    assert("mload"@[1] != "msize"@[1]);
    assert("mstore"@[0] != "sstore"@[0]);
    assert("mstore"@[0] != "caller"@[0]);
    assert("mstore"@[0] != "create"@[0]);
    assert("mstore"@[0] != "return"@[0]);
    assert("mstore"@[0] != "revert"@[0]);
    assert("mstore"@[0] != "origin"@[0]);
    assert("mstore"@[0] != "number"@[0]);
    assert("mstore8"@[0] != "address"@[0]);
    assert("mstore8"@[0] != "balance"@[0]);
    assert("mstore8"@[0] != "create2"@[0]);
    assert("mstore8"@[0] != "invalid"@[0]);
    assert("mstore8"@[0] != "chainid"@[0]);
    assert("mstore8"@[0] != "basefee"@[0]);
    assert("sload"@[0] != "msize"@[0]);
    assert("sstore"@[0] != "caller"@[0]);
    assert("sstore"@[0] != "create"@[0]);
    assert("sstore"@[0] != "return"@[0]);
    assert("sstore"@[0] != "revert"@[0]);
    assert("sstore"@[0] != "origin"@[0]);
    assert("sstore"@[0] != "number"@[0]);
    assert("address"@[0] != "balance"@[0]);
    assert("address"@[0] != "create2"@[0]);
    assert("address"@[0] != "invalid"@[0]);
    assert("address"@[0] != "chainid"@[0]);
    assert("address"@[0] != "basefee"@[0]);
    assert("balance"@[0] != "create2"@[0]);
    assert("balance"@[0] != "invalid"@[0]);
    assert("balance"@[0] != "chainid"@[0]);
    assert("balance"@[2] != "basefee"@[2]);
    assert("selfbalance"@[0] != "extcodesize"@[0]);
    assert("selfbalance"@[0] != "extcodecopy"@[0]);
    assert("selfbalance"@[0] != "extcodehash"@[0]);
    assert("caller"@[1] != "create"@[1]);
    assert("caller"@[0] != "return"@[0]);
    assert("caller"@[0] != "revert"@[0]);
    assert("caller"@[0] != "origin"@[0]);
    assert("caller"@[0] != "number"@[0]);
    assert("callvalue"@[0] != "blockhash"@[0]);
    assert("callvalue"@[0] != "timestamp"@[0]);
    assert("calldataload"@[8] != "calldatasize"@[8]);
    assert("calldataload"@[8] != "calldatacopy"@[8]);
    assert("calldataload"@[0] != "delegatecall"@[0]);
    assert("calldataload"@[0] != "selfdestruct"@[0]);
    assert("calldatasize"@[8] != "calldatacopy"@[8]);
    assert("calldatasize"@[0] != "delegatecall"@[0]);
    assert("calldatasize"@[0] != "selfdestruct"@[0]);
    assert("calldatacopy"@[0] != "delegatecall"@[0]);
    assert("calldatacopy"@[0] != "selfdestruct"@[0]);
    assert("codesize"@[4] != "codecopy"@[4]);
    assert("codesize"@[1] != "callcode"@[1]);
    assert("codesize"@[0] != "gasprice"@[0]);
    assert("codesize"@[2] != "coinbase"@[2]);
    assert("codesize"@[0] != "gaslimit"@[0]);
    assert("codecopy"@[1] != "callcode"@[1]);
    assert("codecopy"@[0] != "gasprice"@[0]);
    assert("codecopy"@[2] != "coinbase"@[2]);
    assert("codecopy"@[0] != "gaslimit"@[0]);
    assert("extcodesize"@[7] != "extcodecopy"@[7]);
    assert("extcodesize"@[7] != "extcodehash"@[7]);
    assert("extcodecopy"@[7] != "extcodehash"@[7]);
    assert("returndatasize"@[10] != "returndatacopy"@[10]);
    assert("create"@[0] != "return"@[0]);
    assert("create"@[0] != "revert"@[0]);
    assert("create"@[0] != "origin"@[0]);
    assert("create"@[0] != "number"@[0]);
    assert("create2"@[0] != "invalid"@[0]);
    assert("create2"@[1] != "chainid"@[1]);
    assert("create2"@[0] != "basefee"@[0]);
    assert("call"@[0] != "log0"@[0]);
    assert("call"@[0] != "log1"@[0]);
    assert("call"@[0] != "log2"@[0]);
    assert("call"@[0] != "log3"@[0]);
    assert("call"@[0] != "log4"@[0]);
    assert("callcode"@[0] != "gasprice"@[0]);
    assert("callcode"@[1] != "coinbase"@[1]);
    assert("callcode"@[0] != "gaslimit"@[0]);
    assert("delegatecall"@[0] != "selfdestruct"@[0]);
    assert("staticcall"@[0] != "difficulty"@[0]);
    assert("return"@[2] != "revert"@[2]);
    assert("return"@[0] != "origin"@[0]);
    assert("return"@[0] != "number"@[0]);
    assert("revert"@[0] != "origin"@[0]);
    assert("revert"@[0] != "number"@[0]);
    assert("invalid"@[0] != "chainid"@[0]);
    assert("invalid"@[0] != "basefee"@[0]);
    assert("log0"@[3] != "log1"@[3]);
    assert("log0"@[3] != "log2"@[3]);
    assert("log0"@[3] != "log3"@[3]);
    assert("log0"@[3] != "log4"@[3]);
    assert("log1"@[3] != "log2"@[3]);
    assert("log1"@[3] != "log3"@[3]);
    assert("log1"@[3] != "log4"@[3]);
    assert("log2"@[3] != "log3"@[3]);
    assert("log2"@[3] != "log4"@[3]);
    assert("log3"@[3] != "log4"@[3]);
    assert("chainid"@[0] != "basefee"@[0]);
    assert("origin"@[0] != "number"@[0]);
    assert("gasprice"@[0] != "coinbase"@[0]);
    assert("gasprice"@[3] != "gaslimit"@[3]);
    assert("blockhash"@[0] != "timestamp"@[0]);
    assert("coinbase"@[0] != "gaslimit"@[0]);
}

/// No mnemonic is both supported and deliberately unsupported: the catalog
/// and the unsupported-name set are disjoint.
pub proof fn lemma_unsupported_disjoint_from_catalog(f: AssemblyBuiltInFunction)
    ensures
        !spec_is_unsupported(spec_name(f)),
{
    reveal_strlit("stop");
    reveal_strlit("add");
    reveal_strlit("sub");
    reveal_strlit("mul");
    reveal_strlit("div");
    reveal_strlit("sdiv");
    reveal_strlit("mod");
    reveal_strlit("smod");
    reveal_strlit("exp");
    reveal_strlit("not");
    reveal_strlit("lt");
    reveal_strlit("gt");
    reveal_strlit("slt");
    reveal_strlit("sgt");
    reveal_strlit("eq");
    reveal_strlit("iszero");
    reveal_strlit("and");
    reveal_strlit("or");
    reveal_strlit("xor");
    reveal_strlit("byte");
    reveal_strlit("shl");
    reveal_strlit("shr");
    reveal_strlit("sar");
    reveal_strlit("addmod");
    reveal_strlit("mulmod");
    reveal_strlit("signextend");
    reveal_strlit("keccak256");
    reveal_strlit("pc");
    reveal_strlit("pop");
    reveal_strlit("mload");
    reveal_strlit("mstore");
    reveal_strlit("mstore8");
    reveal_strlit("sload");
    reveal_strlit("sstore");
    reveal_strlit("msize");
    reveal_strlit("gas");
    reveal_strlit("address");
    reveal_strlit("balance");
    reveal_strlit("selfbalance");
    reveal_strlit("caller");
    reveal_strlit("callvalue");
    reveal_strlit("calldataload");
    reveal_strlit("calldatasize");
    reveal_strlit("calldatacopy");
    reveal_strlit("codesize");
    reveal_strlit("codecopy");
    reveal_strlit("extcodesize");
    reveal_strlit("extcodecopy");
    reveal_strlit("returndatasize");
    reveal_strlit("returndatacopy");
    reveal_strlit("extcodehash");
    reveal_strlit("create");
    reveal_strlit("create2");
    reveal_strlit("call");
    reveal_strlit("callcode");
    reveal_strlit("delegatecall");
    reveal_strlit("staticcall");
    reveal_strlit("return");
    reveal_strlit("revert");
    reveal_strlit("selfdestruct");
    reveal_strlit("invalid");
    reveal_strlit("log0");
    reveal_strlit("log1");
    reveal_strlit("log2");
    reveal_strlit("log3");
    reveal_strlit("log4");
    reveal_strlit("chainid");
    reveal_strlit("basefee");
    reveal_strlit("origin");
    reveal_strlit("gasprice");
    reveal_strlit("blockhash");
    reveal_strlit("coinbase");
    reveal_strlit("timestamp");
    reveal_strlit("number");
    reveal_strlit("difficulty");
    reveal_strlit("gaslimit");
    reveal_strlit("datasize");
    reveal_strlit("dataoffset");
    reveal_strlit("datacopy");
    reveal_strlit("setimmutable");
    reveal_strlit("loadimmutable");
    reveal_strlit("linkersymbol");
    reveal_strlit("memoryguard");
    assert("stop"@.len() == 4);
    assert("add"@.len() == 3);
    assert("sub"@.len() == 3);
    assert("mul"@.len() == 3);
    assert("div"@.len() == 3);
    assert("sdiv"@.len() == 4);
    assert("mod"@.len() == 3);
    assert("smod"@.len() == 4);
    assert("exp"@.len() == 3);
    assert("not"@.len() == 3);
    assert("lt"@.len() == 2);
    assert("gt"@.len() == 2);
    assert("slt"@.len() == 3);
    assert("sgt"@.len() == 3);
    assert("eq"@.len() == 2);
    assert("iszero"@.len() == 6);
    assert("and"@.len() == 3);
    assert("or"@.len() == 2);
    assert("xor"@.len() == 3);
    assert("byte"@.len() == 4);
    assert("shl"@.len() == 3);
    assert("shr"@.len() == 3);
    assert("sar"@.len() == 3);
    assert("addmod"@.len() == 6);
    assert("mulmod"@.len() == 6);
    assert("signextend"@.len() == 10);
    assert("keccak256"@.len() == 9);
    assert("pc"@.len() == 2);
    assert("pop"@.len() == 3);
    assert("mload"@.len() == 5);
    assert("mstore"@.len() == 6);
    assert("mstore8"@.len() == 7);
    assert("sload"@.len() == 5);
    assert("sstore"@.len() == 6);
    assert("msize"@.len() == 5);
    assert("gas"@.len() == 3);
    assert("address"@.len() == 7);
    assert("balance"@.len() == 7);
    assert("selfbalance"@.len() == 11);
    assert("caller"@.len() == 6);
    assert("callvalue"@.len() == 9);
    assert("calldataload"@.len() == 12);
    assert("calldatasize"@.len() == 12);
    assert("calldatacopy"@.len() == 12);
    assert("codesize"@.len() == 8);
    assert("codecopy"@.len() == 8);
    assert("extcodesize"@.len() == 11);
    assert("extcodecopy"@.len() == 11);
    assert("returndatasize"@.len() == 14);
    assert("returndatacopy"@.len() == 14);
    assert("extcodehash"@.len() == 11);
    assert("create"@.len() == 6);
    assert("create2"@.len() == 7);
    assert("call"@.len() == 4);
    assert("callcode"@.len() == 8);
    assert("delegatecall"@.len() == 12);
    assert("staticcall"@.len() == 10);
    assert("return"@.len() == 6);
    assert("revert"@.len() == 6);
    assert("selfdestruct"@.len() == 12);
    assert("invalid"@.len() == 7);
    assert("log0"@.len() == 4);
    assert("log1"@.len() == 4);
    assert("log2"@.len() == 4);
    assert("log3"@.len() == 4);
    assert("log4"@.len() == 4);
    assert("chainid"@.len() == 7);
    assert("basefee"@.len() == 7);
    assert("origin"@.len() == 6);
    assert("gasprice"@.len() == 8);
    assert("blockhash"@.len() == 9);
    assert("coinbase"@.len() == 8);
    assert("timestamp"@.len() == 9);
    assert("number"@.len() == 6);
    assert("difficulty"@.len() == 10);
    assert("gaslimit"@.len() == 8);
    assert("datasize"@.len() == 8);
    assert("dataoffset"@.len() == 10);
    assert("datacopy"@.len() == 8);
    assert("setimmutable"@.len() == 12);
    assert("loadimmutable"@.len() == 13);
    assert("linkersymbol"@.len() == 12);
    assert("memoryguard"@.len() == 11);
    assert("signextend"@[0] != "dataoffset"@[0]);
    assert("selfbalance"@[0] != "memoryguard"@[0]);
    assert("calldataload"@[0] != "setimmutable"@[0]);
    assert("calldataload"@[0] != "linkersymbol"@[0]);
    assert("calldatasize"@[0] != "setimmutable"@[0]);
    assert("calldatasize"@[0] != "linkersymbol"@[0]);
    assert("calldatacopy"@[0] != "setimmutable"@[0]);
    assert("calldatacopy"@[0] != "linkersymbol"@[0]);
    assert("codesize"@[0] != "datasize"@[0]);
    assert("codesize"@[0] != "datacopy"@[0]);
    assert("codecopy"@[0] != "datasize"@[0]);
    assert("codecopy"@[0] != "datacopy"@[0]);
    assert("extcodesize"@[0] != "memoryguard"@[0]);
    assert("extcodecopy"@[0] != "memoryguard"@[0]);
    assert("extcodehash"@[0] != "memoryguard"@[0]);
    assert("callcode"@[0] != "datasize"@[0]);
    assert("callcode"@[0] != "datacopy"@[0]);
    assert("delegatecall"@[0] != "setimmutable"@[0]);
    assert("delegatecall"@[0] != "linkersymbol"@[0]);
    assert("staticcall"@[0] != "dataoffset"@[0]);
    assert("selfdestruct"@[2] != "setimmutable"@[2]);
    assert("selfdestruct"@[0] != "linkersymbol"@[0]);
    assert("gasprice"@[0] != "datasize"@[0]);
    assert("gasprice"@[0] != "datacopy"@[0]);
    assert("coinbase"@[0] != "datasize"@[0]);
    assert("coinbase"@[0] != "datacopy"@[0]);
    assert("difficulty"@[1] != "dataoffset"@[1]);
    assert("gaslimit"@[0] != "datasize"@[0]);
    assert("gaslimit"@[0] != "datacopy"@[0]);
}

/// True when a string is made only of lowercase ASCII letters and digits.
pub open spec fn is_lowercase_mnemonic(s: Seq<char>) -> bool {
    forall|i: int| 0 <= i < s.len() ==> 'a' <= #[trigger] s[i] <= 'z' || '0' <= s[i] <= '9'
}

/// Mnemonics are lowercase-only: no catalog name holds an upper-case
/// character, so a lookup of an upper-case spelling never finds anything;
/// no case folding is performed anywhere.
pub proof fn lemma_mnemonics_lowercase(f: AssemblyBuiltInFunction)
    ensures
        is_lowercase_mnemonic(spec_name(f)),
{
    reveal_strlit("stop");
    reveal_strlit("add");
    reveal_strlit("sub");
    reveal_strlit("mul");
    reveal_strlit("div");
    reveal_strlit("sdiv");
    reveal_strlit("mod");
    reveal_strlit("smod");
    reveal_strlit("exp");
    reveal_strlit("not");
    reveal_strlit("lt");
    reveal_strlit("gt");
    reveal_strlit("slt");
    reveal_strlit("sgt");
    reveal_strlit("eq");
    reveal_strlit("iszero");
    reveal_strlit("and");
    reveal_strlit("or");
    reveal_strlit("xor");
    reveal_strlit("byte");
    reveal_strlit("shl");
    reveal_strlit("shr");
    reveal_strlit("sar");
    reveal_strlit("addmod");
    reveal_strlit("mulmod");
    reveal_strlit("signextend");
    reveal_strlit("keccak256");
    reveal_strlit("pc");
    reveal_strlit("pop");
    reveal_strlit("mload");
    reveal_strlit("mstore");
    reveal_strlit("mstore8");
    reveal_strlit("sload");
    reveal_strlit("sstore");
    reveal_strlit("msize");
    reveal_strlit("gas");
    reveal_strlit("address");
    reveal_strlit("balance");
    reveal_strlit("selfbalance");
    reveal_strlit("caller");
    reveal_strlit("callvalue");
    reveal_strlit("calldataload");
    reveal_strlit("calldatasize");
    reveal_strlit("calldatacopy");
    reveal_strlit("codesize");
    reveal_strlit("codecopy");
    reveal_strlit("extcodesize");
    reveal_strlit("extcodecopy");
    reveal_strlit("returndatasize");
    reveal_strlit("returndatacopy");
    reveal_strlit("extcodehash");
    reveal_strlit("create");
    reveal_strlit("create2");
    reveal_strlit("call");
    reveal_strlit("callcode");
    reveal_strlit("delegatecall");
    reveal_strlit("staticcall");
    reveal_strlit("return");
    reveal_strlit("revert");
    reveal_strlit("selfdestruct");
    reveal_strlit("invalid");
    reveal_strlit("log0");
    reveal_strlit("log1");
    reveal_strlit("log2");
    reveal_strlit("log3");
    reveal_strlit("log4");
    reveal_strlit("chainid");
    reveal_strlit("basefee");
    reveal_strlit("origin");
    reveal_strlit("gasprice");
    reveal_strlit("blockhash");
    reveal_strlit("coinbase");
    reveal_strlit("timestamp");
    reveal_strlit("number");
    reveal_strlit("difficulty");
    reveal_strlit("gaslimit");
    match f {
        AssemblyBuiltInFunction::Stop => {
            assert forall|i: int| 0 <= i < "stop"@.len() implies 'a' <= #[trigger] "stop"@[i] <= 'z' || '0' <= "stop"@[i] <= '9' by {
                assert("stop"@.len() == 4);
            }
        },
        AssemblyBuiltInFunction::Add => {
            assert forall|i: int| 0 <= i < "add"@.len() implies 'a' <= #[trigger] "add"@[i] <= 'z' || '0' <= "add"@[i] <= '9' by {
                assert("add"@.len() == 3);
            }
        },
        AssemblyBuiltInFunction::Sub => {
            assert forall|i: int| 0 <= i < "sub"@.len() implies 'a' <= #[trigger] "sub"@[i] <= 'z' || '0' <= "sub"@[i] <= '9' by {
                assert("sub"@.len() == 3);
            }
        },
        AssemblyBuiltInFunction::Mul => {
            assert forall|i: int| 0 <= i < "mul"@.len() implies 'a' <= #[trigger] "mul"@[i] <= 'z' || '0' <= "mul"@[i] <= '9' by {
                assert("mul"@.len() == 3);
            }
        },
        AssemblyBuiltInFunction::Div => {
            assert forall|i: int| 0 <= i < "div"@.len() implies 'a' <= #[trigger] "div"@[i] <= 'z' || '0' <= "div"@[i] <= '9' by {
                assert("div"@.len() == 3);
            }
        },
        AssemblyBuiltInFunction::SDiv => {
            assert forall|i: int| 0 <= i < "sdiv"@.len() implies 'a' <= #[trigger] "sdiv"@[i] <= 'z' || '0' <= "sdiv"@[i] <= '9' by {
                assert("sdiv"@.len() == 4);
            }
        },
        AssemblyBuiltInFunction::Mod => {
            assert forall|i: int| 0 <= i < "mod"@.len() implies 'a' <= #[trigger] "mod"@[i] <= 'z' || '0' <= "mod"@[i] <= '9' by {
                assert("mod"@.len() == 3);
            }
        },
        AssemblyBuiltInFunction::SMod => {
            assert forall|i: int| 0 <= i < "smod"@.len() implies 'a' <= #[trigger] "smod"@[i] <= 'z' || '0' <= "smod"@[i] <= '9' by {
                assert("smod"@.len() == 4);
            }
        },
        AssemblyBuiltInFunction::Exp => {
            assert forall|i: int| 0 <= i < "exp"@.len() implies 'a' <= #[trigger] "exp"@[i] <= 'z' || '0' <= "exp"@[i] <= '9' by {
                assert("exp"@.len() == 3);
            }
        },
        AssemblyBuiltInFunction::Not => {
            assert forall|i: int| 0 <= i < "not"@.len() implies 'a' <= #[trigger] "not"@[i] <= 'z' || '0' <= "not"@[i] <= '9' by {
                assert("not"@.len() == 3);
            }
        },
        AssemblyBuiltInFunction::Lt => {
            assert forall|i: int| 0 <= i < "lt"@.len() implies 'a' <= #[trigger] "lt"@[i] <= 'z' || '0' <= "lt"@[i] <= '9' by {
                assert("lt"@.len() == 2);
            }
        },
        AssemblyBuiltInFunction::Gt => {
            assert forall|i: int| 0 <= i < "gt"@.len() implies 'a' <= #[trigger] "gt"@[i] <= 'z' || '0' <= "gt"@[i] <= '9' by {
                assert("gt"@.len() == 2);
            }
        },
        AssemblyBuiltInFunction::Slt => {
            assert forall|i: int| 0 <= i < "slt"@.len() implies 'a' <= #[trigger] "slt"@[i] <= 'z' || '0' <= "slt"@[i] <= '9' by {
                assert("slt"@.len() == 3);
            }
        },
        AssemblyBuiltInFunction::Sgt => {
            assert forall|i: int| 0 <= i < "sgt"@.len() implies 'a' <= #[trigger] "sgt"@[i] <= 'z' || '0' <= "sgt"@[i] <= '9' by {
                assert("sgt"@.len() == 3);
            }
        },
        AssemblyBuiltInFunction::Eq => {
            assert forall|i: int| 0 <= i < "eq"@.len() implies 'a' <= #[trigger] "eq"@[i] <= 'z' || '0' <= "eq"@[i] <= '9' by {
                assert("eq"@.len() == 2);
            }
        },
        AssemblyBuiltInFunction::IsZero => {
            assert forall|i: int| 0 <= i < "iszero"@.len() implies 'a' <= #[trigger] "iszero"@[i] <= 'z' || '0' <= "iszero"@[i] <= '9' by {
                assert("iszero"@.len() == 6);
            }
        },
        AssemblyBuiltInFunction::And => {
            assert forall|i: int| 0 <= i < "and"@.len() implies 'a' <= #[trigger] "and"@[i] <= 'z' || '0' <= "and"@[i] <= '9' by {
                assert("and"@.len() == 3);
            }
        },
        AssemblyBuiltInFunction::Or => {
            assert forall|i: int| 0 <= i < "or"@.len() implies 'a' <= #[trigger] "or"@[i] <= 'z' || '0' <= "or"@[i] <= '9' by {
                assert("or"@.len() == 2);
            }
        },
        AssemblyBuiltInFunction::Xor => {
            assert forall|i: int| 0 <= i < "xor"@.len() implies 'a' <= #[trigger] "xor"@[i] <= 'z' || '0' <= "xor"@[i] <= '9' by {
                assert("xor"@.len() == 3);
            }
        },
        AssemblyBuiltInFunction::Byte => {
            assert forall|i: int| 0 <= i < "byte"@.len() implies 'a' <= #[trigger] "byte"@[i] <= 'z' || '0' <= "byte"@[i] <= '9' by {
                assert("byte"@.len() == 4);
            }
        },
        AssemblyBuiltInFunction::Shl => {
            assert forall|i: int| 0 <= i < "shl"@.len() implies 'a' <= #[trigger] "shl"@[i] <= 'z' || '0' <= "shl"@[i] <= '9' by {
                assert("shl"@.len() == 3);
            }
        },
        AssemblyBuiltInFunction::Shr => {
            assert forall|i: int| 0 <= i < "shr"@.len() implies 'a' <= #[trigger] "shr"@[i] <= 'z' || '0' <= "shr"@[i] <= '9' by {
                assert("shr"@.len() == 3);
            }
        },
        AssemblyBuiltInFunction::Sar => {
            assert forall|i: int| 0 <= i < "sar"@.len() implies 'a' <= #[trigger] "sar"@[i] <= 'z' || '0' <= "sar"@[i] <= '9' by {
                assert("sar"@.len() == 3);
            }
        },
        AssemblyBuiltInFunction::AddMod => {
            assert forall|i: int| 0 <= i < "addmod"@.len() implies 'a' <= #[trigger] "addmod"@[i] <= 'z' || '0' <= "addmod"@[i] <= '9' by {
                assert("addmod"@.len() == 6);
            }
        },
        AssemblyBuiltInFunction::MulMod => {
            assert forall|i: int| 0 <= i < "mulmod"@.len() implies 'a' <= #[trigger] "mulmod"@[i] <= 'z' || '0' <= "mulmod"@[i] <= '9' by {
                assert("mulmod"@.len() == 6);
            }
        },
        AssemblyBuiltInFunction::SignExtend => {
            assert forall|i: int| 0 <= i < "signextend"@.len() implies 'a' <= #[trigger] "signextend"@[i] <= 'z' || '0' <= "signextend"@[i] <= '9' by {
                assert("signextend"@.len() == 10);
            }
        },
        AssemblyBuiltInFunction::Keccak256 => {
            assert forall|i: int| 0 <= i < "keccak256"@.len() implies 'a' <= #[trigger] "keccak256"@[i] <= 'z' || '0' <= "keccak256"@[i] <= '9' by {
                assert("keccak256"@.len() == 9);
            }
        },
        AssemblyBuiltInFunction::Pc => {
            assert forall|i: int| 0 <= i < "pc"@.len() implies 'a' <= #[trigger] "pc"@[i] <= 'z' || '0' <= "pc"@[i] <= '9' by {
                assert("pc"@.len() == 2);
            }
        },
        AssemblyBuiltInFunction::Pop => {
            assert forall|i: int| 0 <= i < "pop"@.len() implies 'a' <= #[trigger] "pop"@[i] <= 'z' || '0' <= "pop"@[i] <= '9' by {
                assert("pop"@.len() == 3);
            }
        },
        AssemblyBuiltInFunction::MLoad => {
            assert forall|i: int| 0 <= i < "mload"@.len() implies 'a' <= #[trigger] "mload"@[i] <= 'z' || '0' <= "mload"@[i] <= '9' by {
                assert("mload"@.len() == 5);
            }
        },
        AssemblyBuiltInFunction::MStore => {
            assert forall|i: int| 0 <= i < "mstore"@.len() implies 'a' <= #[trigger] "mstore"@[i] <= 'z' || '0' <= "mstore"@[i] <= '9' by {
                assert("mstore"@.len() == 6);
            }
        },
        AssemblyBuiltInFunction::MStore8 => {
            assert forall|i: int| 0 <= i < "mstore8"@.len() implies 'a' <= #[trigger] "mstore8"@[i] <= 'z' || '0' <= "mstore8"@[i] <= '9' by {
                assert("mstore8"@.len() == 7);
            }
        },
        AssemblyBuiltInFunction::SLoad => {
            assert forall|i: int| 0 <= i < "sload"@.len() implies 'a' <= #[trigger] "sload"@[i] <= 'z' || '0' <= "sload"@[i] <= '9' by {
                assert("sload"@.len() == 5);
            }
        },
        AssemblyBuiltInFunction::SStore => {
            assert forall|i: int| 0 <= i < "sstore"@.len() implies 'a' <= #[trigger] "sstore"@[i] <= 'z' || '0' <= "sstore"@[i] <= '9' by {
                assert("sstore"@.len() == 6);
            }
        },
        AssemblyBuiltInFunction::MSize => {
            assert forall|i: int| 0 <= i < "msize"@.len() implies 'a' <= #[trigger] "msize"@[i] <= 'z' || '0' <= "msize"@[i] <= '9' by {
                assert("msize"@.len() == 5);
            }
        },
        AssemblyBuiltInFunction::Gas => {
            assert forall|i: int| 0 <= i < "gas"@.len() implies 'a' <= #[trigger] "gas"@[i] <= 'z' || '0' <= "gas"@[i] <= '9' by {
                assert("gas"@.len() == 3);
            }
        },
        AssemblyBuiltInFunction::Address => {
            assert forall|i: int| 0 <= i < "address"@.len() implies 'a' <= #[trigger] "address"@[i] <= 'z' || '0' <= "address"@[i] <= '9' by {
                assert("address"@.len() == 7);
            }
        },
        AssemblyBuiltInFunction::Balance => {
            assert forall|i: int| 0 <= i < "balance"@.len() implies 'a' <= #[trigger] "balance"@[i] <= 'z' || '0' <= "balance"@[i] <= '9' by {
                assert("balance"@.len() == 7);
            }
        },
        AssemblyBuiltInFunction::SelfBalance => {
            assert forall|i: int| 0 <= i < "selfbalance"@.len() implies 'a' <= #[trigger] "selfbalance"@[i] <= 'z' || '0' <= "selfbalance"@[i] <= '9' by {
                assert("selfbalance"@.len() == 11);
            }
        },
        AssemblyBuiltInFunction::Caller => {
            assert forall|i: int| 0 <= i < "caller"@.len() implies 'a' <= #[trigger] "caller"@[i] <= 'z' || '0' <= "caller"@[i] <= '9' by {
                assert("caller"@.len() == 6);
            }
        },
        AssemblyBuiltInFunction::CallValue => {
            assert forall|i: int| 0 <= i < "callvalue"@.len() implies 'a' <= #[trigger] "callvalue"@[i] <= 'z' || '0' <= "callvalue"@[i] <= '9' by {
                assert("callvalue"@.len() == 9);
            }
        },
        AssemblyBuiltInFunction::CallDataLoad => {
            assert forall|i: int| 0 <= i < "calldataload"@.len() implies 'a' <= #[trigger] "calldataload"@[i] <= 'z' || '0' <= "calldataload"@[i] <= '9' by {
                assert("calldataload"@.len() == 12);
            }
        },
        AssemblyBuiltInFunction::CallDataSize => {
            assert forall|i: int| 0 <= i < "calldatasize"@.len() implies 'a' <= #[trigger] "calldatasize"@[i] <= 'z' || '0' <= "calldatasize"@[i] <= '9' by {
                assert("calldatasize"@.len() == 12);
            }
        },
        AssemblyBuiltInFunction::CallDataCopy => {
            assert forall|i: int| 0 <= i < "calldatacopy"@.len() implies 'a' <= #[trigger] "calldatacopy"@[i] <= 'z' || '0' <= "calldatacopy"@[i] <= '9' by {
                assert("calldatacopy"@.len() == 12);
            }
        },
        AssemblyBuiltInFunction::CodeSize => {
            assert forall|i: int| 0 <= i < "codesize"@.len() implies 'a' <= #[trigger] "codesize"@[i] <= 'z' || '0' <= "codesize"@[i] <= '9' by {
                assert("codesize"@.len() == 8);
            }
        },
        AssemblyBuiltInFunction::CodeCopy => {
            assert forall|i: int| 0 <= i < "codecopy"@.len() implies 'a' <= #[trigger] "codecopy"@[i] <= 'z' || '0' <= "codecopy"@[i] <= '9' by {
                assert("codecopy"@.len() == 8);
            }
        },
        AssemblyBuiltInFunction::ExtCodeSize => {
            assert forall|i: int| 0 <= i < "extcodesize"@.len() implies 'a' <= #[trigger] "extcodesize"@[i] <= 'z' || '0' <= "extcodesize"@[i] <= '9' by {
                assert("extcodesize"@.len() == 11);
            }
        },
        AssemblyBuiltInFunction::ExtCodeCopy => {
            assert forall|i: int| 0 <= i < "extcodecopy"@.len() implies 'a' <= #[trigger] "extcodecopy"@[i] <= 'z' || '0' <= "extcodecopy"@[i] <= '9' by {
                assert("extcodecopy"@.len() == 11);
            }
        },
        AssemblyBuiltInFunction::ReturnDataSize => {
            assert forall|i: int| 0 <= i < "returndatasize"@.len() implies 'a' <= #[trigger] "returndatasize"@[i] <= 'z' || '0' <= "returndatasize"@[i] <= '9' by {
                assert("returndatasize"@.len() == 14);
            }
        },
        AssemblyBuiltInFunction::ReturnDataCopy => {
            assert forall|i: int| 0 <= i < "returndatacopy"@.len() implies 'a' <= #[trigger] "returndatacopy"@[i] <= 'z' || '0' <= "returndatacopy"@[i] <= '9' by {
                assert("returndatacopy"@.len() == 14);
            }
        },
        AssemblyBuiltInFunction::ExtCodeHash => {
            assert forall|i: int| 0 <= i < "extcodehash"@.len() implies 'a' <= #[trigger] "extcodehash"@[i] <= 'z' || '0' <= "extcodehash"@[i] <= '9' by {
                assert("extcodehash"@.len() == 11);
            }
        },
        AssemblyBuiltInFunction::Create => {
            assert forall|i: int| 0 <= i < "create"@.len() implies 'a' <= #[trigger] "create"@[i] <= 'z' || '0' <= "create"@[i] <= '9' by {
                assert("create"@.len() == 6);
            }
        },
        AssemblyBuiltInFunction::Create2 => {
            assert forall|i: int| 0 <= i < "create2"@.len() implies 'a' <= #[trigger] "create2"@[i] <= 'z' || '0' <= "create2"@[i] <= '9' by {
                assert("create2"@.len() == 7);
            }
        },
        AssemblyBuiltInFunction::Call => {
            assert forall|i: int| 0 <= i < "call"@.len() implies 'a' <= #[trigger] "call"@[i] <= 'z' || '0' <= "call"@[i] <= '9' by {
                assert("call"@.len() == 4);
            }
        },
        AssemblyBuiltInFunction::CallCode => {
            assert forall|i: int| 0 <= i < "callcode"@.len() implies 'a' <= #[trigger] "callcode"@[i] <= 'z' || '0' <= "callcode"@[i] <= '9' by {
                assert("callcode"@.len() == 8);
            }
        },
        AssemblyBuiltInFunction::DelegateCall => {
            assert forall|i: int| 0 <= i < "delegatecall"@.len() implies 'a' <= #[trigger] "delegatecall"@[i] <= 'z' || '0' <= "delegatecall"@[i] <= '9' by {
                assert("delegatecall"@.len() == 12);
            }
        },
        AssemblyBuiltInFunction::StaticCall => {
            assert forall|i: int| 0 <= i < "staticcall"@.len() implies 'a' <= #[trigger] "staticcall"@[i] <= 'z' || '0' <= "staticcall"@[i] <= '9' by {
                assert("staticcall"@.len() == 10);
            }
        },
        AssemblyBuiltInFunction::Return => {
            assert forall|i: int| 0 <= i < "return"@.len() implies 'a' <= #[trigger] "return"@[i] <= 'z' || '0' <= "return"@[i] <= '9' by {
                assert("return"@.len() == 6);
            }
        },
        AssemblyBuiltInFunction::Revert => {
            assert forall|i: int| 0 <= i < "revert"@.len() implies 'a' <= #[trigger] "revert"@[i] <= 'z' || '0' <= "revert"@[i] <= '9' by {
                assert("revert"@.len() == 6);
            }
        },
        AssemblyBuiltInFunction::SelfDestruct => {
            assert forall|i: int| 0 <= i < "selfdestruct"@.len() implies 'a' <= #[trigger] "selfdestruct"@[i] <= 'z' || '0' <= "selfdestruct"@[i] <= '9' by {
                assert("selfdestruct"@.len() == 12);
            }
        },
        AssemblyBuiltInFunction::Invalid => {
            assert forall|i: int| 0 <= i < "invalid"@.len() implies 'a' <= #[trigger] "invalid"@[i] <= 'z' || '0' <= "invalid"@[i] <= '9' by {
                assert("invalid"@.len() == 7);
            }
        },
        AssemblyBuiltInFunction::Log0 => {
            assert forall|i: int| 0 <= i < "log0"@.len() implies 'a' <= #[trigger] "log0"@[i] <= 'z' || '0' <= "log0"@[i] <= '9' by {
                assert("log0"@.len() == 4);
            }
        },
        AssemblyBuiltInFunction::Log1 => {
            assert forall|i: int| 0 <= i < "log1"@.len() implies 'a' <= #[trigger] "log1"@[i] <= 'z' || '0' <= "log1"@[i] <= '9' by {
                assert("log1"@.len() == 4);
            }
        },
        AssemblyBuiltInFunction::Log2 => {
            assert forall|i: int| 0 <= i < "log2"@.len() implies 'a' <= #[trigger] "log2"@[i] <= 'z' || '0' <= "log2"@[i] <= '9' by {
                assert("log2"@.len() == 4);
            }
        },
        AssemblyBuiltInFunction::Log3 => {
            assert forall|i: int| 0 <= i < "log3"@.len() implies 'a' <= #[trigger] "log3"@[i] <= 'z' || '0' <= "log3"@[i] <= '9' by {
                assert("log3"@.len() == 4);
            }
        },
        AssemblyBuiltInFunction::Log4 => {
            assert forall|i: int| 0 <= i < "log4"@.len() implies 'a' <= #[trigger] "log4"@[i] <= 'z' || '0' <= "log4"@[i] <= '9' by {
                assert("log4"@.len() == 4);
            }
        },
        AssemblyBuiltInFunction::ChainId => {
            assert forall|i: int| 0 <= i < "chainid"@.len() implies 'a' <= #[trigger] "chainid"@[i] <= 'z' || '0' <= "chainid"@[i] <= '9' by {
                assert("chainid"@.len() == 7);
            }
        },
        AssemblyBuiltInFunction::BaseFee => {
            assert forall|i: int| 0 <= i < "basefee"@.len() implies 'a' <= #[trigger] "basefee"@[i] <= 'z' || '0' <= "basefee"@[i] <= '9' by {
                assert("basefee"@.len() == 7);
            }
        },
        AssemblyBuiltInFunction::Origin => {
            assert forall|i: int| 0 <= i < "origin"@.len() implies 'a' <= #[trigger] "origin"@[i] <= 'z' || '0' <= "origin"@[i] <= '9' by {
                assert("origin"@.len() == 6);
            }
        },
        AssemblyBuiltInFunction::GasPrice => {
            assert forall|i: int| 0 <= i < "gasprice"@.len() implies 'a' <= #[trigger] "gasprice"@[i] <= 'z' || '0' <= "gasprice"@[i] <= '9' by {
                assert("gasprice"@.len() == 8);
            }
        },
        AssemblyBuiltInFunction::BlockHash => {
            assert forall|i: int| 0 <= i < "blockhash"@.len() implies 'a' <= #[trigger] "blockhash"@[i] <= 'z' || '0' <= "blockhash"@[i] <= '9' by {
                assert("blockhash"@.len() == 9);
            }
        },
        AssemblyBuiltInFunction::CoinBase => {
            assert forall|i: int| 0 <= i < "coinbase"@.len() implies 'a' <= #[trigger] "coinbase"@[i] <= 'z' || '0' <= "coinbase"@[i] <= '9' by {
                assert("coinbase"@.len() == 8);
            }
        },
        AssemblyBuiltInFunction::Timestamp => {
            assert forall|i: int| 0 <= i < "timestamp"@.len() implies 'a' <= #[trigger] "timestamp"@[i] <= 'z' || '0' <= "timestamp"@[i] <= '9' by {
                assert("timestamp"@.len() == 9);
            }
        },
        AssemblyBuiltInFunction::Number => {
            assert forall|i: int| 0 <= i < "number"@.len() implies 'a' <= #[trigger] "number"@[i] <= 'z' || '0' <= "number"@[i] <= '9' by {
                assert("number"@.len() == 6);
            }
        },
        AssemblyBuiltInFunction::Difficulty => {
            assert forall|i: int| 0 <= i < "difficulty"@.len() implies 'a' <= #[trigger] "difficulty"@[i] <= 'z' || '0' <= "difficulty"@[i] <= '9' by {
                assert("difficulty"@.len() == 10);
            }
        },
        AssemblyBuiltInFunction::GasLimit => {
            assert forall|i: int| 0 <= i < "gaslimit"@.len() implies 'a' <= #[trigger] "gaslimit"@[i] <= 'z' || '0' <= "gaslimit"@[i] <= '9' by {
                assert("gaslimit"@.len() == 8);
            }
        },
    }
}

} // verus!
