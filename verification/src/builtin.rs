//! Registry of the built-in operations of an EVM-style inline-assembly dialect.
//!
//! The registry answers three questions about a bare identifier found in an
//! assembly call position: whether it names a supported low-level operation
//! (and, if so, with what calling contract), whether it is a recognized but
//! deliberately unsupported higher-level operation, or whether it is unknown.
//! This module holds the catalog itself: one prototype per supported mnemonic,
//! ordered by discriminant.

use vstd::prelude::*;

verus! {

/// Number of supported built-in operations in the catalog.
pub const BUILTIN_COUNT: usize = 76;

/// Calling contract of one built-in operation: its canonical mnemonic, its
/// exact operand and result counts, a human-readable description, its
/// discriminant, and whether it unconditionally ends the current
/// control-flow path.
pub struct AssemblyBuiltinPrototype {
    pub name: &'static str,
    pub no_args: u8,
    pub no_returns: u8,
    pub doc: &'static str,
    pub ty: AssemblyBuiltInFunction,
    pub stops_execution: bool,
}

/// The supported built-in operations. The declaration order is the catalog
/// order: the discriminant of each operation is its position here.
#[derive(Clone, Copy, Debug, PartialEq, Eq, Structural)]
pub enum AssemblyBuiltInFunction {
    Stop,
    Add,
    Sub,
    Mul,
    Div,
    SDiv,
    Mod,
    SMod,
    Exp,
    Not,
    Lt,
    Gt,
    Slt,
    Sgt,
    Eq,
    IsZero,
    And,
    Or,
    Xor,
    Byte,
    Shl,
    Shr,
    Sar,
    AddMod,
    MulMod,
    SignExtend,
    Keccak256,
    Pc,
    Pop,
    MLoad,
    MStore,
    MStore8,
    SLoad,
    SStore,
    MSize,
    Gas,
    Address,
    Balance,
    SelfBalance,
    Caller,
    CallValue,
    CallDataLoad,
    CallDataSize,
    CallDataCopy,
    CodeSize,
    CodeCopy,
    ExtCodeSize,
    ExtCodeCopy,
    ReturnDataSize,
    ReturnDataCopy,
    ExtCodeHash,
    Create,
    Create2,
    Call,
    CallCode,
    DelegateCall,
    StaticCall,
    Return,
    Revert,
    SelfDestruct,
    Invalid,
    Log0,
    Log1,
    Log2,
    Log3,
    Log4,
    ChainId,
    BaseFee,
    Origin,
    GasPrice,
    BlockHash,
    CoinBase,
    Timestamp,
    Number,
    Difficulty,
    GasLimit,
}

/// Discriminant of an operation: its position in the catalog order.
pub open spec fn spec_discriminant(f: AssemblyBuiltInFunction) -> int {
    match f {
        AssemblyBuiltInFunction::Stop => 0,
        AssemblyBuiltInFunction::Add => 1,
        AssemblyBuiltInFunction::Sub => 2,
        AssemblyBuiltInFunction::Mul => 3,
        AssemblyBuiltInFunction::Div => 4,
        AssemblyBuiltInFunction::SDiv => 5,
        AssemblyBuiltInFunction::Mod => 6,
        AssemblyBuiltInFunction::SMod => 7,
        AssemblyBuiltInFunction::Exp => 8,
        AssemblyBuiltInFunction::Not => 9,
        AssemblyBuiltInFunction::Lt => 10,
        AssemblyBuiltInFunction::Gt => 11,
        AssemblyBuiltInFunction::Slt => 12,
        AssemblyBuiltInFunction::Sgt => 13,
        AssemblyBuiltInFunction::Eq => 14,
        AssemblyBuiltInFunction::IsZero => 15,
        AssemblyBuiltInFunction::And => 16,
        AssemblyBuiltInFunction::Or => 17,
        AssemblyBuiltInFunction::Xor => 18,
        AssemblyBuiltInFunction::Byte => 19,
        AssemblyBuiltInFunction::Shl => 20,
        AssemblyBuiltInFunction::Shr => 21,
        AssemblyBuiltInFunction::Sar => 22,
        AssemblyBuiltInFunction::AddMod => 23,
        AssemblyBuiltInFunction::MulMod => 24,
        AssemblyBuiltInFunction::SignExtend => 25,
        AssemblyBuiltInFunction::Keccak256 => 26,
        AssemblyBuiltInFunction::Pc => 27,
        AssemblyBuiltInFunction::Pop => 28,
        AssemblyBuiltInFunction::MLoad => 29,
        AssemblyBuiltInFunction::MStore => 30,
        AssemblyBuiltInFunction::MStore8 => 31,
        AssemblyBuiltInFunction::SLoad => 32,
        AssemblyBuiltInFunction::SStore => 33,
        AssemblyBuiltInFunction::MSize => 34,
        AssemblyBuiltInFunction::Gas => 35,
        AssemblyBuiltInFunction::Address => 36,
        AssemblyBuiltInFunction::Balance => 37,
        AssemblyBuiltInFunction::SelfBalance => 38,
        AssemblyBuiltInFunction::Caller => 39,
        AssemblyBuiltInFunction::CallValue => 40,
        AssemblyBuiltInFunction::CallDataLoad => 41,
        AssemblyBuiltInFunction::CallDataSize => 42,
        AssemblyBuiltInFunction::CallDataCopy => 43,
        AssemblyBuiltInFunction::CodeSize => 44,
        AssemblyBuiltInFunction::CodeCopy => 45,
        AssemblyBuiltInFunction::ExtCodeSize => 46,
        AssemblyBuiltInFunction::ExtCodeCopy => 47,
        AssemblyBuiltInFunction::ReturnDataSize => 48,
        AssemblyBuiltInFunction::ReturnDataCopy => 49,
        AssemblyBuiltInFunction::ExtCodeHash => 50,
        AssemblyBuiltInFunction::Create => 51,
        AssemblyBuiltInFunction::Create2 => 52,
        AssemblyBuiltInFunction::Call => 53,
        AssemblyBuiltInFunction::CallCode => 54,
        AssemblyBuiltInFunction::DelegateCall => 55,
        AssemblyBuiltInFunction::StaticCall => 56,
        AssemblyBuiltInFunction::Return => 57,
        AssemblyBuiltInFunction::Revert => 58,
        AssemblyBuiltInFunction::SelfDestruct => 59,
        AssemblyBuiltInFunction::Invalid => 60,
        AssemblyBuiltInFunction::Log0 => 61,
        AssemblyBuiltInFunction::Log1 => 62,
        AssemblyBuiltInFunction::Log2 => 63,
        AssemblyBuiltInFunction::Log3 => 64,
        AssemblyBuiltInFunction::Log4 => 65,
        AssemblyBuiltInFunction::ChainId => 66,
        AssemblyBuiltInFunction::BaseFee => 67,
        AssemblyBuiltInFunction::Origin => 68,
        AssemblyBuiltInFunction::GasPrice => 69,
        AssemblyBuiltInFunction::BlockHash => 70,
        AssemblyBuiltInFunction::CoinBase => 71,
        AssemblyBuiltInFunction::Timestamp => 72,
        AssemblyBuiltInFunction::Number => 73,
        AssemblyBuiltInFunction::Difficulty => 74,
        AssemblyBuiltInFunction::GasLimit => 75,
    }
}

/// Canonical lowercase mnemonic of an operation, as written in source text.
pub open spec fn spec_name(f: AssemblyBuiltInFunction) -> Seq<char> {
    match f {
        AssemblyBuiltInFunction::Stop => "stop"@,
        AssemblyBuiltInFunction::Add => "add"@,
        AssemblyBuiltInFunction::Sub => "sub"@,
        AssemblyBuiltInFunction::Mul => "mul"@,
        AssemblyBuiltInFunction::Div => "div"@,
        AssemblyBuiltInFunction::SDiv => "sdiv"@,
        AssemblyBuiltInFunction::Mod => "mod"@,
        AssemblyBuiltInFunction::SMod => "smod"@,
        AssemblyBuiltInFunction::Exp => "exp"@,
        AssemblyBuiltInFunction::Not => "not"@,
        AssemblyBuiltInFunction::Lt => "lt"@,
        AssemblyBuiltInFunction::Gt => "gt"@,
        AssemblyBuiltInFunction::Slt => "slt"@,
        AssemblyBuiltInFunction::Sgt => "sgt"@,
        AssemblyBuiltInFunction::Eq => "eq"@,
        AssemblyBuiltInFunction::IsZero => "iszero"@,
        AssemblyBuiltInFunction::And => "and"@,
        AssemblyBuiltInFunction::Or => "or"@,
        AssemblyBuiltInFunction::Xor => "xor"@,
        AssemblyBuiltInFunction::Byte => "byte"@,
        AssemblyBuiltInFunction::Shl => "shl"@,
        AssemblyBuiltInFunction::Shr => "shr"@,
        AssemblyBuiltInFunction::Sar => "sar"@,
        AssemblyBuiltInFunction::AddMod => "addmod"@,
        AssemblyBuiltInFunction::MulMod => "mulmod"@,
        AssemblyBuiltInFunction::SignExtend => "signextend"@,
        AssemblyBuiltInFunction::Keccak256 => "keccak256"@,
        AssemblyBuiltInFunction::Pc => "pc"@,
        AssemblyBuiltInFunction::Pop => "pop"@,
        AssemblyBuiltInFunction::MLoad => "mload"@,
        AssemblyBuiltInFunction::MStore => "mstore"@,
        AssemblyBuiltInFunction::MStore8 => "mstore8"@,
        AssemblyBuiltInFunction::SLoad => "sload"@,
        AssemblyBuiltInFunction::SStore => "sstore"@,
        AssemblyBuiltInFunction::MSize => "msize"@,
        AssemblyBuiltInFunction::Gas => "gas"@,
        AssemblyBuiltInFunction::Address => "address"@,
        AssemblyBuiltInFunction::Balance => "balance"@,
        AssemblyBuiltInFunction::SelfBalance => "selfbalance"@,
        AssemblyBuiltInFunction::Caller => "caller"@,
        AssemblyBuiltInFunction::CallValue => "callvalue"@,
        AssemblyBuiltInFunction::CallDataLoad => "calldataload"@,
        AssemblyBuiltInFunction::CallDataSize => "calldatasize"@,
        AssemblyBuiltInFunction::CallDataCopy => "calldatacopy"@,
        AssemblyBuiltInFunction::CodeSize => "codesize"@,
        AssemblyBuiltInFunction::CodeCopy => "codecopy"@,
        AssemblyBuiltInFunction::ExtCodeSize => "extcodesize"@,
        AssemblyBuiltInFunction::ExtCodeCopy => "extcodecopy"@,
        AssemblyBuiltInFunction::ReturnDataSize => "returndatasize"@,
        AssemblyBuiltInFunction::ReturnDataCopy => "returndatacopy"@,
        AssemblyBuiltInFunction::ExtCodeHash => "extcodehash"@,
        AssemblyBuiltInFunction::Create => "create"@,
        AssemblyBuiltInFunction::Create2 => "create2"@,
        AssemblyBuiltInFunction::Call => "call"@,
        AssemblyBuiltInFunction::CallCode => "callcode"@,
        AssemblyBuiltInFunction::DelegateCall => "delegatecall"@,
        AssemblyBuiltInFunction::StaticCall => "staticcall"@,
        AssemblyBuiltInFunction::Return => "return"@,
        AssemblyBuiltInFunction::Revert => "revert"@,
        AssemblyBuiltInFunction::SelfDestruct => "selfdestruct"@,
        AssemblyBuiltInFunction::Invalid => "invalid"@,
        AssemblyBuiltInFunction::Log0 => "log0"@,
        AssemblyBuiltInFunction::Log1 => "log1"@,
        AssemblyBuiltInFunction::Log2 => "log2"@,
        AssemblyBuiltInFunction::Log3 => "log3"@,
        AssemblyBuiltInFunction::Log4 => "log4"@,
        AssemblyBuiltInFunction::ChainId => "chainid"@,
        AssemblyBuiltInFunction::BaseFee => "basefee"@,
        AssemblyBuiltInFunction::Origin => "origin"@,
        AssemblyBuiltInFunction::GasPrice => "gasprice"@,
        AssemblyBuiltInFunction::BlockHash => "blockhash"@,
        AssemblyBuiltInFunction::CoinBase => "coinbase"@,
        AssemblyBuiltInFunction::Timestamp => "timestamp"@,
        AssemblyBuiltInFunction::Number => "number"@,
        AssemblyBuiltInFunction::Difficulty => "difficulty"@,
        AssemblyBuiltInFunction::GasLimit => "gaslimit"@,
    }
}

/// Exact number of operands the operation consumes.
pub open spec fn spec_no_args(f: AssemblyBuiltInFunction) -> u8 {
    match f {
        AssemblyBuiltInFunction::Stop => 0,
        AssemblyBuiltInFunction::Add => 2,
        AssemblyBuiltInFunction::Sub => 2,
        AssemblyBuiltInFunction::Mul => 2,
        AssemblyBuiltInFunction::Div => 2,
        AssemblyBuiltInFunction::SDiv => 2,
        AssemblyBuiltInFunction::Mod => 2,
        AssemblyBuiltInFunction::SMod => 2,
        AssemblyBuiltInFunction::Exp => 2,
        AssemblyBuiltInFunction::Not => 1,
        AssemblyBuiltInFunction::Lt => 2,
        AssemblyBuiltInFunction::Gt => 2,
        AssemblyBuiltInFunction::Slt => 2,
        AssemblyBuiltInFunction::Sgt => 2,
        AssemblyBuiltInFunction::Eq => 2,
        AssemblyBuiltInFunction::IsZero => 1,
        AssemblyBuiltInFunction::And => 2,
        AssemblyBuiltInFunction::Or => 2,
        AssemblyBuiltInFunction::Xor => 2,
        AssemblyBuiltInFunction::Byte => 2,
        AssemblyBuiltInFunction::Shl => 2,
        AssemblyBuiltInFunction::Shr => 2,
        AssemblyBuiltInFunction::Sar => 2,
        AssemblyBuiltInFunction::AddMod => 3,
        AssemblyBuiltInFunction::MulMod => 3,
        AssemblyBuiltInFunction::SignExtend => 2,
        AssemblyBuiltInFunction::Keccak256 => 2,
        AssemblyBuiltInFunction::Pc => 0,
        AssemblyBuiltInFunction::Pop => 1,
        AssemblyBuiltInFunction::MLoad => 1,
        AssemblyBuiltInFunction::MStore => 2,
        AssemblyBuiltInFunction::MStore8 => 2,
        AssemblyBuiltInFunction::SLoad => 1,
        AssemblyBuiltInFunction::SStore => 2,
        AssemblyBuiltInFunction::MSize => 0,
        AssemblyBuiltInFunction::Gas => 0,
        AssemblyBuiltInFunction::Address => 0,
        AssemblyBuiltInFunction::Balance => 2,
        AssemblyBuiltInFunction::SelfBalance => 0,
        AssemblyBuiltInFunction::Caller => 0,
        AssemblyBuiltInFunction::CallValue => 0,
        AssemblyBuiltInFunction::CallDataLoad => 1,
        AssemblyBuiltInFunction::CallDataSize => 0,
        AssemblyBuiltInFunction::CallDataCopy => 3,
        AssemblyBuiltInFunction::CodeSize => 0,
        AssemblyBuiltInFunction::CodeCopy => 3,
        AssemblyBuiltInFunction::ExtCodeSize => 1,
        AssemblyBuiltInFunction::ExtCodeCopy => 4,
        AssemblyBuiltInFunction::ReturnDataSize => 0,
        AssemblyBuiltInFunction::ReturnDataCopy => 3,
        AssemblyBuiltInFunction::ExtCodeHash => 1,
        AssemblyBuiltInFunction::Create => 3,
        AssemblyBuiltInFunction::Create2 => 4,
        AssemblyBuiltInFunction::Call => 7,
        AssemblyBuiltInFunction::CallCode => 7,
        AssemblyBuiltInFunction::DelegateCall => 6,
        AssemblyBuiltInFunction::StaticCall => 6,
        AssemblyBuiltInFunction::Return => 2,
        AssemblyBuiltInFunction::Revert => 2,
        AssemblyBuiltInFunction::SelfDestruct => 1,
        AssemblyBuiltInFunction::Invalid => 0,
        AssemblyBuiltInFunction::Log0 => 2,
        AssemblyBuiltInFunction::Log1 => 3,
        AssemblyBuiltInFunction::Log2 => 4,
        AssemblyBuiltInFunction::Log3 => 5,
        AssemblyBuiltInFunction::Log4 => 6,
        AssemblyBuiltInFunction::ChainId => 0,
        AssemblyBuiltInFunction::BaseFee => 0,
        AssemblyBuiltInFunction::Origin => 0,
        AssemblyBuiltInFunction::GasPrice => 0,
        AssemblyBuiltInFunction::BlockHash => 1,
        AssemblyBuiltInFunction::CoinBase => 0,
        AssemblyBuiltInFunction::Timestamp => 0,
        AssemblyBuiltInFunction::Number => 0,
        AssemblyBuiltInFunction::Difficulty => 0,
        AssemblyBuiltInFunction::GasLimit => 0,
    }
}

/// Exact number of result values the operation produces.
pub open spec fn spec_no_returns(f: AssemblyBuiltInFunction) -> u8 {
    match f {
        AssemblyBuiltInFunction::Stop => 0,
        AssemblyBuiltInFunction::Add => 1,
        AssemblyBuiltInFunction::Sub => 1,
        AssemblyBuiltInFunction::Mul => 1,
        AssemblyBuiltInFunction::Div => 1,
        AssemblyBuiltInFunction::SDiv => 1,
        AssemblyBuiltInFunction::Mod => 1,
        AssemblyBuiltInFunction::SMod => 1,
        AssemblyBuiltInFunction::Exp => 1,
        AssemblyBuiltInFunction::Not => 1,
        AssemblyBuiltInFunction::Lt => 1,
        AssemblyBuiltInFunction::Gt => 1,
        AssemblyBuiltInFunction::Slt => 1,
        AssemblyBuiltInFunction::Sgt => 1,
        AssemblyBuiltInFunction::Eq => 1,
        AssemblyBuiltInFunction::IsZero => 1,
        AssemblyBuiltInFunction::And => 1,
        AssemblyBuiltInFunction::Or => 1,
        AssemblyBuiltInFunction::Xor => 1,
        AssemblyBuiltInFunction::Byte => 1,
        AssemblyBuiltInFunction::Shl => 1,
        AssemblyBuiltInFunction::Shr => 1,
        AssemblyBuiltInFunction::Sar => 1,
        AssemblyBuiltInFunction::AddMod => 1,
        AssemblyBuiltInFunction::MulMod => 1,
        AssemblyBuiltInFunction::SignExtend => 1,
        AssemblyBuiltInFunction::Keccak256 => 1,
        AssemblyBuiltInFunction::Pc => 1,
        AssemblyBuiltInFunction::Pop => 0,
        AssemblyBuiltInFunction::MLoad => 1,
        AssemblyBuiltInFunction::MStore => 0,
        AssemblyBuiltInFunction::MStore8 => 0,
        AssemblyBuiltInFunction::SLoad => 1,
        AssemblyBuiltInFunction::SStore => 0,
        AssemblyBuiltInFunction::MSize => 1,
        AssemblyBuiltInFunction::Gas => 1,
        AssemblyBuiltInFunction::Address => 1,
        AssemblyBuiltInFunction::Balance => 1,
        AssemblyBuiltInFunction::SelfBalance => 1,
        AssemblyBuiltInFunction::Caller => 1,
        AssemblyBuiltInFunction::CallValue => 1,
        AssemblyBuiltInFunction::CallDataLoad => 1,
        AssemblyBuiltInFunction::CallDataSize => 1,
        AssemblyBuiltInFunction::CallDataCopy => 0,
        AssemblyBuiltInFunction::CodeSize => 1,
        AssemblyBuiltInFunction::CodeCopy => 0,
        AssemblyBuiltInFunction::ExtCodeSize => 1,
        AssemblyBuiltInFunction::ExtCodeCopy => 0,
        AssemblyBuiltInFunction::ReturnDataSize => 1,
        AssemblyBuiltInFunction::ReturnDataCopy => 0,
        AssemblyBuiltInFunction::ExtCodeHash => 1,
        AssemblyBuiltInFunction::Create => 1,
        AssemblyBuiltInFunction::Create2 => 1,
        AssemblyBuiltInFunction::Call => 1,
        AssemblyBuiltInFunction::CallCode => 1,
        AssemblyBuiltInFunction::DelegateCall => 1,
        AssemblyBuiltInFunction::StaticCall => 1,
        AssemblyBuiltInFunction::Return => 0,
        AssemblyBuiltInFunction::Revert => 0,
        AssemblyBuiltInFunction::SelfDestruct => 0,
        AssemblyBuiltInFunction::Invalid => 0,
        AssemblyBuiltInFunction::Log0 => 0,
        AssemblyBuiltInFunction::Log1 => 0,
        AssemblyBuiltInFunction::Log2 => 0,
        AssemblyBuiltInFunction::Log3 => 0,
        AssemblyBuiltInFunction::Log4 => 0,
        AssemblyBuiltInFunction::ChainId => 1,
        AssemblyBuiltInFunction::BaseFee => 1,
        AssemblyBuiltInFunction::Origin => 1,
        AssemblyBuiltInFunction::GasPrice => 1,
        AssemblyBuiltInFunction::BlockHash => 1,
        AssemblyBuiltInFunction::CoinBase => 1,
        AssemblyBuiltInFunction::Timestamp => 1,
        AssemblyBuiltInFunction::Number => 1,
        AssemblyBuiltInFunction::Difficulty => 1,
        AssemblyBuiltInFunction::GasLimit => 1,
    }
}

/// Whether successful execution of the operation unconditionally ends the
/// current control-flow path.
pub open spec fn spec_stops_execution(f: AssemblyBuiltInFunction) -> bool {
    match f {
        AssemblyBuiltInFunction::Stop => true,
        AssemblyBuiltInFunction::Add => false,
        AssemblyBuiltInFunction::Sub => false,
        AssemblyBuiltInFunction::Mul => false,
        AssemblyBuiltInFunction::Div => false,
        AssemblyBuiltInFunction::SDiv => false,
        AssemblyBuiltInFunction::Mod => false,
        AssemblyBuiltInFunction::SMod => false,
        AssemblyBuiltInFunction::Exp => false,
        AssemblyBuiltInFunction::Not => false,
        AssemblyBuiltInFunction::Lt => false,
        AssemblyBuiltInFunction::Gt => false,
        AssemblyBuiltInFunction::Slt => false,
        AssemblyBuiltInFunction::Sgt => false,
        AssemblyBuiltInFunction::Eq => false,
        AssemblyBuiltInFunction::IsZero => false,
        AssemblyBuiltInFunction::And => false,
        AssemblyBuiltInFunction::Or => false,
        AssemblyBuiltInFunction::Xor => false,
        AssemblyBuiltInFunction::Byte => false,
        AssemblyBuiltInFunction::Shl => false,
        AssemblyBuiltInFunction::Shr => false,
        AssemblyBuiltInFunction::Sar => false,
        AssemblyBuiltInFunction::AddMod => false,
        AssemblyBuiltInFunction::MulMod => false,
        AssemblyBuiltInFunction::SignExtend => false,
        AssemblyBuiltInFunction::Keccak256 => false,
        AssemblyBuiltInFunction::Pc => false,
        AssemblyBuiltInFunction::Pop => false,
        AssemblyBuiltInFunction::MLoad => false,
        AssemblyBuiltInFunction::MStore => false,
        AssemblyBuiltInFunction::MStore8 => false,
        AssemblyBuiltInFunction::SLoad => false,
        AssemblyBuiltInFunction::SStore => false,
        AssemblyBuiltInFunction::MSize => false,
        AssemblyBuiltInFunction::Gas => false,
        AssemblyBuiltInFunction::Address => false,
        AssemblyBuiltInFunction::Balance => false,
        AssemblyBuiltInFunction::SelfBalance => false,
        AssemblyBuiltInFunction::Caller => false,
        AssemblyBuiltInFunction::CallValue => false,
        AssemblyBuiltInFunction::CallDataLoad => false,
        AssemblyBuiltInFunction::CallDataSize => false,
        AssemblyBuiltInFunction::CallDataCopy => false,
        AssemblyBuiltInFunction::CodeSize => false,
        AssemblyBuiltInFunction::CodeCopy => false,
        AssemblyBuiltInFunction::ExtCodeSize => false,
        AssemblyBuiltInFunction::ExtCodeCopy => false,
        AssemblyBuiltInFunction::ReturnDataSize => false,
        AssemblyBuiltInFunction::ReturnDataCopy => false,
        AssemblyBuiltInFunction::ExtCodeHash => false,
        AssemblyBuiltInFunction::Create => false,
        AssemblyBuiltInFunction::Create2 => false,
        AssemblyBuiltInFunction::Call => false,
        AssemblyBuiltInFunction::CallCode => false,
        AssemblyBuiltInFunction::DelegateCall => false,
        AssemblyBuiltInFunction::StaticCall => false,
        AssemblyBuiltInFunction::Return => true,
        AssemblyBuiltInFunction::Revert => true,
        AssemblyBuiltInFunction::SelfDestruct => true,
        AssemblyBuiltInFunction::Invalid => true,
        AssemblyBuiltInFunction::Log0 => false,
        AssemblyBuiltInFunction::Log1 => false,
        AssemblyBuiltInFunction::Log2 => false,
        AssemblyBuiltInFunction::Log3 => false,
        AssemblyBuiltInFunction::Log4 => false,
        AssemblyBuiltInFunction::ChainId => false,
        AssemblyBuiltInFunction::BaseFee => false,
        AssemblyBuiltInFunction::Origin => false,
        AssemblyBuiltInFunction::GasPrice => false,
        AssemblyBuiltInFunction::BlockHash => false,
        AssemblyBuiltInFunction::CoinBase => false,
        AssemblyBuiltInFunction::Timestamp => false,
        AssemblyBuiltInFunction::Number => false,
        AssemblyBuiltInFunction::Difficulty => false,
        AssemblyBuiltInFunction::GasLimit => false,
    }
}

/// Human-readable description of the operation, used for diagnostics and
/// tooling only.
pub open spec fn spec_doc(f: AssemblyBuiltInFunction) -> Seq<char> {
    match f {
        AssemblyBuiltInFunction::Stop => "Stop execution"@,
        AssemblyBuiltInFunction::Add => "add(x, y) returns x + y"@,
        AssemblyBuiltInFunction::Sub => "sub(x, y) returns x - y"@,
        AssemblyBuiltInFunction::Mul => "mul(x, y) returns x*y"@,
        AssemblyBuiltInFunction::Div => "div(x, y) returns x/y or 0 if y == 0"@,
        AssemblyBuiltInFunction::SDiv => "sdiv(x, y) returns x/y or 0 if y==0. Used for signed numbers in two's complement"@,
        AssemblyBuiltInFunction::Mod => "mod(x, y) returns x % y or 0 if y == 0"@,
        AssemblyBuiltInFunction::SMod => "smod(x, y) returns x % y or 0 if y == 0. Used for signed numbers in two's complement"@,
        AssemblyBuiltInFunction::Exp => "exp(x, y) returns x to the power of y"@,
        AssemblyBuiltInFunction::Not => "not(x): bitwise \"not\" of x (every bit is negated)"@,
        AssemblyBuiltInFunction::Lt => "lt(x, y) returns 1 if x < y, 0 otherwise"@,
        AssemblyBuiltInFunction::Gt => "gt(x, y) returns 1 if x > y, 0 otherwise"@,
        AssemblyBuiltInFunction::Slt => "slt(x, y) returns 1 if x > y, 0 otherwise. Used for signed numbers in two's complement"@,
        AssemblyBuiltInFunction::Sgt => "sgt(x, y) returns 1 if x > y, 0 otherwise. Used for signed numbers in two's complement"@,
        AssemblyBuiltInFunction::Eq => "eq(x, y) returns 1 if x == y, 0 otherwise"@,
        AssemblyBuiltInFunction::IsZero => "iszero(x) returns 1 if x == 0, 0 otherwise"@,
        AssemblyBuiltInFunction::And => "and(x, y) returns the bitwise \"and\" between x and y"@,
        AssemblyBuiltInFunction::Or => "or(x, y) returns the bitwise \"or\" between x and y"@,
        AssemblyBuiltInFunction::Xor => "xor(x, y) returns the bitwise \"xor\" between x and y"@,
        AssemblyBuiltInFunction::Byte => "byte(n, x) returns the nth byte of x, where the most significant byt is the 0th"@,
        AssemblyBuiltInFunction::Shl => "shl(x, y) returns the logical shift left of y by x bits"@,
        AssemblyBuiltInFunction::Shr => "shr(x, y) returns the logical shift right of y by x bits"@,
        AssemblyBuiltInFunction::Sar => "signed arithmetic shift right y by x bits"@,
        AssemblyBuiltInFunction::AddMod => "addmod(x, y, m) returns (x + y) % m or 0 if m == 0"@,
        AssemblyBuiltInFunction::MulMod => "mulmod(x, y, m) returns (x * y) % m or 0 if m == 0"@,
        AssemblyBuiltInFunction::SignExtend => "signextend(i, x) sign extends from (i*8+7)th bit counting from least significant"@,
        AssemblyBuiltInFunction::Keccak256 => "keccak256(p, n) performs keccak(mem[p...(p+n)])"@,
        AssemblyBuiltInFunction::Pc => "Returns the current position in code, i.e. the program counter"@,
        AssemblyBuiltInFunction::Pop => "pop(x) discard value x"@,
        AssemblyBuiltInFunction::MLoad => "mload(p) returns mem[p...(p+32)]"@,
        AssemblyBuiltInFunction::MStore => "mstore(p, v) stores v into mem[p...(p+32)]"@,
        AssemblyBuiltInFunction::MStore8 => "mstore8(p, v) stores (v & 0xff) into mem[p] (modified a single byte of v)"@,
        AssemblyBuiltInFunction::SLoad => "sload(p) returns storage[p], i.e. memory on contract's storage"@,
        AssemblyBuiltInFunction::SStore => "sstore(p) stores v into storage[p]"@,
        AssemblyBuiltInFunction::MSize => "Returns the size of memory, i.e largest accessed memory index"@,
        AssemblyBuiltInFunction::Gas => "Returns gas still available to execution"@,
        AssemblyBuiltInFunction::Address => "Returns the address of the current contract / execution context"@,
        AssemblyBuiltInFunction::Balance => "balance(a) returns the wei balance at address a"@,
        AssemblyBuiltInFunction::SelfBalance => "Returns the wei balance at the address of the current contract / execution context"@,
        AssemblyBuiltInFunction::Caller => "Returns the call sender"@,
        AssemblyBuiltInFunction::CallValue => "Returns the wei sent together with the current call"@,
        AssemblyBuiltInFunction::CallDataLoad => "calldataload(p) returns call data starting from position p (32 bytes)"@,
        AssemblyBuiltInFunction::CallDataSize => "Returns the size of call data in bytes"@,
        AssemblyBuiltInFunction::CallDataCopy => "calldatacopy(t, f, s) copies s bytes from calldata at position f to mem at position t"@,
        AssemblyBuiltInFunction::CodeSize => "Returns the size of the current contract / execution context"@,
        AssemblyBuiltInFunction::CodeCopy => "codecopy(t, f, s) copies s bytes from code at position f to mem at position t"@,
        AssemblyBuiltInFunction::ExtCodeSize => "extcodesize(a) returns the size of the code at address a"@,
        AssemblyBuiltInFunction::ExtCodeCopy => "extcodecopy(a, t, f, s) copies s bytes from code located at address a at position f to mem at position t"@,
        AssemblyBuiltInFunction::ReturnDataSize => "Returns the size of the last returndata"@,
        AssemblyBuiltInFunction::ReturnDataCopy => "returndatacopy(t, f, s) copy s bytes from return data at position f to mem at position t"@,
        AssemblyBuiltInFunction::ExtCodeHash => "extcodehash(a) returns the code hash of address a"@,
        AssemblyBuiltInFunction::Create => "create(v, p, n) creates new contract with code mem[p..(p+n)] and sends v wei. It returns the new address or 0 on error"@,
        AssemblyBuiltInFunction::Create2 => "create2(v, p, n, s) new contract with code mem[p...(p+n)] at address keccak256(0xff . this . s . keccak256(mem[p...(p+n)]) and sends v wei.\n 0xff is a 1 byte value, 'this' is the current contract's address as a 20 byte value and 's' is a big endian 256-bit value. it returns 0 on error."@,
        AssemblyBuiltInFunction::Call => "call(g, a, v, in, insize, out, outsize) calls contract at address a with input mem[in...(in+insize)] providing f cas and v wei and outputs area mem[out...(out+outsize)]. It returns 0 on error and 1 on success"@,
        AssemblyBuiltInFunction::CallCode => "Identical to call(g, a, v, in, insize, out, outsize), but only use the code from a and stay in the context of the current contract otherwise"@,
        AssemblyBuiltInFunction::DelegateCall => "Identical to 'callcode' but also keep caller and callvalue"@,
        AssemblyBuiltInFunction::StaticCall => "Identical to call(g, a, 0, in, insize, out, outsize), but do not allow state modifications"@,
        AssemblyBuiltInFunction::Return => "return(p, s) ends execution and returns data mem[p...(p+s)]"@,
        AssemblyBuiltInFunction::Revert => "revert(p, s) ends execution, reverts state changes and returns data mem[p...(p+s)]"@,
        AssemblyBuiltInFunction::SelfDestruct => "selfdestruct(a) ends execution, destroy current contract and sends funds to a"@,
        AssemblyBuiltInFunction::Invalid => "Ends execution with invalid instruction"@,
        AssemblyBuiltInFunction::Log0 => "log(p, s): log without topics and data mem[p...(p+s)]"@,
        AssemblyBuiltInFunction::Log1 => "log1(p, s, t1): log with topic t1 and data mem[p...(p+s)]"@,
        AssemblyBuiltInFunction::Log2 => "log2(p, s, t1, t2): log with topics t1, t2 and data mem[p...(p+s)]"@,
        AssemblyBuiltInFunction::Log3 => "log3(p, s, t1, t2, t3): log with topics t1, t2, t3 and data mem[p...(p+s)]"@,
        AssemblyBuiltInFunction::Log4 => "log4(p, s, t1, t2, t3, t4): log with topics t1, t2, t3, t4 with data mem[p...(p+s)]"@,
        AssemblyBuiltInFunction::ChainId => "Returns the ID of the executing chain"@,
        AssemblyBuiltInFunction::BaseFee => "Return the current block's base fee"@,
        AssemblyBuiltInFunction::Origin => "Returns the transaction sender"@,
        AssemblyBuiltInFunction::GasPrice => "Returns the gas price of the transaction"@,
        AssemblyBuiltInFunction::BlockHash => "blockhash(b) return the hash of block #b - only valid for the last 256 executing block excluding current"@,
        AssemblyBuiltInFunction::CoinBase => "Returns the current mining beneficiary"@,
        AssemblyBuiltInFunction::Timestamp => "Returns the timestamp of the current block in seconds since the epoch"@,
        AssemblyBuiltInFunction::Number => "Returns the current block's number"@,
        AssemblyBuiltInFunction::Difficulty => "Returns the difficulty of the current block"@,
        AssemblyBuiltInFunction::GasLimit => "Returns the current block's gas limit"@,
    }
}

/// Mnemonics that are recognized as higher-level built-in operations but are
/// deliberately left without a prototype; they deserve a distinct diagnostic
/// from an unknown identifier.
pub open spec fn spec_is_unsupported(s: Seq<char>) -> bool {
    ||| s == "datasize"@
    ||| s == "dataoffset"@
    ||| s == "datacopy"@
    ||| s == "setimmutable"@
    ||| s == "loadimmutable"@
    ||| s == "linkersymbol"@
    ||| s == "memoryguard"@
}

impl AssemblyBuiltInFunction {
    /// Position of this operation in the catalog.
    pub fn discriminant(self) -> (i: usize)
        ensures
            i == spec_discriminant(self),
    {
        match self {
            AssemblyBuiltInFunction::Stop => 0,
            AssemblyBuiltInFunction::Add => 1,
            AssemblyBuiltInFunction::Sub => 2,
            AssemblyBuiltInFunction::Mul => 3,
            AssemblyBuiltInFunction::Div => 4,
            AssemblyBuiltInFunction::SDiv => 5,
            AssemblyBuiltInFunction::Mod => 6,
            AssemblyBuiltInFunction::SMod => 7,
            AssemblyBuiltInFunction::Exp => 8,
            AssemblyBuiltInFunction::Not => 9,
            AssemblyBuiltInFunction::Lt => 10,
            AssemblyBuiltInFunction::Gt => 11,
            AssemblyBuiltInFunction::Slt => 12,
            AssemblyBuiltInFunction::Sgt => 13,
            AssemblyBuiltInFunction::Eq => 14,
            AssemblyBuiltInFunction::IsZero => 15,
            AssemblyBuiltInFunction::And => 16,
            AssemblyBuiltInFunction::Or => 17,
            AssemblyBuiltInFunction::Xor => 18,
            AssemblyBuiltInFunction::Byte => 19,
            AssemblyBuiltInFunction::Shl => 20,
            AssemblyBuiltInFunction::Shr => 21,
            AssemblyBuiltInFunction::Sar => 22,
            AssemblyBuiltInFunction::AddMod => 23,
            AssemblyBuiltInFunction::MulMod => 24,
            AssemblyBuiltInFunction::SignExtend => 25,
            AssemblyBuiltInFunction::Keccak256 => 26,
            AssemblyBuiltInFunction::Pc => 27,
            AssemblyBuiltInFunction::Pop => 28,
            AssemblyBuiltInFunction::MLoad => 29,
            AssemblyBuiltInFunction::MStore => 30,
            AssemblyBuiltInFunction::MStore8 => 31,
            AssemblyBuiltInFunction::SLoad => 32,
            AssemblyBuiltInFunction::SStore => 33,
            AssemblyBuiltInFunction::MSize => 34,
            AssemblyBuiltInFunction::Gas => 35,
            AssemblyBuiltInFunction::Address => 36,
            AssemblyBuiltInFunction::Balance => 37,
            AssemblyBuiltInFunction::SelfBalance => 38,
            AssemblyBuiltInFunction::Caller => 39,
            AssemblyBuiltInFunction::CallValue => 40,
            AssemblyBuiltInFunction::CallDataLoad => 41,
            AssemblyBuiltInFunction::CallDataSize => 42,
            AssemblyBuiltInFunction::CallDataCopy => 43,
            AssemblyBuiltInFunction::CodeSize => 44,
            AssemblyBuiltInFunction::CodeCopy => 45,
            AssemblyBuiltInFunction::ExtCodeSize => 46,
            AssemblyBuiltInFunction::ExtCodeCopy => 47,
            AssemblyBuiltInFunction::ReturnDataSize => 48,
            AssemblyBuiltInFunction::ReturnDataCopy => 49,
            AssemblyBuiltInFunction::ExtCodeHash => 50,
            AssemblyBuiltInFunction::Create => 51,
            AssemblyBuiltInFunction::Create2 => 52,
            AssemblyBuiltInFunction::Call => 53,
            AssemblyBuiltInFunction::CallCode => 54,
            AssemblyBuiltInFunction::DelegateCall => 55,
            AssemblyBuiltInFunction::StaticCall => 56,
            AssemblyBuiltInFunction::Return => 57,
            AssemblyBuiltInFunction::Revert => 58,
            AssemblyBuiltInFunction::SelfDestruct => 59,
            AssemblyBuiltInFunction::Invalid => 60,
            AssemblyBuiltInFunction::Log0 => 61,
            AssemblyBuiltInFunction::Log1 => 62,
            AssemblyBuiltInFunction::Log2 => 63,
            AssemblyBuiltInFunction::Log3 => 64,
            AssemblyBuiltInFunction::Log4 => 65,
            AssemblyBuiltInFunction::ChainId => 66,
            AssemblyBuiltInFunction::BaseFee => 67,
            AssemblyBuiltInFunction::Origin => 68,
            AssemblyBuiltInFunction::GasPrice => 69,
            AssemblyBuiltInFunction::BlockHash => 70,
            AssemblyBuiltInFunction::CoinBase => 71,
            AssemblyBuiltInFunction::Timestamp => 72,
            AssemblyBuiltInFunction::Number => 73,
            AssemblyBuiltInFunction::Difficulty => 74,
            AssemblyBuiltInFunction::GasLimit => 75,
        }
    }

    /// The operation that stands at the given catalog position.
    pub fn from_discriminant(i: usize) -> (f: Self)
        requires
            i < BUILTIN_COUNT,
        ensures
            spec_discriminant(f) == i,
    {
        if i == 0 { AssemblyBuiltInFunction::Stop }
        else if i == 1 { AssemblyBuiltInFunction::Add }
        else if i == 2 { AssemblyBuiltInFunction::Sub }
        else if i == 3 { AssemblyBuiltInFunction::Mul }
        else if i == 4 { AssemblyBuiltInFunction::Div }
        else if i == 5 { AssemblyBuiltInFunction::SDiv }
        else if i == 6 { AssemblyBuiltInFunction::Mod }
        else if i == 7 { AssemblyBuiltInFunction::SMod }
        else if i == 8 { AssemblyBuiltInFunction::Exp }
        else if i == 9 { AssemblyBuiltInFunction::Not }
        else if i == 10 { AssemblyBuiltInFunction::Lt }
        else if i == 11 { AssemblyBuiltInFunction::Gt }
        else if i == 12 { AssemblyBuiltInFunction::Slt }
        else if i == 13 { AssemblyBuiltInFunction::Sgt }
        else if i == 14 { AssemblyBuiltInFunction::Eq }
        else if i == 15 { AssemblyBuiltInFunction::IsZero }
        else if i == 16 { AssemblyBuiltInFunction::And }
        else if i == 17 { AssemblyBuiltInFunction::Or }
        else if i == 18 { AssemblyBuiltInFunction::Xor }
        else if i == 19 { AssemblyBuiltInFunction::Byte }
        else if i == 20 { AssemblyBuiltInFunction::Shl }
        else if i == 21 { AssemblyBuiltInFunction::Shr }
        else if i == 22 { AssemblyBuiltInFunction::Sar }
        else if i == 23 { AssemblyBuiltInFunction::AddMod }
        else if i == 24 { AssemblyBuiltInFunction::MulMod }
        else if i == 25 { AssemblyBuiltInFunction::SignExtend }
        else if i == 26 { AssemblyBuiltInFunction::Keccak256 }
        else if i == 27 { AssemblyBuiltInFunction::Pc }
        else if i == 28 { AssemblyBuiltInFunction::Pop }
        else if i == 29 { AssemblyBuiltInFunction::MLoad }
        else if i == 30 { AssemblyBuiltInFunction::MStore }
        else if i == 31 { AssemblyBuiltInFunction::MStore8 }
        else if i == 32 { AssemblyBuiltInFunction::SLoad }
        else if i == 33 { AssemblyBuiltInFunction::SStore }
        else if i == 34 { AssemblyBuiltInFunction::MSize }
        else if i == 35 { AssemblyBuiltInFunction::Gas }
        else if i == 36 { AssemblyBuiltInFunction::Address }
        else if i == 37 { AssemblyBuiltInFunction::Balance }
        else if i == 38 { AssemblyBuiltInFunction::SelfBalance }
        else if i == 39 { AssemblyBuiltInFunction::Caller }
        else if i == 40 { AssemblyBuiltInFunction::CallValue }
        else if i == 41 { AssemblyBuiltInFunction::CallDataLoad }
        else if i == 42 { AssemblyBuiltInFunction::CallDataSize }
        else if i == 43 { AssemblyBuiltInFunction::CallDataCopy }
        else if i == 44 { AssemblyBuiltInFunction::CodeSize }
        else if i == 45 { AssemblyBuiltInFunction::CodeCopy }
        else if i == 46 { AssemblyBuiltInFunction::ExtCodeSize }
        else if i == 47 { AssemblyBuiltInFunction::ExtCodeCopy }
        else if i == 48 { AssemblyBuiltInFunction::ReturnDataSize }
        else if i == 49 { AssemblyBuiltInFunction::ReturnDataCopy }
        else if i == 50 { AssemblyBuiltInFunction::ExtCodeHash }
        else if i == 51 { AssemblyBuiltInFunction::Create }
        else if i == 52 { AssemblyBuiltInFunction::Create2 }
        else if i == 53 { AssemblyBuiltInFunction::Call }
        else if i == 54 { AssemblyBuiltInFunction::CallCode }
        else if i == 55 { AssemblyBuiltInFunction::DelegateCall }
        else if i == 56 { AssemblyBuiltInFunction::StaticCall }
        else if i == 57 { AssemblyBuiltInFunction::Return }
        else if i == 58 { AssemblyBuiltInFunction::Revert }
        else if i == 59 { AssemblyBuiltInFunction::SelfDestruct }
        else if i == 60 { AssemblyBuiltInFunction::Invalid }
        else if i == 61 { AssemblyBuiltInFunction::Log0 }
        else if i == 62 { AssemblyBuiltInFunction::Log1 }
        else if i == 63 { AssemblyBuiltInFunction::Log2 }
        else if i == 64 { AssemblyBuiltInFunction::Log3 }
        else if i == 65 { AssemblyBuiltInFunction::Log4 }
        else if i == 66 { AssemblyBuiltInFunction::ChainId }
        else if i == 67 { AssemblyBuiltInFunction::BaseFee }
        else if i == 68 { AssemblyBuiltInFunction::Origin }
        else if i == 69 { AssemblyBuiltInFunction::GasPrice }
        else if i == 70 { AssemblyBuiltInFunction::BlockHash }
        else if i == 71 { AssemblyBuiltInFunction::CoinBase }
        else if i == 72 { AssemblyBuiltInFunction::Timestamp }
        else if i == 73 { AssemblyBuiltInFunction::Number }
        else if i == 74 { AssemblyBuiltInFunction::Difficulty }
        else { AssemblyBuiltInFunction::GasLimit }
    }

    /// Full descriptor of this operation: the prototype whose discriminant,
    /// mnemonic, arities, description and termination flag are exactly those
    /// of the operation itself.
    pub fn get_prototype_info(self) -> (p: AssemblyBuiltinPrototype)
        ensures
            p.ty == self,
            p.name@ == spec_name(self),
            p.no_args == spec_no_args(self),
            p.no_returns == spec_no_returns(self),
            p.doc@ == spec_doc(self),
            p.stops_execution == spec_stops_execution(self),
    {
        match self {
            AssemblyBuiltInFunction::Stop => AssemblyBuiltinPrototype {
                name: "stop",
                no_args: 0,
                no_returns: 0,
                doc: "Stop execution",
                ty: AssemblyBuiltInFunction::Stop,
                stops_execution: true,
            },
            AssemblyBuiltInFunction::Add => AssemblyBuiltinPrototype {
                name: "add",
                no_args: 2,
                no_returns: 1,
                doc: "add(x, y) returns x + y",
                ty: AssemblyBuiltInFunction::Add,
                stops_execution: false,
            },
            AssemblyBuiltInFunction::Sub => AssemblyBuiltinPrototype {
                name: "sub",
                no_args: 2,
                no_returns: 1,
                doc: "sub(x, y) returns x - y",
                ty: AssemblyBuiltInFunction::Sub,
                stops_execution: false,
            },
            AssemblyBuiltInFunction::Mul => AssemblyBuiltinPrototype {
                name: "mul",
                no_args: 2,
                no_returns: 1,
                doc: "mul(x, y) returns x*y",
                ty: AssemblyBuiltInFunction::Mul,
                stops_execution: false,
            },
            AssemblyBuiltInFunction::Div => AssemblyBuiltinPrototype {
                name: "div",
                no_args: 2,
                no_returns: 1,
                doc: "div(x, y) returns x/y or 0 if y == 0",
                ty: AssemblyBuiltInFunction::Div,
                stops_execution: false,
            },
            AssemblyBuiltInFunction::SDiv => AssemblyBuiltinPrototype {
                name: "sdiv",
                no_args: 2,
                no_returns: 1,
                doc: "sdiv(x, y) returns x/y or 0 if y==0. Used for signed numbers in two's complement",
                ty: AssemblyBuiltInFunction::SDiv,
                stops_execution: false,
            },
            AssemblyBuiltInFunction::Mod => AssemblyBuiltinPrototype {
                name: "mod",
                no_args: 2,
                no_returns: 1,
                doc: "mod(x, y) returns x % y or 0 if y == 0",
                ty: AssemblyBuiltInFunction::Mod,
                stops_execution: false,
            },
            AssemblyBuiltInFunction::SMod => AssemblyBuiltinPrototype {
                name: "smod",
                no_args: 2,
                no_returns: 1,
                doc: "smod(x, y) returns x % y or 0 if y == 0. Used for signed numbers in two's complement",
                ty: AssemblyBuiltInFunction::SMod,
                stops_execution: false,
            },
            AssemblyBuiltInFunction::Exp => AssemblyBuiltinPrototype {
                name: "exp",
                no_args: 2,
                no_returns: 1,
                doc: "exp(x, y) returns x to the power of y",
                ty: AssemblyBuiltInFunction::Exp,
                stops_execution: false,
            },
            AssemblyBuiltInFunction::Not => AssemblyBuiltinPrototype {
                name: "not",
                no_args: 1,
                no_returns: 1,
                doc: "not(x): bitwise \"not\" of x (every bit is negated)",
                ty: AssemblyBuiltInFunction::Not,
                stops_execution: false,
            },
            AssemblyBuiltInFunction::Lt => AssemblyBuiltinPrototype {
                name: "lt",
                no_args: 2,
                no_returns: 1,
                doc: "lt(x, y) returns 1 if x < y, 0 otherwise",
                ty: AssemblyBuiltInFunction::Lt,
                stops_execution: false,
            },
            AssemblyBuiltInFunction::Gt => AssemblyBuiltinPrototype {
                name: "gt",
                no_args: 2,
                no_returns: 1,
                doc: "gt(x, y) returns 1 if x > y, 0 otherwise",
                ty: AssemblyBuiltInFunction::Gt,
                stops_execution: false,
            },
            AssemblyBuiltInFunction::Slt => AssemblyBuiltinPrototype {
                name: "slt",
                no_args: 2,
                no_returns: 1,
                doc: "slt(x, y) returns 1 if x > y, 0 otherwise. Used for signed numbers in two's complement",
                ty: AssemblyBuiltInFunction::Slt,
                stops_execution: false,
            },
            AssemblyBuiltInFunction::Sgt => AssemblyBuiltinPrototype {
                name: "sgt",
                no_args: 2,
                no_returns: 1,
                doc: "sgt(x, y) returns 1 if x > y, 0 otherwise. Used for signed numbers in two's complement",
                ty: AssemblyBuiltInFunction::Sgt,
                stops_execution: false,
            },
            AssemblyBuiltInFunction::Eq => AssemblyBuiltinPrototype {
                name: "eq",
                no_args: 2,
                no_returns: 1,
                doc: "eq(x, y) returns 1 if x == y, 0 otherwise",
                ty: AssemblyBuiltInFunction::Eq,
                stops_execution: false,
            },
            AssemblyBuiltInFunction::IsZero => AssemblyBuiltinPrototype {
                name: "iszero",
                no_args: 1,
                no_returns: 1,
                doc: "iszero(x) returns 1 if x == 0, 0 otherwise",
                ty: AssemblyBuiltInFunction::IsZero,
                stops_execution: false,
            },
            AssemblyBuiltInFunction::And => AssemblyBuiltinPrototype {
                name: "and",
                no_args: 2,
                no_returns: 1,
                doc: "and(x, y) returns the bitwise \"and\" between x and y",
                ty: AssemblyBuiltInFunction::And,
                stops_execution: false,
            },
            AssemblyBuiltInFunction::Or => AssemblyBuiltinPrototype {
                name: "or",
                no_args: 2,
                no_returns: 1,
                doc: "or(x, y) returns the bitwise \"or\" between x and y",
                ty: AssemblyBuiltInFunction::Or,
                stops_execution: false,
            },
            AssemblyBuiltInFunction::Xor => AssemblyBuiltinPrototype {
                name: "xor",
                no_args: 2,
                no_returns: 1,
                doc: "xor(x, y) returns the bitwise \"xor\" between x and y",
                ty: AssemblyBuiltInFunction::Xor,
                stops_execution: false,
            },
            AssemblyBuiltInFunction::Byte => AssemblyBuiltinPrototype {
                name: "byte",
                no_args: 2,
                no_returns: 1,
                doc: "byte(n, x) returns the nth byte of x, where the most significant byt is the 0th",
                ty: AssemblyBuiltInFunction::Byte,
                stops_execution: false,
            },
            AssemblyBuiltInFunction::Shl => AssemblyBuiltinPrototype {
                name: "shl",
                no_args: 2,
                no_returns: 1,
                doc: "shl(x, y) returns the logical shift left of y by x bits",
                ty: AssemblyBuiltInFunction::Shl,
                stops_execution: false,
            },
            AssemblyBuiltInFunction::Shr => AssemblyBuiltinPrototype {
                name: "shr",
                no_args: 2,
                no_returns: 1,
                doc: "shr(x, y) returns the logical shift right of y by x bits",
                ty: AssemblyBuiltInFunction::Shr,
                stops_execution: false,
            },
            AssemblyBuiltInFunction::Sar => AssemblyBuiltinPrototype {
                name: "sar",
                no_args: 2,
                no_returns: 1,
                doc: "signed arithmetic shift right y by x bits",
                ty: AssemblyBuiltInFunction::Sar,
                stops_execution: false,
            },
            AssemblyBuiltInFunction::AddMod => AssemblyBuiltinPrototype {
                name: "addmod",
                no_args: 3,
                no_returns: 1,
                doc: "addmod(x, y, m) returns (x + y) % m or 0 if m == 0",
                ty: AssemblyBuiltInFunction::AddMod,
                stops_execution: false,
            },
            AssemblyBuiltInFunction::MulMod => AssemblyBuiltinPrototype {
                name: "mulmod",
                no_args: 3,
                no_returns: 1,
                doc: "mulmod(x, y, m) returns (x * y) % m or 0 if m == 0",
                ty: AssemblyBuiltInFunction::MulMod,
                stops_execution: false,
            },
            AssemblyBuiltInFunction::SignExtend => AssemblyBuiltinPrototype {
                name: "signextend",
                no_args: 2,
                no_returns: 1,
                doc: "signextend(i, x) sign extends from (i*8+7)th bit counting from least significant",
                ty: AssemblyBuiltInFunction::SignExtend,
                stops_execution: false,
            },
            AssemblyBuiltInFunction::Keccak256 => AssemblyBuiltinPrototype {
                name: "keccak256",
                no_args: 2,
                no_returns: 1,
                doc: "keccak256(p, n) performs keccak(mem[p...(p+n)])",
                ty: AssemblyBuiltInFunction::Keccak256,
                stops_execution: false,
            },
            AssemblyBuiltInFunction::Pc => AssemblyBuiltinPrototype {
                name: "pc",
                no_args: 0,
                no_returns: 1,
                doc: "Returns the current position in code, i.e. the program counter",
                ty: AssemblyBuiltInFunction::Pc,
                stops_execution: false,
            },
            AssemblyBuiltInFunction::Pop => AssemblyBuiltinPrototype {
                name: "pop",
                no_args: 1,
                no_returns: 0,
                doc: "pop(x) discard value x",
                ty: AssemblyBuiltInFunction::Pop,
                stops_execution: false,
            },
            AssemblyBuiltInFunction::MLoad => AssemblyBuiltinPrototype {
                name: "mload",
                no_args: 1,
                no_returns: 1,
                doc: "mload(p) returns mem[p...(p+32)]",
                ty: AssemblyBuiltInFunction::MLoad,
                stops_execution: false,
            },
            AssemblyBuiltInFunction::MStore => AssemblyBuiltinPrototype {
                name: "mstore",
                no_args: 2,
                no_returns: 0,
                doc: "mstore(p, v) stores v into mem[p...(p+32)]",
                ty: AssemblyBuiltInFunction::MStore,
                stops_execution: false,
            },
            AssemblyBuiltInFunction::MStore8 => AssemblyBuiltinPrototype {
                name: "mstore8",
                no_args: 2,
                no_returns: 0,
                doc: "mstore8(p, v) stores (v & 0xff) into mem[p] (modified a single byte of v)",
                ty: AssemblyBuiltInFunction::MStore8,
                stops_execution: false,
            },
            AssemblyBuiltInFunction::SLoad => AssemblyBuiltinPrototype {
                name: "sload",
                no_args: 1,
                no_returns: 1,
                doc: "sload(p) returns storage[p], i.e. memory on contract's storage",
                ty: AssemblyBuiltInFunction::SLoad,
                stops_execution: false,
            },
            AssemblyBuiltInFunction::SStore => AssemblyBuiltinPrototype {
                name: "sstore",
                no_args: 2,
                no_returns: 0,
                doc: "sstore(p) stores v into storage[p]",
                ty: AssemblyBuiltInFunction::SStore,
                stops_execution: false,
            },
            AssemblyBuiltInFunction::MSize => AssemblyBuiltinPrototype {
                name: "msize",
                no_args: 0,
                no_returns: 1,
                doc: "Returns the size of memory, i.e largest accessed memory index",
                ty: AssemblyBuiltInFunction::MSize,
                stops_execution: false,
            },
            AssemblyBuiltInFunction::Gas => AssemblyBuiltinPrototype {
                name: "gas",
                no_args: 0,
                no_returns: 1,
                doc: "Returns gas still available to execution",
                ty: AssemblyBuiltInFunction::Gas,
                stops_execution: false,
            },
            AssemblyBuiltInFunction::Address => AssemblyBuiltinPrototype {
                name: "address",
                no_args: 0,
                no_returns: 1,
                doc: "Returns the address of the current contract / execution context",
                ty: AssemblyBuiltInFunction::Address,
                stops_execution: false,
            },
            AssemblyBuiltInFunction::Balance => AssemblyBuiltinPrototype {
                name: "balance",
                no_args: 2,
                no_returns: 1,
                doc: "balance(a) returns the wei balance at address a",
                ty: AssemblyBuiltInFunction::Balance,
                stops_execution: false,
            },
            AssemblyBuiltInFunction::SelfBalance => AssemblyBuiltinPrototype {
                name: "selfbalance",
                no_args: 0,
                no_returns: 1,
                doc: "Returns the wei balance at the address of the current contract / execution context",
                ty: AssemblyBuiltInFunction::SelfBalance,
                stops_execution: false,
            },
            AssemblyBuiltInFunction::Caller => AssemblyBuiltinPrototype {
                name: "caller",
                no_args: 0,
                no_returns: 1,
                doc: "Returns the call sender",
                ty: AssemblyBuiltInFunction::Caller,
                stops_execution: false,
            },
            AssemblyBuiltInFunction::CallValue => AssemblyBuiltinPrototype {
                name: "callvalue",
                no_args: 0,
                no_returns: 1,
                doc: "Returns the wei sent together with the current call",
                ty: AssemblyBuiltInFunction::CallValue,
                stops_execution: false,
            },
            AssemblyBuiltInFunction::CallDataLoad => AssemblyBuiltinPrototype {
                name: "calldataload",
                no_args: 1,
                no_returns: 1,
                doc: "calldataload(p) returns call data starting from position p (32 bytes)",
                ty: AssemblyBuiltInFunction::CallDataLoad,
                stops_execution: false,
            },
            AssemblyBuiltInFunction::CallDataSize => AssemblyBuiltinPrototype {
                name: "calldatasize",
                no_args: 0,
                no_returns: 1,
                doc: "Returns the size of call data in bytes",
                ty: AssemblyBuiltInFunction::CallDataSize,
                stops_execution: false,
            },
            AssemblyBuiltInFunction::CallDataCopy => AssemblyBuiltinPrototype {
                name: "calldatacopy",
                no_args: 3,
                no_returns: 0,
                doc: "calldatacopy(t, f, s) copies s bytes from calldata at position f to mem at position t",
                ty: AssemblyBuiltInFunction::CallDataCopy,
                stops_execution: false,
            },
            AssemblyBuiltInFunction::CodeSize => AssemblyBuiltinPrototype {
                name: "codesize",
                no_args: 0,
                no_returns: 1,
                doc: "Returns the size of the current contract / execution context",
                ty: AssemblyBuiltInFunction::CodeSize,
                stops_execution: false,
            },
            AssemblyBuiltInFunction::CodeCopy => AssemblyBuiltinPrototype {
                name: "codecopy",
                no_args: 3,
                no_returns: 0,
                doc: "codecopy(t, f, s) copies s bytes from code at position f to mem at position t",
                ty: AssemblyBuiltInFunction::CodeCopy,
                stops_execution: false,
            },
            AssemblyBuiltInFunction::ExtCodeSize => AssemblyBuiltinPrototype {
                name: "extcodesize",
                no_args: 1,
                no_returns: 1,
                doc: "extcodesize(a) returns the size of the code at address a",
                ty: AssemblyBuiltInFunction::ExtCodeSize,
                stops_execution: false,
            },
            AssemblyBuiltInFunction::ExtCodeCopy => AssemblyBuiltinPrototype {
                name: "extcodecopy",
                no_args: 4,
                no_returns: 0,
                doc: "extcodecopy(a, t, f, s) copies s bytes from code located at address a at position f to mem at position t",
                ty: AssemblyBuiltInFunction::ExtCodeCopy,
                stops_execution: false,
            },
            AssemblyBuiltInFunction::ReturnDataSize => AssemblyBuiltinPrototype {
                name: "returndatasize",
                no_args: 0,
                no_returns: 1,
                doc: "Returns the size of the last returndata",
                ty: AssemblyBuiltInFunction::ReturnDataSize,
                stops_execution: false,
            },
            AssemblyBuiltInFunction::ReturnDataCopy => AssemblyBuiltinPrototype {
                name: "returndatacopy",
                no_args: 3,
                no_returns: 0,
                doc: "returndatacopy(t, f, s) copy s bytes from return data at position f to mem at position t",
                ty: AssemblyBuiltInFunction::ReturnDataCopy,
                stops_execution: false,
            },
            AssemblyBuiltInFunction::ExtCodeHash => AssemblyBuiltinPrototype {
                name: "extcodehash",
                no_args: 1,
                no_returns: 1,
                doc: "extcodehash(a) returns the code hash of address a",
                ty: AssemblyBuiltInFunction::ExtCodeHash,
                stops_execution: false,
            },
            AssemblyBuiltInFunction::Create => AssemblyBuiltinPrototype {
                name: "create",
                no_args: 3,
                no_returns: 1,
                doc: "create(v, p, n) creates new contract with code mem[p..(p+n)] and sends v wei. It returns the new address or 0 on error",
                ty: AssemblyBuiltInFunction::Create,
                stops_execution: false,
            },
            AssemblyBuiltInFunction::Create2 => AssemblyBuiltinPrototype {
                name: "create2",
                no_args: 4,
                no_returns: 1,
                doc: "create2(v, p, n, s) new contract with code mem[p...(p+n)] at address keccak256(0xff . this . s . keccak256(mem[p...(p+n)]) and sends v wei.\n 0xff is a 1 byte value, 'this' is the current contract's address as a 20 byte value and 's' is a big endian 256-bit value. it returns 0 on error.",
                ty: AssemblyBuiltInFunction::Create2,
                stops_execution: false,
            },
            AssemblyBuiltInFunction::Call => AssemblyBuiltinPrototype {
                name: "call",
                no_args: 7,
                no_returns: 1,
                doc: "call(g, a, v, in, insize, out, outsize) calls contract at address a with input mem[in...(in+insize)] providing f cas and v wei and outputs area mem[out...(out+outsize)]. It returns 0 on error and 1 on success",
                ty: AssemblyBuiltInFunction::Call,
                stops_execution: false,
            },
            AssemblyBuiltInFunction::CallCode => AssemblyBuiltinPrototype {
                name: "callcode",
                no_args: 7,
                no_returns: 1,
                doc: "Identical to call(g, a, v, in, insize, out, outsize), but only use the code from a and stay in the context of the current contract otherwise",
                ty: AssemblyBuiltInFunction::CallCode,
                stops_execution: false,
            },
            AssemblyBuiltInFunction::DelegateCall => AssemblyBuiltinPrototype {
                name: "delegatecall",
                no_args: 6,
                no_returns: 1,
                doc: "Identical to 'callcode' but also keep caller and callvalue",
                ty: AssemblyBuiltInFunction::DelegateCall,
                stops_execution: false,
            },
            AssemblyBuiltInFunction::StaticCall => AssemblyBuiltinPrototype {
                name: "staticcall",
                no_args: 6,
                no_returns: 1,
                doc: "Identical to call(g, a, 0, in, insize, out, outsize), but do not allow state modifications",
                ty: AssemblyBuiltInFunction::StaticCall,
                stops_execution: false,
            },
            AssemblyBuiltInFunction::Return => AssemblyBuiltinPrototype {
                name: "return",
                no_args: 2,
                no_returns: 0,
                doc: "return(p, s) ends execution and returns data mem[p...(p+s)]",
                ty: AssemblyBuiltInFunction::Return,
                stops_execution: true,
            },
            AssemblyBuiltInFunction::Revert => AssemblyBuiltinPrototype {
                name: "revert",
                no_args: 2,
                no_returns: 0,
                doc: "revert(p, s) ends execution, reverts state changes and returns data mem[p...(p+s)]",
                ty: AssemblyBuiltInFunction::Revert,
                stops_execution: true,
            },
            AssemblyBuiltInFunction::SelfDestruct => AssemblyBuiltinPrototype {
                name: "selfdestruct",
                no_args: 1,
                no_returns: 0,
                doc: "selfdestruct(a) ends execution, destroy current contract and sends funds to a",
                ty: AssemblyBuiltInFunction::SelfDestruct,
                stops_execution: true,
            },
            AssemblyBuiltInFunction::Invalid => AssemblyBuiltinPrototype {
                name: "invalid",
                no_args: 0,
                no_returns: 0,
                doc: "Ends execution with invalid instruction",
                ty: AssemblyBuiltInFunction::Invalid,
                stops_execution: true,
            },
            AssemblyBuiltInFunction::Log0 => AssemblyBuiltinPrototype {
                name: "log0",
                no_args: 2,
                no_returns: 0,
                doc: "log(p, s): log without topics and data mem[p...(p+s)]",
                ty: AssemblyBuiltInFunction::Log0,
                stops_execution: false,
            },
            AssemblyBuiltInFunction::Log1 => AssemblyBuiltinPrototype {
                name: "log1",
                no_args: 3,
                no_returns: 0,
                doc: "log1(p, s, t1): log with topic t1 and data mem[p...(p+s)]",
                ty: AssemblyBuiltInFunction::Log1,
                stops_execution: false,
            },
            AssemblyBuiltInFunction::Log2 => AssemblyBuiltinPrototype {
                name: "log2",
                no_args: 4,
                no_returns: 0,
                doc: "log2(p, s, t1, t2): log with topics t1, t2 and data mem[p...(p+s)]",
                ty: AssemblyBuiltInFunction::Log2,
                stops_execution: false,
            },
            AssemblyBuiltInFunction::Log3 => AssemblyBuiltinPrototype {
                name: "log3",
                no_args: 5,
                no_returns: 0,
                doc: "log3(p, s, t1, t2, t3): log with topics t1, t2, t3 and data mem[p...(p+s)]",
                ty: AssemblyBuiltInFunction::Log3,
                stops_execution: false,
            },
            AssemblyBuiltInFunction::Log4 => AssemblyBuiltinPrototype {
                name: "log4",
                no_args: 6,
                no_returns: 0,
                doc: "log4(p, s, t1, t2, t3, t4): log with topics t1, t2, t3, t4 with data mem[p...(p+s)]",
                ty: AssemblyBuiltInFunction::Log4,
                stops_execution: false,
            },
            AssemblyBuiltInFunction::ChainId => AssemblyBuiltinPrototype {
                name: "chainid",
                no_args: 0,
                no_returns: 1,
                doc: "Returns the ID of the executing chain",
                ty: AssemblyBuiltInFunction::ChainId,
                stops_execution: false,
            },
            AssemblyBuiltInFunction::BaseFee => AssemblyBuiltinPrototype {
                name: "basefee",
                no_args: 0,
                no_returns: 1,
                doc: "Return the current block's base fee",
                ty: AssemblyBuiltInFunction::BaseFee,
                stops_execution: false,
            },
            AssemblyBuiltInFunction::Origin => AssemblyBuiltinPrototype {
                name: "origin",
                no_args: 0,
                no_returns: 1,
                doc: "Returns the transaction sender",
                ty: AssemblyBuiltInFunction::Origin,
                stops_execution: false,
            },
            AssemblyBuiltInFunction::GasPrice => AssemblyBuiltinPrototype {
                name: "gasprice",
                no_args: 0,
                no_returns: 1,
                doc: "Returns the gas price of the transaction",
                ty: AssemblyBuiltInFunction::GasPrice,
                stops_execution: false,
            },
            AssemblyBuiltInFunction::BlockHash => AssemblyBuiltinPrototype {
                name: "blockhash",
                no_args: 1,
                no_returns: 1,
                doc: "blockhash(b) return the hash of block #b - only valid for the last 256 executing block excluding current",
                ty: AssemblyBuiltInFunction::BlockHash,
                stops_execution: false,
            },
            AssemblyBuiltInFunction::CoinBase => AssemblyBuiltinPrototype {
                name: "coinbase",
                no_args: 0,
                no_returns: 1,
                doc: "Returns the current mining beneficiary",
                ty: AssemblyBuiltInFunction::CoinBase,
                stops_execution: false,
            },
            AssemblyBuiltInFunction::Timestamp => AssemblyBuiltinPrototype {
                name: "timestamp",
                no_args: 0,
                no_returns: 1,
                doc: "Returns the timestamp of the current block in seconds since the epoch",
                ty: AssemblyBuiltInFunction::Timestamp,
                stops_execution: false,
            },
            AssemblyBuiltInFunction::Number => AssemblyBuiltinPrototype {
                name: "number",
                no_args: 0,
                no_returns: 1,
                doc: "Returns the current block's number",
                ty: AssemblyBuiltInFunction::Number,
                stops_execution: false,
            },
            AssemblyBuiltInFunction::Difficulty => AssemblyBuiltinPrototype {
                name: "difficulty",
                no_args: 0,
                no_returns: 1,
                doc: "Returns the difficulty of the current block",
                ty: AssemblyBuiltInFunction::Difficulty,
                stops_execution: false,
            },
            AssemblyBuiltInFunction::GasLimit => AssemblyBuiltinPrototype {
                name: "gaslimit",
                no_args: 0,
                no_returns: 1,
                doc: "Returns the current block's gas limit",
                ty: AssemblyBuiltInFunction::GasLimit,
                stops_execution: false,
            },
        }
    }

    /// Canonical mnemonic of this operation as an owned string, for
    /// diagnostics and re-emission of assembly source.
    pub fn canonical_name(self) -> (s: String)
        ensures
            s@ == spec_name(self),
    {
        self.get_prototype_info().name.to_owned()
    }
}

/// One entry of the catalog, as it must stand at position `i`: its fields are
/// those of the operation whose discriminant is `i`.
pub open spec fn catalog_entry_at(p: AssemblyBuiltinPrototype, i: int) -> bool {
    &&& spec_discriminant(p.ty) == i
    &&& p.name@ == spec_name(p.ty)
    &&& p.no_args == spec_no_args(p.ty)
    &&& p.no_returns == spec_no_returns(p.ty)
    &&& p.doc@ == spec_doc(p.ty)
    &&& p.stops_execution == spec_stops_execution(p.ty)
}

/// The catalog itself: every prototype, ordered by discriminant.
pub fn builtin_catalog() -> (v: Vec<AssemblyBuiltinPrototype>)
    ensures
        v@.len() == BUILTIN_COUNT,
        forall|i: int| 0 <= i < v@.len() ==> catalog_entry_at(#[trigger] v@[i], i),
{
    let mut v: Vec<AssemblyBuiltinPrototype> = Vec::new();
    let mut i: usize = 0;
    while i < BUILTIN_COUNT
        invariant
            i <= BUILTIN_COUNT,
            v@.len() == i,
            forall|j: int| 0 <= j < i ==> catalog_entry_at(#[trigger] v@[j], j),
        decreases BUILTIN_COUNT - i,
    {
        let f = AssemblyBuiltInFunction::from_discriminant(i);
        v.push(f.get_prototype_info());
        i += 1;
    }
    v
}

} // verus!
