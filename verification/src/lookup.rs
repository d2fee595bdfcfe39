//! Classification of identifier tokens against the registry.
//!
//! `parse_builtin_keyword` is the primary query: it maps a case-sensitive
//! mnemonic to the operation it names, or reports that no operation has that
//! name. `assembly_unsupported_builtin` is the secondary query, consulted
//! after a lookup miss to tell a recognized-but-unsupported mnemonic apart
//! from an unknown identifier.

use vstd::prelude::*;

use crate::builtin::AssemblyBuiltInFunction;
use crate::builtin::BUILTIN_COUNT;
use crate::builtin::spec_discriminant;
use crate::builtin::spec_is_unsupported;
use crate::builtin::spec_name;
use crate::consistency::lemma_discriminant_determines_builtin;
use crate::consistency::lemma_discriminant_in_range;

verus! {

/// True exactly when the two strings hold the same sequence of characters.
fn str_eq(a: &str, b: &str) -> (r: bool)
    ensures
        r == (a@ == b@),
{
    let a_len = a.unicode_len();
    let b_len = b.unicode_len();
    if a_len != b_len {
        return false;
    }
    let mut i: usize = 0;
    while i < a_len
        invariant
            i <= a_len,
            a_len == a@.len(),
            b_len == b@.len(),
            a_len == b_len,
            forall|j: int| 0 <= j < i ==> a@[j] == b@[j],
        decreases a_len - i,
    {
        if a.get_char(i) != b.get_char(i) {
            return false;
        }
        i += 1;
    }
    proof {
        assert(a@ =~= b@);
    }
    true
}

/// Retrieves the builtin function type from an identifier name. The mnemonic
/// is matched exactly as written: the result is the operation carrying that
/// name, and a miss means that no operation in the catalog carries it.
pub fn parse_builtin_keyword(keyword: &str) -> (r: Option<AssemblyBuiltInFunction>)
    ensures
        match r {
            Some(f) => spec_name(f) == keyword@,
            None => forall|f: AssemblyBuiltInFunction| spec_name(f) != keyword@,
        },
{
    let mut i: usize = 0;
    while i < BUILTIN_COUNT
        invariant
            i <= BUILTIN_COUNT,
            forall|g: AssemblyBuiltInFunction|
                #[trigger] spec_discriminant(g) < i ==> spec_name(g) != keyword@,
        decreases BUILTIN_COUNT - i,
    {
        let f = AssemblyBuiltInFunction::from_discriminant(i);
        let p = f.get_prototype_info();
        if str_eq(p.name, keyword) {
            return Some(f);
        }
        proof {
            assert forall|g: AssemblyBuiltInFunction|
                #[trigger] spec_discriminant(g) < i + 1 implies spec_name(g) != keyword@ by {
                if spec_discriminant(g) == i as int {
                    lemma_discriminant_determines_builtin(g, f);
                }
            }
        }
        i += 1;
    }
    proof {
        assert forall|f: AssemblyBuiltInFunction| spec_name(f) != keyword@ by {
            lemma_discriminant_in_range(f);
        }
    }
    None
}

/// Checks if builtin function is unsupported: a pure membership test against
/// the curated set of recognized-but-unsupported mnemonics.
pub fn assembly_unsupported_builtin(name: &str) -> (r: bool)
    ensures
        r == spec_is_unsupported(name@),
{
    str_eq(name, "datasize") || str_eq(name, "dataoffset") || str_eq(name, "datacopy")
        || str_eq(name, "setimmutable") || str_eq(name, "loadimmutable")
        || str_eq(name, "linkersymbol") || str_eq(name, "memoryguard")
}

} // verus!
