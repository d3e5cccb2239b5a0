//! The lowered program, as far as the pipeline looks into it: whether its
//! instructions draw on an execution budget.

use vstd::prelude::*;
use cairo_lang_sierra::program::Program;

verus! {

/// The lowered program of `cairo_lang_sierra`. Its fields are not read here.
#[verifier::external_type_specification]
#[verifier::external_body]
pub struct ExProgram(Program);

/// The libfuncs that a program declares: for each of its libfunc
/// declarations, in order, the name of the generic libfunc that the
/// declaration instantiates.
pub uninterp spec fn declared_libfuncs(program: Program) -> Seq<Seq<char>>;

/// Whether a generic libfunc draws on the execution budget.
pub open spec fn is_metering_libfunc(name: Seq<char>) -> bool {
    name == "withdraw_gas"@ || name == "withdraw_gas_all"@ || name == "redeposit_gas"@
}

/// Whether any of the libfuncs draws on the execution budget.
pub open spec fn requires_metering(libfuncs: Seq<Seq<char>>) -> bool {
    exists|i: int| 0 <= i < libfuncs.len() && is_metering_libfunc(#[trigger] libfuncs[i])
}

/// Calls `Program::requires_gas_counter` of `cairo_lang_sierra`. Not proved:
/// that the answer is true exactly when one of the program's libfunc
/// declarations names the generic libfunc `withdraw_gas`, `withdraw_gas_all`
/// or `redeposit_gas`.
#[verifier::external_body]
pub(crate) fn requires_gas_counter(program: &Program) -> (required: bool)
    ensures
        required == requires_metering(declared_libfuncs(*program)),
{
    program.requires_gas_counter()
}

} // verus!
