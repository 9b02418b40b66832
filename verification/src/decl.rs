//! One extracted declaration, as the pattern extraction hands it over.

use vstd::prelude::*;
use crate::count::arity_of;
use crate::count::kinds_view;

verus! {

/// One function-like declaration found in a source file: its name, the
/// 0-based source row on which its parameter list starts, and the kinds of
/// the parameter list's immediate children, in order.  Whether the
/// declaration has a body makes no difference here: both shapes are
/// captured alike.
pub struct Declaration {
    pub name: String,
    pub row: usize,
    pub param_kinds: Vec<String>,
}

/// The declared arity of a declaration.
pub open spec fn decl_arity(d: Declaration) -> nat {
    arity_of(kinds_view(d.param_kinds@))
}

/// The 1-based line reported for a declaration whose parameter list starts
/// on the given 0-based row (saturating at the machine limit).
pub open spec fn line_of_row(row: nat) -> nat {
    if row < usize::MAX as nat {
        row + 1
    } else {
        row
    }
}

} // verus!
