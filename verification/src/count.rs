//! The arity rule: how many parameters a parameter list declares.
//!
//! A parameter list is seen here only through the kinds of its immediate
//! children in the syntax tree.  An ordinary parameter counts as one, a
//! receiver (`self`-like) parameter counts as nothing, and every other child
//! (punctuation, comments) counts as nothing.

use vstd::prelude::*;
use vstd::string::StrSliceExecFns;

verus! {

/// The node kind that marks a method's receiver parameter.
pub open spec fn is_receiver_kind(k: Seq<char>) -> bool {
    k == "self_parameter"@
}

/// The node kind of an ordinary declared parameter.
pub open spec fn is_parameter_kind(k: Seq<char>) -> bool {
    k == "parameter"@
}

/// What one child of a parameter list adds to the arity: a receiver adds
/// nothing, an ordinary parameter adds one, anything else adds nothing.
pub open spec fn kind_weight(k: Seq<char>) -> nat {
    if is_receiver_kind(k) {
        0
    } else if is_parameter_kind(k) {
        1
    } else {
        0
    }
}

/// Declared arity of a parameter list, given the kinds of its immediate
/// children in order.
pub open spec fn arity_of(kinds: Seq<Seq<char>>) -> nat
    decreases kinds.len(),
{
    if kinds.len() == 0 {
        0
    } else {
        arity_of(kinds.drop_last()) + kind_weight(kinds.last())
    }
}

/// The views of a sequence of kind strings.
pub open spec fn kinds_view(ks: Seq<String>) -> Seq<Seq<char>> {
    ks.map_values(|s: String| s@)
}

/// Character-by-character string comparison.
fn str_eq(a: &str, b: &str) -> (r: bool)
    ensures
        r == (a@ == b@),
{
    let la: usize = a.unicode_len();
    let lb: usize = b.unicode_len();
    if la != lb {
        return false;
    }
    let mut i: usize = 0;
    while i < la
        invariant
            la == a@.len(),
            lb == b@.len(),
            la == lb,
            i <= la,
            forall|j: int| 0 <= j < i ==> a@[j] == b@[j],
        decreases la - i,
    {
        let ca: char = a.get_char(i);
        let cb: char = b.get_char(i);
        if ca != cb {
            return false;
        }
        i = i + 1;
    }
    proof {
        assert(a@ =~= b@);
    }
    true
}

/// Does this child kind name a receiver parameter?
pub fn kind_is_receiver(k: &str) -> (r: bool)
    ensures
        r == is_receiver_kind(k@),
{
    str_eq(k, "self_parameter")
}

/// Does this child kind name an ordinary parameter?
pub fn kind_is_parameter(k: &str) -> (r: bool)
    ensures
        r == is_parameter_kind(k@),
{
    str_eq(k, "parameter")
}

/// Count the declared parameters of a parameter list whose immediate
/// children have the given kinds, excluding a receiver parameter.
pub fn count_parameters(kinds: &Vec<String>) -> (r: usize)
    ensures
        r as nat == arity_of(kinds_view(kinds@)),
{
    let mut count: usize = 0;
    let mut i: usize = 0;
    while i < kinds.len()
        invariant
            i <= kinds@.len(),
            count <= i,
            count as nat == arity_of(kinds_view(kinds@).take(i as int)),
        decreases kinds@.len() - i,
    {
        let k: &String = &kinds[i];
        if kind_is_receiver(k.as_str()) {
            // a receiver never counts toward the arity
        } else if kind_is_parameter(k.as_str()) {
            count = count + 1;
        }
        i = i + 1;
        proof {
            let full = kinds_view(kinds@);
            assert(full.take(i as int).drop_last() =~= full.take(i - 1));
            assert(full.take(i as int).last() == kinds@[i - 1]@);
        }
    }
    proof {
        assert(kinds_view(kinds@).take(kinds@.len() as int) =~= kinds_view(kinds@));
    }
    count
}

/// A receiver standing as the first child of a parameter list never counts:
/// dropping it leaves the arity unchanged.
pub proof fn lemma_receiver_not_counted(kinds: Seq<Seq<char>>)
    requires
        kinds.len() > 0,
        is_receiver_kind(kinds.first()),
    ensures
        arity_of(kinds) == arity_of(kinds.drop_first()),
    decreases kinds.len(),
{
    if kinds.len() == 1 {
        assert(kinds.drop_last() =~= Seq::<Seq<char>>::empty());
        assert(kinds.drop_first() =~= Seq::<Seq<char>>::empty());
        assert(kind_weight(kinds.last()) == 0);
    } else {
        lemma_receiver_not_counted(kinds.drop_last());
        assert(kinds.drop_last().drop_first() =~= kinds.drop_first().drop_last());
        assert(kinds.drop_first().last() == kinds.last());
    }
}

} // verus!
