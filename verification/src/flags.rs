//! The sense flags of a dependency relation and the label that names them.

use crate::text::{join, join_holds_part, join_keeps_order, join_strings, part_start, texts};
use vstd::prelude::*;

verus! {

/// The names of the flags that `rpm::DependencyFlags` finds set in `bits`,
/// in the order in which its `iter_names` yields them.
pub uninterp spec fn flag_names(bits: u32) -> Seq<Seq<char>>;

/// Calls `iter_names` of `rpm::DependencyFlags` on the value made of `bits`
/// and collects the names it yields, in its order.
///
/// Trusted: that the names are a function of the bits alone, and that the
/// enumeration of an empty set of bits yields nothing.
#[verifier::external_body]
fn named_flags(bits: u32) -> (names: Vec<String>)
    ensures
        texts(names@) == flag_names(bits),
        bits == 0 ==> names@.len() == 0,
{
    rpm::DependencyFlags::from_bits_retain(bits).iter_names().map(|(name, _)| name.to_string()).collect()
}

/// The text between two flag names in a label.
pub open spec fn separator() -> Seq<char> {
    seq![' ', '|', ' ']
}

/// The label of a set of flags: the names of the flags set, in the order of
/// the flag enumeration, joined by `" | "`.
pub open spec fn flags_label(bits: u32) -> Seq<char> {
    join(flag_names(bits), separator())
}

/// Renders the flags of a relation as a label.
pub fn flags_to_label(bits: u32) -> (label: String)
    ensures
        label@ == flags_label(bits),
        bits == 0 ==> label@ == Seq::<char>::empty(),
{
    let names = named_flags(bits);
    proof {
        reveal_strlit(" | ");
        assert(" | "@ =~= separator());
        if bits == 0 {
            assert(texts(names@).len() == 0);
        }
    }
    join_strings(&names, " | ")
}

/// In the label of a set of flags the names stand whole and in the order
/// in which the flag enumeration yields them: of two names, the one that
/// the enumeration yields first stands first, and it and the separator
/// after it end before the other begins.
pub proof fn label_keeps_enumeration_order(bits: u32, i: int, j: int)
    requires
        0 <= i < j < flag_names(bits).len(),
    ensures
        ({
            let names = flag_names(bits);
            let label = flags_label(bits);
            let at_i = part_start(names, separator(), i);
            let at_j = part_start(names, separator(), j);
            &&& 0 <= at_i
            &&& at_i + names[i].len() + separator().len() <= at_j
            &&& at_j + names[j].len() <= label.len()
            &&& label.subrange(at_i, at_i + names[i].len()) == names[i]
            &&& label.subrange(at_j, at_j + names[j].len()) == names[j]
        }),
{
    join_holds_part(flag_names(bits), separator(), i);
    join_holds_part(flag_names(bits), separator(), j);
    join_keeps_order(flag_names(bits), separator(), i, j);
}

} // verus!
