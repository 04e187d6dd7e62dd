//! Shared machinery behind every closed vocabulary: lookup of a token among
//! the canonical strings of a type, and the message for a token that none of
//! them matches.
use vstd::prelude::*;
use vstd::string::StringExecFns;

verus! {

/// The message carried by a failed lookup of `token` in the vocabulary named
/// `enum_name`.
pub open spec fn unknown_variant_text(token: Seq<char>, enum_name: Seq<char>) -> Seq<char> {
    "No variant '"@ + token + "' found for enum '"@ + enum_name + "'"@
}

/// Finds the position of `token` among `names`, comparing exactly (no case
/// folding, no trimming). Returns the first position that matches.
pub fn lookup(names: &[&str], token: &str) -> (r: Option<usize>)
    ensures
        match r {
            Some(i) => i < names@.len() && names@[i as int]@ == token@ && forall|j: int|
                0 <= j < i ==> names@[j]@ != token@,
            None => forall|j: int| 0 <= j < names@.len() ==> names@[j]@ != token@,
        },
{
    let wanted: String = token.to_owned();
    let mut i: usize = 0;
    while i < names.len()
        invariant
            0 <= i <= names@.len(),
            wanted@ == token@,
            forall|j: int| 0 <= j < i ==> names@[j]@ != token@,
        decreases names@.len() - i,
    {
        let candidate: String = names[i].to_owned();
        if candidate == wanted {
            return Some(i);
        }
        i = i + 1;
    }
    None
}

/// Builds the message for a token that no variant of `enum_name` spells.
pub fn unknown_variant(token: &str, enum_name: &str) -> (r: String)
    ensures
        r@ == unknown_variant_text(token@, enum_name@),
{
    let mut msg = String::from_str("No variant '");
    msg.append(token);
    msg.append("' found for enum '");
    msg.append(enum_name);
    msg.append("'");
    msg
}

} // verus!
