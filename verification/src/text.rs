use vstd::prelude::*;

verus! {

/// Whether two texts are the same sequence of characters.
pub fn same_text(left: &str, right: &str) -> (same: bool)
    ensures
        same == (left@ == right@),
{
    let a = left.to_owned();
    let b = right.to_owned();
    a == b
}

/// `text` begins with `prefix`, both read as UTF-8.
pub open spec fn begins_with(text: Seq<char>, prefix: Seq<char>) -> bool {
    vstd::utf8::encode_utf8(prefix).is_prefix_of(vstd::utf8::encode_utf8(text))
}

/// Whether `text` begins with `prefix`.
pub fn starts_with(text: &str, prefix: &str) -> (found: bool)
    ensures
        found == begins_with(text@, prefix@),
{
    let whole = text.as_bytes();
    let head = prefix.as_bytes();
    if head.len() > whole.len() {
        return false;
    }
    let mut at: usize = 0;
    while at < head.len()
        invariant
            at <= head.len() <= whole.len(),
            whole@ == vstd::utf8::encode_utf8(text@),
            head@ == vstd::utf8::encode_utf8(prefix@),
            forall|k: int| 0 <= k < at ==> head@[k] == whole@[k],
        decreases head.len() - at,
    {
        if head[at] != whole[at] {
            assert(head@[at as int] != whole@[at as int]);
            return false;
        }
        at += 1;
    }
    assert(head@ =~= whole@.subrange(0, head@.len() as int));
    true
}

} // verus!
