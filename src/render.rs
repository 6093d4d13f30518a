//! The textual form of lists and zipper lists, built from the text of each
//! element.

use vstd::prelude::*;
use vstd::string::StringExecFns;

verus! {

/// The texts in `parts`, in order, with `", "` between each two.
pub open spec fn comma_joined(parts: Seq<String>) -> Seq<char>
    decreases parts.len(),
{
    if parts.len() == 0 {
        Seq::empty()
    } else if parts.len() == 1 {
        parts[0]@
    } else {
        comma_joined(parts.drop_last()) + seq![',', ' '] + parts.last()@
    }
}

/// The text of a list whose elements read `parts`, head first: `[a, b, c]`.
pub open spec fn list_text(parts: Seq<String>) -> Seq<char> {
    seq!['['] + comma_joined(parts) + seq![']']
}

/// The text of a zipper list whose sides read `left` and `right`, each
/// nearest to the cursor first; the cursor shows as `_`: `[b, a, _, c]`.
pub open spec fn zip_text(left: Seq<String>, right: Seq<String>) -> Seq<char> {
    seq!['['] + (if left.len() == 0 {
        Seq::empty()
    } else {
        comma_joined(left) + seq![',', ' ']
    }) + seq!['_'] + (if right.len() == 0 {
        Seq::empty()
    } else {
        seq![',', ' '] + comma_joined(right)
    }) + seq![']']
}

/// Appends the texts in `parts` to `out`, with `", "` between each two.
fn append_joined(out: &mut String, parts: &Vec<String>)
    ensures
        final(out)@ == old(out)@ + comma_joined(parts@),
{
    let ghost start = out@;
    let mut i: usize = 0;
    while i < parts.len()
        invariant
            i <= parts.len(),
            out@ == start + comma_joined(parts@.take(i as int)),
        decreases parts.len() - i,
    {
        proof {
            reveal_strlit(", ");
            assert(parts@.take(i + 1).drop_last() =~= parts@.take(i as int));
        }
        if i > 0 {
            out.append(", ");
        }
        out.append(parts[i].as_str());
        proof {
            let done = parts@.take(i + 1);
            if i == 0 {
                assert(comma_joined(parts@.take(0)) =~= Seq::<char>::empty());
                assert(comma_joined(done) == done[0]@);
            }
        }
        i = i + 1;
    }
    assert(parts@.take(parts.len() as int) =~= parts@);
}

/// Renders a list from the texts of its elements, head first, as
/// `[a, b, c]`; an empty list renders as `[]`.
pub fn render_list(parts: &Vec<String>) -> (r: String)
    ensures
        r@ == list_text(parts@),
{
    proof {
        reveal_strlit("[");
        reveal_strlit("]");
    }
    let mut out = String::new();
    out.append("[");
    append_joined(&mut out, parts);
    out.append("]");
    out
}

/// Renders a zipper list from the texts of the elements on each side, each
/// nearest to the cursor first, as `[b, a, _, c]`, where `_` marks the
/// cursor; an empty zipper list renders as `[_]`.
pub fn render_zip(left: &Vec<String>, right: &Vec<String>) -> (r: String)
    ensures
        r@ == zip_text(left@, right@),
{
    proof {
        reveal_strlit("[");
        reveal_strlit("]");
        reveal_strlit("_");
        reveal_strlit(", ");
    }
    let mut out = String::new();
    out.append("[");
    if left.len() > 0 {
        append_joined(&mut out, left);
        out.append(", ");
    }
    out.append("_");
    if right.len() > 0 {
        out.append(", ");
        append_joined(&mut out, right);
    }
    out.append("]");
    out
}

} // verus!
