//! The rendering interface shared by every kind of node.

use vstd::prelude::*;
use vstd::utf8::encode_utf8;

verus! {

/// A node that can be written out as C source text.
pub trait ToC {
    /// The C source text of this node.
    spec fn text(&self) -> Seq<char>;

    /// Appends the text of this node to `s`.
    fn export_internal(&self, s: &mut String)
        ensures
            final(s)@ == old(s)@ + self.text(),
    ;

    /// Renders this node into a fresh string.
    fn export(&self) -> (r: String)
        ensures
            r@ == self.text(),
    {
        let mut s = String::new();
        self.export_internal(&mut s);
        s
    }
}

/// Two renderings of one node are the same text, and therefore the same bytes.
pub proof fn lemma_export_deterministic<T: ToC>(node: &T, first: String, second: String)
    requires
        call_ensures(T::export, (node,), first),
        call_ensures(T::export, (node,), second),
    ensures
        first@ == second@,
        encode_utf8(first@) == encode_utf8(second@),
{
}

/// However often one node is rendered, every rendering is the text of the node: nothing is
/// carried over from one rendering to the next.
pub proof fn lemma_export_repeatable<T: ToC>(node: &T, renderings: Seq<String>)
    requires
        forall|i: int|
            0 <= i < renderings.len() ==> call_ensures(T::export, (node,), #[trigger] renderings[i]),
    ensures
        forall|i: int| 0 <= i < renderings.len() ==> (#[trigger] renderings[i])@ == node.text(),
        forall|i: int, j: int|
            0 <= i < renderings.len() && 0 <= j < renderings.len() ==> (#[trigger] renderings[i])@
                == (#[trigger] renderings[j])@,
{
}

} // verus!
