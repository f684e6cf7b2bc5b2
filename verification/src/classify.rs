//! The constraint classifier: what an attribute's name means to the diagram.

use vstd::prelude::*;
use vstd::utf8::{encode_utf8, encode_utf8_decode_utf8};

verus! {

/// What an attribute contributes, judged by its name alone.
#[derive(Clone, Copy, Debug, PartialEq, Eq, Structural)]
pub enum AttributeKind {
    /// `id`: the field is the primary key.
    PrimaryKeyMarker,
    /// `unique`: the field is unique.
    UniqueMarker,
    /// `relation`: the field refers to another model.
    RelationMarker,
    /// Any other name: nothing to draw.
    Unrecognized,
}

/// The kind of the attribute called `name`.
pub open spec fn kind_of(name: Seq<char>) -> AttributeKind {
    if name == "id"@ {
        AttributeKind::PrimaryKeyMarker
    } else if name == "unique"@ {
        AttributeKind::UniqueMarker
    } else if name == "relation"@ {
        AttributeKind::RelationMarker
    } else {
        AttributeKind::Unrecognized
    }
}

/// The three recognised names are `id`, `unique` and `relation`, and they
/// differ from each other: each kind belongs to exactly one name.
pub proof fn lemma_kind_of_names(name: Seq<char>)
    ensures
        kind_of(name) == AttributeKind::PrimaryKeyMarker <==> name == "id"@,
        kind_of(name) == AttributeKind::UniqueMarker <==> name == "unique"@,
        kind_of(name) == AttributeKind::RelationMarker <==> name == "relation"@,
{
    reveal_strlit("id");
    reveal_strlit("unique");
    reveal_strlit("relation");
    assert("unique"@.len() == 6);
    assert("relation"@.len() == 8);
}

/// Whether two strings hold the same text, decided on their bytes.
pub fn same_text(a: &str, b: &str) -> (same: bool)
    ensures
        same == (a@ == b@),
{
    let x = a.as_bytes();
    let y = b.as_bytes();
    proof {
        // Encoding is injective: decoding gives the text back.
        encode_utf8_decode_utf8(a@);
        encode_utf8_decode_utf8(b@);
    }
    if x.len() != y.len() {
        return false;
    }
    let mut i: usize = 0;
    while i < x.len()
        invariant
            i <= x.len(),
            x.len() == y.len(),
            x@ == encode_utf8(a@),
            y@ == encode_utf8(b@),
            forall|k: int| 0 <= k < i ==> x@[k] == y@[k],
        decreases x.len() - i,
    {
        if x[i] != y[i] {
            return false;
        }
        i += 1;
    }
    assert(x@ =~= y@);
    true
}

/// Classifies an attribute by its name.
pub fn classify(name: &str) -> (kind: AttributeKind)
    ensures
        kind == kind_of(name@),
{
    if same_text(name, "id") {
        AttributeKind::PrimaryKeyMarker
    } else if same_text(name, "unique") {
        AttributeKind::UniqueMarker
    } else if same_text(name, "relation") {
        AttributeKind::RelationMarker
    } else {
        AttributeKind::Unrecognized
    }
}

} // verus!
