use crate::decode::{text_pairs, FromJson};
use crate::json::{number_from_u64, Json, JsonView};
use crate::metadata::{pairs_view, Metadata};
use vstd::prelude::*;

verus! {

/// A type whose values can be written as a JSON value.
pub trait ToJson {
    /// The JSON value that stands for `self`.
    spec fn json(&self) -> JsonView;

    /// Writes `self` as a JSON value.
    fn to_json(&self) -> (tree: Json)
        ensures
            tree@ == self.json(),
    ;
}

impl ToJson for String {
    open spec fn json(&self) -> JsonView {
        JsonView::Text(self@)
    }

    fn to_json(&self) -> (tree: Json) {
        Json::Text(self.clone())
    }
}

impl ToJson for serde_json::Number {
    open spec fn json(&self) -> JsonView {
        JsonView::Number(*self)
    }

    fn to_json(&self) -> (tree: Json) {
        Json::Number(self.clone())
    }
}

impl ToJson for u64 {
    open spec fn json(&self) -> JsonView {
        JsonView::Number(number_from_u64(*self))
    }

    fn to_json(&self) -> (tree: Json) {
        Json::Number(serde_json::Number::from(*self))
    }
}

impl<T: ToJson> ToJson for Option<T> {
    open spec fn json(&self) -> JsonView {
        match self {
            Some(value) => value.json(),
            None => JsonView::Null,
        }
    }

    fn to_json(&self) -> (tree: Json) {
        match self {
            Some(value) => value.to_json(),
            None => Json::Null,
        }
    }
}

/// The object members that a list of pairs stands for: one text member for
/// each pair, in the same order.
pub open spec fn text_members(pairs: Seq<(Seq<char>, Seq<char>)>) -> Seq<(Seq<char>, JsonView)> {
    Seq::new(pairs.len(), |i: int| (pairs[i].0, JsonView::Text(pairs[i].1)))
}

impl ToJson for Metadata {
    open spec fn json(&self) -> JsonView {
        JsonView::Object(text_members(self.pairs()))
    }

    fn to_json(&self) -> (tree: Json) {
        let pairs = self.as_pairs();
        let mut fields: Vec<(String, Json)> = Vec::new();
        let mut i: usize = 0;
        while i < pairs.len()
            invariant
                i <= pairs@.len(),
                fields@.len() == i,
                forall|k: int|
                    0 <= k < i ==> (#[trigger] fields@[k]).0@ == pairs@[k].0@ && fields@[k].1@
                        == JsonView::Text(pairs@[k].1@),
            decreases pairs@.len() - i,
        {
            fields.push((pairs[i].0.clone(), Json::Text(pairs[i].1.clone())));
            i += 1;
        }
        let tree = Json::Object(fields);
        assert(tree@->Object_0 =~= text_members(pairs_view(pairs@)));
        tree
    }
}

/// The object that stands for a map can be read back, and what is read back
/// holds the same keys with the same values.
pub proof fn law_metadata_reads_back(written: Metadata, read: Metadata)
    ensures
        Metadata::accepts(written.json()),
        read.mirrors(written.json()) ==> read@ == written@,
{
    let members = text_members(written.pairs());
    assert(written.json()->Object_0 == members);
    assert forall|i: int| 0 <= i < members.len() implies (#[trigger] members[i]).1 is Text by {}
    assert(text_pairs(members) =~= written.pairs());
}

} // verus!
