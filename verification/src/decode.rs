use crate::json::{number_as_i64, number_as_u64, Json, JsonView};
use crate::metadata::{pairs_map, Metadata};
use vstd::prelude::*;

verus! {

/// A type whose values can be read from a JSON value.
pub trait FromJson: Sized {
    /// Whether `tree` has the shape of a value of this type.
    spec fn accepts(tree: JsonView) -> bool;

    /// Whether `self` holds exactly what `tree` says.
    spec fn mirrors(&self, tree: JsonView) -> bool;

    /// Reads a value from `tree`; `None` where `tree` does not have the shape.
    fn from_json(tree: &Json) -> (read: Option<Self>)
        ensures
            read is Some <==> Self::accepts(tree@),
            read matches Some(value) ==> value.mirrors(tree@),
    ;
}

impl FromJson for bool {
    open spec fn accepts(tree: JsonView) -> bool {
        tree is Bool
    }

    open spec fn mirrors(&self, tree: JsonView) -> bool {
        tree == JsonView::Bool(*self)
    }

    fn from_json(tree: &Json) -> (read: Option<bool>) {
        match tree {
            Json::Bool(b) => Some(*b),
            _ => None,
        }
    }
}

impl FromJson for String {
    open spec fn accepts(tree: JsonView) -> bool {
        tree is Text
    }

    open spec fn mirrors(&self, tree: JsonView) -> bool {
        tree == JsonView::Text(self@)
    }

    fn from_json(tree: &Json) -> (read: Option<String>) {
        match tree {
            Json::Text(s) => Some(s.clone()),
            _ => None,
        }
    }
}

impl FromJson for serde_json::Number {
    open spec fn accepts(tree: JsonView) -> bool {
        tree is Number
    }

    open spec fn mirrors(&self, tree: JsonView) -> bool {
        tree == JsonView::Number(*self)
    }

    fn from_json(tree: &Json) -> (read: Option<serde_json::Number>) {
        match tree {
            Json::Number(n) => Some(n.clone()),
            _ => None,
        }
    }
}

/// The non-negative integer that `tree` holds, if it is one that fits a `u64`.
pub open spec fn unsigned_of(tree: JsonView) -> Option<u64> {
    match tree {
        JsonView::Number(n) => number_as_u64(n),
        _ => None,
    }
}

/// The integer that `tree` holds, if it is one that fits an `i64`.
pub open spec fn signed_of(tree: JsonView) -> Option<i64> {
    match tree {
        JsonView::Number(n) => number_as_i64(n),
        _ => None,
    }
}

fn read_unsigned(tree: &Json) -> (read: Option<u64>)
    ensures
        read == unsigned_of(tree@),
{
    match tree {
        Json::Number(n) => n.as_u64(),
        _ => None,
    }
}

fn read_signed(tree: &Json) -> (read: Option<i64>)
    ensures
        read == signed_of(tree@),
{
    match tree {
        Json::Number(n) => n.as_i64(),
        _ => None,
    }
}

impl FromJson for u64 {
    open spec fn accepts(tree: JsonView) -> bool {
        unsigned_of(tree) is Some
    }

    open spec fn mirrors(&self, tree: JsonView) -> bool {
        unsigned_of(tree) == Some(*self)
    }

    fn from_json(tree: &Json) -> (read: Option<u64>) {
        read_unsigned(tree)
    }
}

impl FromJson for u32 {
    open spec fn accepts(tree: JsonView) -> bool {
        unsigned_of(tree) matches Some(n) && n <= u32::MAX
    }

    open spec fn mirrors(&self, tree: JsonView) -> bool {
        unsigned_of(tree) matches Some(n) && n == *self
    }

    fn from_json(tree: &Json) -> (read: Option<u32>) {
        match read_unsigned(tree) {
            Some(n) => if n <= 0xffff_ffff {
                Some(n as u32)
            } else {
                None
            },
            None => None,
        }
    }
}

impl FromJson for u16 {
    open spec fn accepts(tree: JsonView) -> bool {
        unsigned_of(tree) matches Some(n) && n <= u16::MAX
    }

    open spec fn mirrors(&self, tree: JsonView) -> bool {
        unsigned_of(tree) matches Some(n) && n == *self
    }

    fn from_json(tree: &Json) -> (read: Option<u16>) {
        match read_unsigned(tree) {
            Some(n) => if n <= 0xffff {
                Some(n as u16)
            } else {
                None
            },
            None => None,
        }
    }
}

impl FromJson for i32 {
    open spec fn accepts(tree: JsonView) -> bool {
        signed_of(tree) matches Some(n) && i32::MIN <= n <= i32::MAX
    }

    open spec fn mirrors(&self, tree: JsonView) -> bool {
        signed_of(tree) matches Some(n) && n == *self
    }

    fn from_json(tree: &Json) -> (read: Option<i32>) {
        match read_signed(tree) {
            Some(n) => if -0x8000_0000 <= n && n <= 0x7fff_ffff {
                Some(n as i32)
            } else {
                None
            },
            None => None,
        }
    }
}

impl<T: FromJson> FromJson for Option<T> {
    open spec fn accepts(tree: JsonView) -> bool {
        tree is Null || T::accepts(tree)
    }

    open spec fn mirrors(&self, tree: JsonView) -> bool {
        if tree is Null {
            self is None
        } else {
            self matches Some(value) && value.mirrors(tree)
        }
    }

    fn from_json(tree: &Json) -> (read: Option<Option<T>>) {
        match tree {
            Json::Null => Some(None),
            _ => match T::from_json(tree) {
                Some(value) => Some(Some(value)),
                None => None,
            },
        }
    }
}

impl<T: FromJson> FromJson for Vec<T> {
    open spec fn accepts(tree: JsonView) -> bool {
        tree is Array && forall|i: int|
            0 <= i < tree->Array_0.len() ==> T::accepts(#[trigger] tree->Array_0[i])
    }

    open spec fn mirrors(&self, tree: JsonView) -> bool {
        tree is Array && self@.len() == tree->Array_0.len() && forall|i: int|
            0 <= i < self@.len() ==> (#[trigger] self@[i]).mirrors(tree->Array_0[i])
    }

    fn from_json(tree: &Json) -> (read: Option<Vec<T>>) {
        match tree {
            Json::Array(items) => {
                let ghost all = tree@->Array_0;
                let mut list: Vec<T> = Vec::new();
                let mut i: usize = 0;
                while i < items.len()
                    invariant
                        i <= items@.len(),
                        tree@ == JsonView::Array(all),
                        all.len() == items@.len(),
                        forall|k: int| 0 <= k < all.len() ==> all[k] == (#[trigger] items@[k])@,
                        list@.len() == i,
                        forall|k: int| 0 <= k < i ==> T::accepts(#[trigger] all[k]),
                        forall|k: int| 0 <= k < i ==> (#[trigger] list@[k]).mirrors(all[k]),
                    decreases items@.len() - i,
                {
                    match T::from_json(&items[i]) {
                        Some(value) => {
                            list.push(value);
                        },
                        None => {
                            assert(!T::accepts(tree@->Array_0[i as int]));
                            return None;
                        },
                    }
                    i += 1;
                }
                Some(list)
            },
            _ => None,
        }
    }
}

/// The pairs of keys and texts that the members of an object stand for.
pub open spec fn text_pairs(fields: Seq<(Seq<char>, JsonView)>) -> Seq<(Seq<char>, Seq<char>)> {
    Seq::new(fields.len(), |i: int| (fields[i].0, fields[i].1->Text_0))
}

impl FromJson for Metadata {
    open spec fn accepts(tree: JsonView) -> bool {
        tree is Object && forall|i: int|
            0 <= i < tree->Object_0.len() ==> (#[trigger] tree->Object_0[i]).1 is Text
    }

    open spec fn mirrors(&self, tree: JsonView) -> bool {
        tree matches JsonView::Object(fields) && self@ == pairs_map(text_pairs(fields))
    }

    fn from_json(tree: &Json) -> (read: Option<Metadata>) {
        match tree {
            Json::Object(fields) => {
                let ghost all = tree@->Object_0;
                let mut metadata = Metadata::new();
                let mut i: usize = 0;
                while i < fields.len()
                    invariant
                        i <= fields@.len(),
                        tree@ == JsonView::Object(all),
                        all.len() == fields@.len(),
                        forall|k: int|
                            0 <= k < all.len() ==> all[k] == (
                                (#[trigger] fields@[k]).0@,
                                fields@[k].1@,
                            ),
                        forall|k: int| 0 <= k < i ==> (#[trigger] all[k]).1 is Text,
                        metadata@ == pairs_map(text_pairs(all.take(i as int))),
                    decreases fields@.len() - i,
                {
                    match &fields[i].1 {
                        Json::Text(value) => {
                            metadata.insert(fields[i].0.clone(), value.clone());
                            assert(text_pairs(all.take(i + 1)).drop_last() == text_pairs(
                                all.take(i as int),
                            ));
                        },
                        _ => {
                            assert(!(tree@->Object_0[i as int].1 is Text));
                            return None;
                        },
                    }
                    i += 1;
                }
                assert(all.take(i as int) == all);
                Some(metadata)
            },
            _ => None,
        }
    }
}

/// Whether the object `tree` has a member `key` with the shape of a `T`.
pub open spec fn has<T: FromJson>(tree: JsonView, key: Seq<char>) -> bool {
    tree.get(key) matches Some(member) && T::accepts(member)
}

/// Whether `value` holds exactly what the member `key` of `tree` says.
pub open spec fn holds<T: FromJson>(value: &T, tree: JsonView, key: Seq<char>) -> bool {
    tree.get(key) matches Some(member) && value.mirrors(member)
}

/// Whether the member `key` of `tree` is absent, null, or of the shape of a `T`.
pub open spec fn may_have<T: FromJson>(tree: JsonView, key: Seq<char>) -> bool {
    tree.get(key) matches Some(member) ==> Option::<T>::accepts(member)
}

/// Whether `value` is `None` where the member `key` of `tree` is absent or null,
/// and otherwise holds exactly what it says.
pub open spec fn may_hold<T: FromJson>(value: &Option<T>, tree: JsonView, key: Seq<char>) -> bool {
    match tree.get(key) {
        Some(member) => value.mirrors(member),
        None => *value is None,
    }
}

/// Reads the member `key` of `tree`, which must be there.
pub fn field<T: FromJson>(tree: &Json, key: &str) -> (read: Option<T>)
    ensures
        read is Some <==> has::<T>(tree@, key@),
        read matches Some(value) ==> holds(&value, tree@, key@),
{
    match tree.get(key) {
        Some(member) => T::from_json(member),
        None => None,
    }
}

/// Reads the member `key` of `tree`, which may be absent or null.
pub fn optional_field<T: FromJson>(tree: &Json, key: &str) -> (read: Option<Option<T>>)
    ensures
        read is Some <==> may_have::<T>(tree@, key@),
        read matches Some(value) ==> may_hold(&value, tree@, key@),
{
    match tree.get(key) {
        Some(member) => Option::<T>::from_json(member),
        None => Some(None),
    }
}

} // verus!
