//! The CBOR data items that requests and responses are built from, and the
//! calls into `serde_cbor` that turn an item into bytes and bytes into an item.
//!
//! Nothing in this module is proved about `serde_cbor` itself: what its
//! encoder and decoder return is given a name, and the rest of the crate is
//! verified against those names.

use serde::Deserialize;
use vstd::prelude::*;

verus! {

/// A CBOR data item, as far as the schema of the security module uses the
/// data model. `Other` is whatever the schema has no use for: a
/// floating-point number, or a value that `serde_cbor` hands out with its tag.
#[derive(Debug, PartialEq, Eq)]
pub enum Item {
    Null,
    Bool(bool),
    Integer(i128),
    Bytes(Vec<u8>),
    Text(String),
    Array(Vec<Item>),
    Dict(Vec<(Item, Item)>),
    Other,
}

/// The mathematical value of an [`Item`].
pub enum ItemView {
    Null,
    Bool(bool),
    Integer(int),
    Bytes(Seq<u8>),
    Text(Seq<char>),
    Array(Seq<ItemView>),
    Dict(Seq<(ItemView, ItemView)>),
    Other,
}

/// The value of an item: that of each of its parts, in place.
pub open spec fn item_view(item: Item) -> ItemView
    decreases item,
{
    match item {
        Item::Null => ItemView::Null,
        Item::Bool(b) => ItemView::Bool(b),
        Item::Integer(n) => ItemView::Integer(n as int),
        Item::Bytes(bytes) => ItemView::Bytes(bytes@),
        Item::Text(text) => ItemView::Text(text@),
        Item::Array(items) => ItemView::Array(
            Seq::new(
                items.len() as nat,
                |i: int|
                    if 0 <= i < items.len() {
                        item_view(items[i])
                    } else {
                        ItemView::Null
                    },
            ),
        ),
        Item::Dict(entries) => ItemView::Dict(
            Seq::new(
                entries.len() as nat,
                |i: int|
                    if 0 <= i < entries.len() {
                        (item_view(entries[i].0), item_view(entries[i].1))
                    } else {
                        (ItemView::Null, ItemView::Null)
                    },
            ),
        ),
        Item::Other => ItemView::Other,
    }
}

impl View for Item {
    type V = ItemView;

    open spec fn view(&self) -> ItemView {
        item_view(*self)
    }
}

impl Item {
    /// The view of a map, entry by entry.
    pub proof fn lemma_dict_view(entries: Vec<(Item, Item)>)
        ensures
            Item::Dict(entries)@ is Dict,
            Item::Dict(entries)@->Dict_0.len() == entries.len(),
            forall|i: int|
                0 <= i < entries.len() ==> (#[trigger] Item::Dict(entries)@->Dict_0[i]) == (
                    entries[i].0@,
                    entries[i].1@,
                ),
    {
    }

    /// The view of an array, item by item.
    pub proof fn lemma_array_view(items: Vec<Item>)
        ensures
            Item::Array(items)@ is Array,
            Item::Array(items)@->Array_0.len() == items.len(),
            forall|i: int|
                0 <= i < items.len() ==> (#[trigger] Item::Array(items)@->Array_0[i]) == items[i]@,
    {
    }
}

impl ItemView {
    /// Whether the item can be written as CBOR: it holds no `Other`, each
    /// integer fits the 64 bits of magnitude that CBOR has for it, and the
    /// keys of each map are texts, no two of them the same.
    pub open spec fn storable(self) -> bool
        decreases self,
    {
        match self {
            ItemView::Integer(n) => -0x1_0000_0000_0000_0000 <= n < 0x1_0000_0000_0000_0000,
            ItemView::Array(items) => forall|i: int|
                0 <= i < items.len() ==> (#[trigger] items[i]).storable(),
            ItemView::Dict(entries) => {
                &&& forall|i: int|
                    0 <= i < entries.len() ==> (#[trigger] entries[i]).0 is Text
                        && entries[i].1.storable()
                &&& forall|i: int, j: int|
                    0 <= i < j < entries.len() ==> (#[trigger] entries[i]).0
                        != (#[trigger] entries[j]).0
            },
            ItemView::Other => false,
            _ => true,
        }
    }
}

/// The error type of `serde_cbor`. Nothing is known of what a value of it holds.
#[verifier::external_type_specification]
#[verifier::external_body]
pub struct ExError(serde_cbor::Error);

/// The value type of `serde_cbor`, which the calls below convert to and from
/// [`Item`].
#[verifier::external_type_specification]
#[verifier::external_body]
pub struct ExValue(serde_cbor::Value);

/// The bytes that `serde_cbor::to_vec` writes for an item.
pub uninterp spec fn cbor_encoding(item: ItemView) -> Seq<u8>;

/// What `serde_cbor` reads from the front of `bytes`: the first data item and
/// the number of bytes that it takes up, or nothing where the bytes do not
/// start with a complete, well-formed item.
pub uninterp spec fn cbor_first_item(bytes: Seq<u8>) -> Option<(ItemView, nat)>;

/// Builds the `serde_cbor::Value` that stands for `item`, variant by variant.
/// An entry list becomes the map of `serde_cbor`, which keeps its keys in the
/// canonical order of CBOR. `Other` stands for nothing that can be written:
/// [`to_vec`] leaves it out.
#[verifier::external_body]
fn to_value(item: &Item) -> serde_cbor::Value {
    match item {
        Item::Null | Item::Other => serde_cbor::Value::Null,
        Item::Bool(b) => serde_cbor::Value::Bool(*b),
        Item::Integer(n) => serde_cbor::Value::Integer(*n),
        Item::Bytes(bytes) => serde_cbor::Value::Bytes(bytes.clone()),
        Item::Text(text) => serde_cbor::Value::Text(text.clone()),
        Item::Array(items) => serde_cbor::Value::Array(items.iter().map(to_value).collect()),
        Item::Dict(entries) => serde_cbor::Value::Map(
            entries.iter().map(|e| (to_value(&e.0), to_value(&e.1))).collect(),
        ),
    }
}

/// Takes a `serde_cbor::Value` apart into an [`Item`], variant by variant. The
/// entries of a map come in the order in which the map keeps them. Every
/// variant that [`Item`] has no like of becomes `Other`.
#[verifier::external_body]
fn from_value(value: serde_cbor::Value) -> Item {
    match value {
        serde_cbor::Value::Null => Item::Null,
        serde_cbor::Value::Bool(b) => Item::Bool(b),
        serde_cbor::Value::Integer(n) => Item::Integer(n),
        serde_cbor::Value::Bytes(bytes) => Item::Bytes(bytes),
        serde_cbor::Value::Text(text) => Item::Text(text),
        serde_cbor::Value::Array(items) => Item::Array(items.into_iter().map(from_value).collect()),
        serde_cbor::Value::Map(entries) => Item::Dict(
            entries.into_iter().map(|e| (from_value(e.0), from_value(e.1))).collect(),
        ),
        _ => Item::Other,
    }
}

/// `serde_cbor::to_vec`, on the value that stands for `item`. The bytes are
/// those of the item and of nothing else: the encoder reads no state but its
/// argument. For an item that is storable it has no failing step: it writes
/// into a vector, and the one error of its own is an integer beyond 64 bits
/// of magnitude.
#[verifier::external_body]
pub(crate) fn to_vec(item: &Item) -> (r: Result<Vec<u8>, serde_cbor::Error>)
    requires
        item@.storable(),
    ensures
        r is Ok,
        r->Ok_0@ == cbor_encoding(item@),
{
    serde_cbor::to_vec(&to_value(item))
}

/// Reads one data item from the front of `bytes` with a
/// `serde_cbor::Deserializer`, and reports with it the deserializer's
/// `byte_offset`: the number of bytes read, which is within the slice. What
/// follows the item is not looked at. The item and the count are those of
/// the bytes and of nothing else, and the call fails exactly where the bytes
/// do not start with a data item that `serde_cbor` accepts.
#[verifier::external_body]
pub(crate) fn first_item(bytes: &[u8]) -> (r: Result<(Item, usize), serde_cbor::Error>)
    ensures
        r is Ok <==> cbor_first_item(bytes@) is Some,
        r matches Ok((item, used)) ==> cbor_first_item(bytes@) == Some((item@, used as nat))
            && used <= bytes@.len(),
{
    let mut de = serde_cbor::Deserializer::from_slice(bytes);
    let value = serde_cbor::Value::deserialize(&mut de)?;
    Ok((from_value(value), de.byte_offset()))
}

/// An error of `serde_cbor` that carries `message`, made with the `custom`
/// constructor that `serde` asks of every deserializer's error type.
#[verifier::external_body]
pub(crate) fn data_error(message: &str) -> serde_cbor::Error {
    serde::de::Error::custom(message)
}

} // verus!
