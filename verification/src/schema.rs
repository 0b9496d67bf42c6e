//! The CBOR item that stands for each request and each response on the wire.
//!
//! A variant without fields is the text of its name. A variant with fields is
//! a map of one entry, from the text of its name to a map from field names to
//! field values. The error response is a map of one entry, from `"Error"` to
//! the text of the error code's name.

use crate::api::{
    bytes_view, Digest, ErrorCode, Request, RequestView, Response, ResponseView,
};
use crate::cbor::{Item, ItemView};
use vstd::prelude::*;

verus! {

/// The item of a variant with fields: a map of one entry, from the variant's
/// name to its payload.
pub open spec fn variant_item(name: Seq<char>, payload: ItemView) -> ItemView {
    ItemView::Dict(seq![(ItemView::Text(name), payload)])
}

/// One entry of a payload map: a field's name and its value.
pub open spec fn field(name: Seq<char>, value: ItemView) -> (ItemView, ItemView) {
    (ItemView::Text(name), value)
}

/// The item of an unsigned 16-bit field.
pub open spec fn u16_item(n: u16) -> ItemView {
    ItemView::Integer(n as int)
}

/// The item of an optional byte string: the bytes, or null.
pub open spec fn optional_bytes_item(bytes: Option<Seq<u8>>) -> ItemView {
    match bytes {
        Some(b) => ItemView::Bytes(b),
        None => ItemView::Null,
    }
}

/// The name that an error code has on the wire.
pub open spec fn error_code_name(code: ErrorCode) -> Seq<char> {
    match code {
        ErrorCode::Success => "Success"@,
        ErrorCode::InvalidArgument => "InvalidArgument"@,
        ErrorCode::InvalidIndex => "InvalidIndex"@,
        ErrorCode::InvalidResponse => "InvalidResponse"@,
        ErrorCode::ReadOnlyIndex => "ReadOnlyIndex"@,
        ErrorCode::InvalidOperation => "InvalidOperation"@,
        ErrorCode::BufferTooSmall => "BufferTooSmall"@,
        ErrorCode::InputTooLarge => "InputTooLarge"@,
        ErrorCode::InternalError => "InternalError"@,
    }
}

/// The name that a digest has on the wire.
pub open spec fn digest_name(digest: Digest) -> Seq<char> {
    match digest {
        Digest::SHA256 => "SHA256"@,
        Digest::SHA384 => "SHA384"@,
        Digest::SHA512 => "SHA512"@,
    }
}

/// The item that stands for a request.
pub open spec fn request_item(request: RequestView) -> ItemView {
    match request {
        RequestView::DescribePCR { index } => variant_item(
            "DescribePCR"@,
            ItemView::Dict(seq![field("index"@, u16_item(index))]),
        ),
        RequestView::ExtendPCR { index, data } => variant_item(
            "ExtendPCR"@,
            ItemView::Dict(
                seq![field("index"@, u16_item(index)), field("data"@, ItemView::Bytes(data))],
            ),
        ),
        RequestView::LockPCR { index } => variant_item(
            "LockPCR"@,
            ItemView::Dict(seq![field("index"@, u16_item(index))]),
        ),
        RequestView::LockPCRs { range } => variant_item(
            "LockPCRs"@,
            ItemView::Dict(seq![field("range"@, u16_item(range))]),
        ),
        RequestView::DescribeNSM => ItemView::Text("DescribeNSM"@),
        RequestView::Attestation { user_data, nonce, public_key } => variant_item(
            "Attestation"@,
            ItemView::Dict(
                seq![
                    field("user_data"@, optional_bytes_item(user_data)),
                    field("nonce"@, optional_bytes_item(nonce)),
                    field("public_key"@, optional_bytes_item(public_key)),
                ],
            ),
        ),
        RequestView::GetRandom => ItemView::Text("GetRandom"@),
    }
}

/// The item of a list of unsigned 16-bit numbers.
pub open spec fn u16_array_item(numbers: Seq<u16>) -> ItemView {
    ItemView::Array(Seq::new(numbers.len(), |i: int| u16_item(numbers[i])))
}

/// The item that stands for a response.
pub open spec fn response_item(response: ResponseView) -> ItemView {
    match response {
        ResponseView::DescribePCR { lock, data } => variant_item(
            "DescribePCR"@,
            ItemView::Dict(
                seq![field("lock"@, ItemView::Bool(lock)), field("data"@, ItemView::Bytes(data))],
            ),
        ),
        ResponseView::ExtendPCR { data } => variant_item(
            "ExtendPCR"@,
            ItemView::Dict(seq![field("data"@, ItemView::Bytes(data))]),
        ),
        ResponseView::LockPCR => ItemView::Text("LockPCR"@),
        ResponseView::LockPCRs => ItemView::Text("LockPCRs"@),
        ResponseView::DescribeNSM {
            version_major,
            version_minor,
            version_patch,
            module_id,
            max_pcrs,
            locked_pcrs,
            digest,
        } => variant_item(
            "DescribeNSM"@,
            ItemView::Dict(
                seq![
                    field("version_major"@, u16_item(version_major)),
                    field("version_minor"@, u16_item(version_minor)),
                    field("version_patch"@, u16_item(version_patch)),
                    field("module_id"@, ItemView::Text(module_id)),
                    field("max_pcrs"@, u16_item(max_pcrs)),
                    field("locked_pcrs"@, u16_array_item(locked_pcrs)),
                    field("digest"@, ItemView::Text(digest_name(digest))),
                ],
            ),
        ),
        ResponseView::Attestation { document } => variant_item(
            "Attestation"@,
            ItemView::Dict(seq![field("document"@, ItemView::Bytes(document))]),
        ),
        ResponseView::GetRandom { random } => variant_item(
            "GetRandom"@,
            ItemView::Dict(seq![field("random"@, ItemView::Bytes(random))]),
        ),
        ResponseView::Error(code) => variant_item("Error"@, ItemView::Text(error_code_name(code))),
    }
}

// ---------------------------------------------------------------------------
// Reading a response out of an item
// ---------------------------------------------------------------------------

/// The index of the first entry, at `from` or after it, whose key is the text
/// `name`; the number of entries where there is none.
pub open spec fn position(entries: Seq<(ItemView, ItemView)>, name: Seq<char>, from: int) -> int
    decreases entries.len() - from,
{
    if from < 0 || from >= entries.len() {
        entries.len() as int
    } else if entries[from].0 == ItemView::Text(name) {
        from
    } else {
        position(entries, name, from + 1)
    }
}

/// The value of the field `name` in a payload: that of the first entry with
/// that name. A payload that is no map has no fields.
pub open spec fn field_of(payload: ItemView, name: Seq<char>) -> Option<ItemView> {
    match payload {
        ItemView::Dict(entries) => {
            let at = position(entries, name, 0);
            if at < entries.len() {
                Some(entries[at].1)
            } else {
                None
            }
        },
        _ => None,
    }
}

/// The number that an item holds, where it is an integer of 16 bits.
pub open spec fn u16_of(item: Option<ItemView>) -> Option<u16> {
    match item {
        Some(ItemView::Integer(n)) => if 0 <= n <= u16::MAX {
            Some(n as u16)
        } else {
            None
        },
        _ => None,
    }
}

/// The bytes that an item holds, where it is a byte string.
pub open spec fn bytes_of(item: Option<ItemView>) -> Option<Seq<u8>> {
    match item {
        Some(ItemView::Bytes(b)) => Some(b),
        _ => None,
    }
}

/// The truth value that an item holds, where it is one.
pub open spec fn bool_of(item: Option<ItemView>) -> Option<bool> {
    match item {
        Some(ItemView::Bool(b)) => Some(b),
        _ => None,
    }
}

/// The characters that an item holds, where it is a text.
pub open spec fn text_of(item: Option<ItemView>) -> Option<Seq<char>> {
    match item {
        Some(ItemView::Text(t)) => Some(t),
        _ => None,
    }
}

/// The numbers that an item holds, where it is an array of integers of 16
/// bits each.
pub open spec fn u16_array_of(item: Option<ItemView>) -> Option<Seq<u16>> {
    match item {
        Some(ItemView::Array(items)) => if forall|i: int|
            0 <= i < items.len() ==> u16_of(Some(#[trigger] items[i])) is Some {
            Some(Seq::new(items.len(), |i: int| u16_of(Some(items[i])).unwrap()))
        } else {
            None
        },
        _ => None,
    }
}

/// The error code of a name.
pub open spec fn error_code_of(name: Option<Seq<char>>) -> Option<ErrorCode> {
    match name {
        Some(n) => if n == "Success"@ {
            Some(ErrorCode::Success)
        } else if n == "InvalidArgument"@ {
            Some(ErrorCode::InvalidArgument)
        } else if n == "InvalidIndex"@ {
            Some(ErrorCode::InvalidIndex)
        } else if n == "InvalidResponse"@ {
            Some(ErrorCode::InvalidResponse)
        } else if n == "ReadOnlyIndex"@ {
            Some(ErrorCode::ReadOnlyIndex)
        } else if n == "InvalidOperation"@ {
            Some(ErrorCode::InvalidOperation)
        } else if n == "BufferTooSmall"@ {
            Some(ErrorCode::BufferTooSmall)
        } else if n == "InputTooLarge"@ {
            Some(ErrorCode::InputTooLarge)
        } else if n == "InternalError"@ {
            Some(ErrorCode::InternalError)
        } else {
            None
        },
        None => None,
    }
}

/// The digest of a name.
pub open spec fn digest_of(name: Option<Seq<char>>) -> Option<Digest> {
    match name {
        Some(n) => if n == "SHA256"@ {
            Some(Digest::SHA256)
        } else if n == "SHA384"@ {
            Some(Digest::SHA384)
        } else if n == "SHA512"@ {
            Some(Digest::SHA512)
        } else {
            None
        },
        None => None,
    }
}

/// The module's description, read from the fields of its payload.
pub open spec fn describe_nsm_of(payload: ItemView) -> Option<ResponseView> {
    match (
        u16_of(field_of(payload, "version_major"@)),
        u16_of(field_of(payload, "version_minor"@)),
        u16_of(field_of(payload, "version_patch"@)),
        text_of(field_of(payload, "module_id"@)),
        u16_of(field_of(payload, "max_pcrs"@)),
        u16_array_of(field_of(payload, "locked_pcrs"@)),
        digest_of(text_of(field_of(payload, "digest"@))),
    ) {
        (
            Some(version_major),
            Some(version_minor),
            Some(version_patch),
            Some(module_id),
            Some(max_pcrs),
            Some(locked_pcrs),
            Some(digest),
        ) => Some(
            ResponseView::DescribeNSM {
                version_major,
                version_minor,
                version_patch,
                module_id,
                max_pcrs,
                locked_pcrs,
                digest,
            },
        ),
        _ => None,
    }
}

/// The response of a variant with a payload. Each field is read by its name
/// and has to hold the kind of item that the schema gives it; entries under
/// other names are passed over.
pub open spec fn response_of_variant(name: Seq<char>, payload: ItemView) -> Option<ResponseView> {
    if name == "DescribePCR"@ {
        match (bool_of(field_of(payload, "lock"@)), bytes_of(field_of(payload, "data"@))) {
            (Some(lock), Some(data)) => Some(ResponseView::DescribePCR { lock, data }),
            _ => None,
        }
    } else if name == "ExtendPCR"@ {
        match bytes_of(field_of(payload, "data"@)) {
            Some(data) => Some(ResponseView::ExtendPCR { data }),
            None => None,
        }
    } else if name == "DescribeNSM"@ {
        describe_nsm_of(payload)
    } else if name == "Attestation"@ {
        match bytes_of(field_of(payload, "document"@)) {
            Some(document) => Some(ResponseView::Attestation { document }),
            None => None,
        }
    } else if name == "GetRandom"@ {
        match bytes_of(field_of(payload, "random"@)) {
            Some(random) => Some(ResponseView::GetRandom { random }),
            None => None,
        }
    } else if name == "Error"@ {
        match error_code_of(text_of(Some(payload))) {
            Some(code) => Some(ResponseView::Error(code)),
            None => None,
        }
    } else {
        None
    }
}

/// The response that an item stands for, where it stands for one: the text of
/// a variant without fields, or a map of one entry from the name of a variant
/// to its payload.
pub open spec fn response_of_item(item: ItemView) -> Option<ResponseView> {
    match item {
        ItemView::Text(name) => if name == "LockPCR"@ {
            Some(ResponseView::LockPCR)
        } else if name == "LockPCRs"@ {
            Some(ResponseView::LockPCRs)
        } else {
            None
        },
        ItemView::Dict(entries) => if entries.len() == 1 {
            match entries[0].0 {
                ItemView::Text(name) => response_of_variant(name, entries[0].1),
                _ => None,
            }
        } else {
            None
        },
        _ => None,
    }
}

/// The names of the schema are what their literals spell, so that two of
/// them are equal only where they are the same name.
proof fn lemma_names()
    ensures
        "DescribePCR"@.len() == 11,
        "ExtendPCR"@.len() == 9,
        "LockPCR"@.len() == 7,
        "LockPCRs"@.len() == 8,
        "DescribeNSM"@.len() == 11 && "DescribeNSM"@[8] == 'N',
        "DescribePCR"@[8] == 'P',
        "Attestation"@.len() == 11 && "Attestation"@[0] == 'A',
        "DescribePCR"@[0] == 'D' && "DescribeNSM"@[0] == 'D',
        "GetRandom"@.len() == 9 && "GetRandom"@[0] == 'G',
        "ExtendPCR"@[0] == 'E',
        "Error"@.len() == 5,
{
    reveal_strlit("DescribePCR");
    reveal_strlit("ExtendPCR");
    reveal_strlit("LockPCR");
    reveal_strlit("LockPCRs");
    reveal_strlit("DescribeNSM");
    reveal_strlit("Attestation");
    reveal_strlit("GetRandom");
    reveal_strlit("Error");
}

/// What a map of one entry holds under the name of that entry.
proof fn lemma_field_of_one(name: Seq<char>, value: ItemView)
    ensures
        field_of(ItemView::Dict(seq![field(name, value)]), name) == Some(value),
{
    reveal_with_fuel(position, 2);
}

/// The name of an error code gives the code back.
proof fn lemma_error_code_of_name(code: ErrorCode)
    ensures
        error_code_of(Some(error_code_name(code))) == Some(code),
{
    reveal_strlit("Success");
    reveal_strlit("InvalidArgument");
    reveal_strlit("InvalidIndex");
    reveal_strlit("InvalidResponse");
    reveal_strlit("ReadOnlyIndex");
    reveal_strlit("InvalidOperation");
    reveal_strlit("BufferTooSmall");
    reveal_strlit("InputTooLarge");
    reveal_strlit("InternalError");
    assert("Success"@.len() == 7 && "InvalidArgument"@.len() == 15 && "InvalidIndex"@.len() == 12);
    assert("InvalidResponse"@.len() == 15 && "ReadOnlyIndex"@.len() == 13);
    assert("InvalidOperation"@.len() == 16 && "BufferTooSmall"@.len() == 14);
    assert("InputTooLarge"@.len() == 13 && "InternalError"@.len() == 13);
    assert("InvalidArgument"@[7] == 'A' && "InvalidResponse"@[7] == 'R');
    assert("ReadOnlyIndex"@[2] == 'a' && "InputTooLarge"@[2] == 'p' && "InternalError"@[2] == 't');
}

/// The name of a digest gives the digest back.
proof fn lemma_digest_of_name(digest: Digest)
    ensures
        digest_of(Some(digest_name(digest))) == Some(digest),
{
    reveal_strlit("SHA256");
    reveal_strlit("SHA384");
    reveal_strlit("SHA512");
    assert("SHA256"@[3] == '2' && "SHA384"@[3] == '3' && "SHA512"@[3] == '5');
}

/// The item of a list of numbers gives the list back.
proof fn lemma_u16_array_of_item(numbers: Seq<u16>)
    ensures
        u16_array_of(Some(u16_array_item(numbers))) == Some(numbers),
{
    assert(u16_array_of(Some(u16_array_item(numbers)))->Some_0 =~= numbers);
}

/// A response is read back from its own item: the schema loses nothing.
pub proof fn lemma_response_round_trip(response: ResponseView)
    ensures
        response_of_item(response_item(response)) == Some(response),
{
    lemma_names();
    match response {
        ResponseView::DescribePCR { lock, data } => {
            reveal_strlit("lock");
            reveal_strlit("data");
            assert("lock"@[0] == 'l' && "data"@[0] == 'd');
            reveal_with_fuel(position, 3);
            let payload = response_item(response)->Dict_0[0].1;
            assert(field_of(payload, "lock"@) == Some(ItemView::Bool(lock)));
            assert(field_of(payload, "data"@) == Some(ItemView::Bytes(data)));
        },
        ResponseView::ExtendPCR { data } => {
            lemma_field_of_one("data"@, ItemView::Bytes(data));
        },
        ResponseView::LockPCR => {},
        ResponseView::LockPCRs => {},
        ResponseView::DescribeNSM {
            version_major,
            version_minor,
            version_patch,
            module_id,
            max_pcrs,
            locked_pcrs,
            digest,
        } => {
            reveal_strlit("version_major");
            reveal_strlit("version_minor");
            reveal_strlit("version_patch");
            reveal_strlit("module_id");
            reveal_strlit("max_pcrs");
            reveal_strlit("locked_pcrs");
            reveal_strlit("digest");
            assert("version_major"@[9] == 'a' && "version_minor"@[9] == 'i');
            assert("version_major"@[8] == 'm' && "version_minor"@[8] == 'm'
                && "version_patch"@[8] == 'p');
            assert("version_major"@.len() == 13 && "version_minor"@.len() == 13);
            assert("version_patch"@.len() == 13 && "module_id"@.len() == 9);
            assert("max_pcrs"@.len() == 8 && "locked_pcrs"@.len() == 11 && "digest"@.len() == 6);
            reveal_with_fuel(position, 8);
            lemma_u16_array_of_item(locked_pcrs);
            lemma_digest_of_name(digest);
            let payload = response_item(response)->Dict_0[0].1;
            assert(field_of(payload, "version_major"@) == Some(u16_item(version_major)));
            assert(field_of(payload, "version_minor"@) == Some(u16_item(version_minor)));
            assert(field_of(payload, "version_patch"@) == Some(u16_item(version_patch)));
            assert(field_of(payload, "module_id"@) == Some(ItemView::Text(module_id)));
            assert(field_of(payload, "max_pcrs"@) == Some(u16_item(max_pcrs)));
            assert(field_of(payload, "locked_pcrs"@) == Some(u16_array_item(locked_pcrs)));
            assert(field_of(payload, "digest"@) == Some(ItemView::Text(digest_name(digest))));
        },
        ResponseView::Attestation { document } => {
            lemma_field_of_one("document"@, ItemView::Bytes(document));
        },
        ResponseView::GetRandom { random } => {
            lemma_field_of_one("random"@, ItemView::Bytes(random));
        },
        ResponseView::Error(code) => {
            lemma_error_code_of_name(code);
        },
    }
}

/// Every request has an item that can be written as CBOR.
pub proof fn lemma_request_item_storable(request: RequestView)
    ensures
        request_item(request).storable(),
{
    reveal_with_fuel(ItemView::storable, 4);
    reveal_strlit("index");
    reveal_strlit("data");
    reveal_strlit("user_data");
    reveal_strlit("nonce");
    reveal_strlit("public_key");
    assert("index"@.len() == 5 && "data"@.len() == 4);
    assert("user_data"@.len() == 9 && "nonce"@.len() == 5 && "public_key"@.len() == 10);
}

/// The text item of a name.
fn text_item(name: &str) -> (item: Item)
    ensures
        item@ == ItemView::Text(name@),
{
    Item::Text(name.to_owned())
}

/// The entry of a field.
fn field_entry(name: &str, value: Item) -> (entry: (Item, Item))
    ensures
        (entry.0@, entry.1@) == field(name@, value@),
{
    (text_item(name), value)
}

/// The item of a variant with fields.
fn variant(name: &str, payload: Item) -> (item: Item)
    ensures
        item@ == variant_item(name@, payload@),
{
    let mut entries: Vec<(Item, Item)> = Vec::new();
    entries.push((text_item(name), payload));
    let item = Item::Dict(entries);
    assert(item@->Dict_0 =~= seq![(ItemView::Text(name@), payload@)]);
    item
}

/// The payload of a variant with one field.
fn payload_of_one(name: &str, value: Item) -> (item: Item)
    ensures
        item@ == ItemView::Dict(seq![field(name@, value@)]),
{
    let mut entries: Vec<(Item, Item)> = Vec::new();
    entries.push(field_entry(name, value));
    let item = Item::Dict(entries);
    assert(item@->Dict_0 =~= seq![field(name@, value@)]);
    item
}

/// The item of an optional byte string.
fn optional_bytes(bytes: &Option<Vec<u8>>) -> (item: Item)
    ensures
        item@ == optional_bytes_item(bytes_view(*bytes)),
{
    match bytes {
        Some(b) => Item::Bytes(b.clone()),
        None => Item::Null,
    }
}

impl Request {
    /// The item that stands for the request on the wire.
    pub fn to_item(&self) -> (item: Item)
        ensures
            item@ == request_item(self@),
            item@.storable(),
    {
        proof {
            lemma_request_item_storable(self@);
        }
        match self {
            Request::DescribePCR { index } => variant(
                "DescribePCR",
                payload_of_one("index", Item::Integer(*index as i128)),
            ),
            Request::ExtendPCR { index, data } => {
                let mut entries: Vec<(Item, Item)> = Vec::new();
                entries.push(field_entry("index", Item::Integer(*index as i128)));
                entries.push(field_entry("data", Item::Bytes(data.clone())));
                let payload = Item::Dict(entries);
                assert(payload@->Dict_0 =~= seq![
                    field("index"@, u16_item(*index)),
                    field("data"@, ItemView::Bytes(data@)),
                ]);
                variant("ExtendPCR", payload)
            },
            Request::LockPCR { index } => variant(
                "LockPCR",
                payload_of_one("index", Item::Integer(*index as i128)),
            ),
            Request::LockPCRs { range } => variant(
                "LockPCRs",
                payload_of_one("range", Item::Integer(*range as i128)),
            ),
            Request::DescribeNSM => text_item("DescribeNSM"),
            Request::Attestation { user_data, nonce, public_key } => {
                let mut entries: Vec<(Item, Item)> = Vec::new();
                entries.push(field_entry("user_data", optional_bytes(user_data)));
                entries.push(field_entry("nonce", optional_bytes(nonce)));
                entries.push(field_entry("public_key", optional_bytes(public_key)));
                let payload = Item::Dict(entries);
                assert(payload@->Dict_0 =~= seq![
                    field("user_data"@, optional_bytes_item(bytes_view(*user_data))),
                    field("nonce"@, optional_bytes_item(bytes_view(*nonce))),
                    field("public_key"@, optional_bytes_item(bytes_view(*public_key))),
                ]);
                variant("Attestation", payload)
            },
            Request::GetRandom => text_item("GetRandom"),
        }
    }
}

/// Whether a text is the given name.
fn text_is(text: &String, name: &str) -> (same: bool)
    ensures
        same == (text@ == name@),
{
    *text == name.to_owned()
}

/// The view of an item that may be absent.
pub open spec fn optional_view(item: Option<&Item>) -> Option<ItemView> {
    match item {
        Some(i) => Some(i@),
        None => None,
    }
}

/// The value of the field `name` in a payload.
fn find_field<'a>(payload: &'a Item, name: &str) -> (found: Option<&'a Item>)
    ensures
        optional_view(found) == field_of(payload@, name@),
{
    match payload {
        Item::Dict(entries) => {
            let ghost fields = payload@->Dict_0;
            proof {
                Item::lemma_dict_view(*entries);
            }
            let mut i: usize = 0;
            while i < entries.len()
                invariant
                    i <= entries.len(),
                    payload@ == ItemView::Dict(fields),
                    fields.len() == entries.len(),
                    forall|j: int|
                        0 <= j < entries.len() ==> fields[j] == (
                            (#[trigger] entries[j]).0@,
                            entries[j].1@,
                        ),
                    position(fields, name@, 0) == position(fields, name@, i as int),
                decreases entries.len() - i,
            {
                let entry = &entries[i];
                let here = match &entry.0 {
                    Item::Text(text) => text_is(text, name),
                    _ => false,
                };
                if here {
                    return Some(&entry.1);
                }
                i += 1;
            }
            None
        },
        _ => None,
    }
}

/// The number that an item holds, where it is an integer of 16 bits.
fn read_u16(item: Option<&Item>) -> (number: Option<u16>)
    ensures
        number == u16_of(optional_view(item)),
{
    match item {
        Some(Item::Integer(n)) => if 0 <= *n && *n <= 0xffff {
            Some(*n as u16)
        } else {
            None
        },
        _ => None,
    }
}

/// The bytes that an item holds, where it is a byte string.
fn read_bytes(item: Option<&Item>) -> (bytes: Option<Vec<u8>>)
    ensures
        bytes_view(bytes) == bytes_of(optional_view(item)),
{
    match item {
        Some(Item::Bytes(b)) => Some(b.clone()),
        _ => None,
    }
}

/// The truth value that an item holds, where it is one.
fn read_bool(item: Option<&Item>) -> (value: Option<bool>)
    ensures
        value == bool_of(optional_view(item)),
{
    match item {
        Some(Item::Bool(b)) => Some(*b),
        _ => None,
    }
}

/// The view of a text that may be absent.
pub open spec fn text_view(text: Option<&String>) -> Option<Seq<char>> {
    match text {
        Some(t) => Some(t@),
        None => None,
    }
}

/// The text that an item holds, where it is one.
fn read_text<'a>(item: Option<&'a Item>) -> (text: Option<&'a String>)
    ensures
        text_view(text) == text_of(optional_view(item)),
{
    match item {
        Some(Item::Text(t)) => Some(t),
        _ => None,
    }
}

/// The numbers that an item holds, where it is an array of integers of 16
/// bits each.
fn read_u16_array(item: Option<&Item>) -> (numbers: Option<Vec<u16>>)
    ensures
        match numbers {
            Some(v) => u16_array_of(optional_view(item)) == Some(v@),
            None => u16_array_of(optional_view(item)) is None,
        },
{
    match item {
        Some(Item::Array(items)) => {
            let ghost views = optional_view(item)->Some_0->Array_0;
            proof {
                Item::lemma_array_view(*items);
            }
            let mut numbers: Vec<u16> = Vec::new();
            let mut i: usize = 0;
            while i < items.len()
                invariant
                    i <= items.len(),
                    optional_view(item) == Some(ItemView::Array(views)),
                    views.len() == items.len(),
                    forall|j: int| 0 <= j < items.len() ==> views[j] == (#[trigger] items[j])@,
                    numbers.len() == i,
                    forall|j: int|
                        0 <= j < i ==> u16_of(Some(views[j])) == Some(#[trigger] numbers[j]),
                decreases items.len() - i,
            {
                match read_u16(Some(&items[i])) {
                    Some(n) => numbers.push(n),
                    None => {
                        assert(u16_of(Some(views[i as int])) is None);
                        return None;
                    },
                }
                i += 1;
            }
            assert forall|j: int| 0 <= j < views.len() implies u16_of(
                Some(#[trigger] views[j]),
            ) == Some(numbers[j]) by {}
            assert(numbers@ =~= Seq::new(views.len(), |j: int| u16_of(Some(views[j])).unwrap()));
            Some(numbers)
        },
        _ => None,
    }
}

/// The error code of a name.
fn read_error_code(name: Option<&String>) -> (code: Option<ErrorCode>)
    ensures
        code == error_code_of(text_view(name)),
{
    match name {
        Some(n) => if text_is(n, "Success") {
            Some(ErrorCode::Success)
        } else if text_is(n, "InvalidArgument") {
            Some(ErrorCode::InvalidArgument)
        } else if text_is(n, "InvalidIndex") {
            Some(ErrorCode::InvalidIndex)
        } else if text_is(n, "InvalidResponse") {
            Some(ErrorCode::InvalidResponse)
        } else if text_is(n, "ReadOnlyIndex") {
            Some(ErrorCode::ReadOnlyIndex)
        } else if text_is(n, "InvalidOperation") {
            Some(ErrorCode::InvalidOperation)
        } else if text_is(n, "BufferTooSmall") {
            Some(ErrorCode::BufferTooSmall)
        } else if text_is(n, "InputTooLarge") {
            Some(ErrorCode::InputTooLarge)
        } else if text_is(n, "InternalError") {
            Some(ErrorCode::InternalError)
        } else {
            None
        },
        None => None,
    }
}

/// The digest of a name.
fn read_digest(name: Option<&String>) -> (digest: Option<Digest>)
    ensures
        digest == digest_of(text_view(name)),
{
    match name {
        Some(n) => if text_is(n, "SHA256") {
            Some(Digest::SHA256)
        } else if text_is(n, "SHA384") {
            Some(Digest::SHA384)
        } else if text_is(n, "SHA512") {
            Some(Digest::SHA512)
        } else {
            None
        },
        None => None,
    }
}

/// Whether a result of reading stands for what the schema says of the item.
pub open spec fn reads_as(response: Option<Response>, expected: Option<ResponseView>) -> bool {
    match response {
        Some(r) => expected == Some(r@),
        None => expected is None,
    }
}

/// The module's description, read from the fields of its payload.
fn read_describe_nsm(payload: &Item) -> (response: Option<Response>)
    ensures
        reads_as(response, describe_nsm_of(payload@)),
{
    let version_major = read_u16(find_field(payload, "version_major"));
    let version_minor = read_u16(find_field(payload, "version_minor"));
    let version_patch = read_u16(find_field(payload, "version_patch"));
    let module_id = read_text(find_field(payload, "module_id"));
    let max_pcrs = read_u16(find_field(payload, "max_pcrs"));
    let locked_pcrs = read_u16_array(find_field(payload, "locked_pcrs"));
    let digest = read_digest(read_text(find_field(payload, "digest")));
    match (version_major, version_minor, version_patch, module_id, max_pcrs, locked_pcrs, digest) {
        (
            Some(version_major),
            Some(version_minor),
            Some(version_patch),
            Some(module_id),
            Some(max_pcrs),
            Some(locked_pcrs),
            Some(digest),
        ) => Some(
            Response::DescribeNSM {
                version_major,
                version_minor,
                version_patch,
                module_id: module_id.clone(),
                max_pcrs,
                locked_pcrs,
                digest,
            },
        ),
        _ => None,
    }
}

/// The response of a variant with a payload.
fn read_variant(name: &String, payload: &Item) -> (response: Option<Response>)
    ensures
        reads_as(response, response_of_variant(name@, payload@)),
{
    if text_is(name, "DescribePCR") {
        let lock = read_bool(find_field(payload, "lock"));
        let data = read_bytes(find_field(payload, "data"));
        match (lock, data) {
            (Some(lock), Some(data)) => Some(Response::DescribePCR { lock, data }),
            _ => None,
        }
    } else if text_is(name, "ExtendPCR") {
        match read_bytes(find_field(payload, "data")) {
            Some(data) => Some(Response::ExtendPCR { data }),
            None => None,
        }
    } else if text_is(name, "DescribeNSM") {
        read_describe_nsm(payload)
    } else if text_is(name, "Attestation") {
        match read_bytes(find_field(payload, "document")) {
            Some(document) => Some(Response::Attestation { document }),
            None => None,
        }
    } else if text_is(name, "GetRandom") {
        match read_bytes(find_field(payload, "random")) {
            Some(random) => Some(Response::GetRandom { random }),
            None => None,
        }
    } else if text_is(name, "Error") {
        match read_error_code(read_text(Some(payload))) {
            Some(code) => Some(Response::Error(code)),
            None => None,
        }
    } else {
        None
    }
}

impl Response {
    /// The response that an item stands for, or nothing where the item is
    /// none of the schema's responses.
    pub fn from_item(item: &Item) -> (response: Option<Response>)
        ensures
            reads_as(response, response_of_item(item@)),
    {
        match item {
            Item::Text(name) => if text_is(name, "LockPCR") {
                Some(Response::LockPCR)
            } else if text_is(name, "LockPCRs") {
                Some(Response::LockPCRs)
            } else {
                None
            },
            Item::Dict(entries) => {
                proof {
                    Item::lemma_dict_view(*entries);
                }
                if entries.len() == 1 {
                    match &entries[0].0 {
                        Item::Text(name) => read_variant(name, &entries[0].1),
                        _ => None,
                    }
                } else {
                    None
                }
            },
            _ => None,
        }
    }
}

} // verus!
