//! The exchange with the driver of the security module.
//!
//! One request makes one round trip: the request is encoded and paired with an
//! output region of fixed capacity, a single blocking call on the device hands
//! both to the driver, and the response is decoded from what the driver wrote.
//! The call itself is made by the caller of this module. What stands here is
//! everything decided before it and after it.

use crate::api::{Request, RequestView, Response, ResponseView};
use crate::schema::{lemma_response_round_trip, request_item, response_item, response_of_item};
use crate::cbor::{cbor_encoding, cbor_first_item, data_error, first_item, to_vec, Item};
use vstd::prelude::*;

verus! {

/// The path of the device of the security module.
pub const DEV_FILE: &'static str = "/dev/nsm";

/// The magic number of the call that carries a message to the driver. The
/// call reads and writes: it takes the request and fills in the response.
pub const NSM_IOCTL_MAGIC: u8 = 0x0A;

/// The capacity of the output region. No response of the module is larger.
pub const NSM_RESPONSE_MAX_SIZE: usize = 0x3000;

/// What can go wrong in one exchange with the driver.
#[derive(Debug)]
pub enum DriverError {
    /// The device could not be opened or closed, or the call on it failed:
    /// the platform's error code.
    Io(i32),
    /// A response is not the encoding of any response of the schema.
    Cbor(serde_cbor::Error),
    /// The driver handed back more bytes than the output region holds.
    ResponseTooLarge,
}

impl From<serde_cbor::Error> for DriverError {
    fn from(err: serde_cbor::Error) -> (error: DriverError) {
        DriverError::Cbor(err)
    }
}

impl vstd::std_specs::convert::FromSpecImpl<serde_cbor::Error> for DriverError {
    open spec fn obeys_from_spec() -> bool {
        true
    }

    open spec fn from_spec(err: serde_cbor::Error) -> DriverError {
        DriverError::Cbor(err)
    }
}

/// The buffers of one call: the encoded request, which the driver reads, and
/// the output region, which the driver overwrites with the encoded response.
#[derive(Debug)]
pub struct NsmMessage {
    pub request: Vec<u8>,
    pub response: Vec<u8>,
}

/// The bytes of an encoded request.
pub open spec fn request_encoding(request: RequestView) -> Seq<u8> {
    cbor_encoding(request_item(request))
}

/// Whether `bytes` holds nothing but zeros from `from` on.
pub open spec fn is_padding(bytes: Seq<u8>, from: int) -> bool {
    forall|i: int| from <= i < bytes.len() ==> bytes[i] == 0
}

/// The response that an output region holds: that of its first data item,
/// where the rest of the region is padding.
pub open spec fn response_decoding(bytes: Seq<u8>) -> Option<ResponseView> {
    match cbor_first_item(bytes) {
        Some((item, used)) => if is_padding(bytes, used as int) {
            response_of_item(item)
        } else {
            None
        },
        None => None,
    }
}

/// An output region before the call: `capacity` zeros.
pub open spec fn empty_region(capacity: nat) -> Seq<u8> {
    Seq::new(capacity, |i: int| 0u8)
}

/// What encoding a request yields: the bytes of its encoding, always.
pub open spec fn is_encoding(request: RequestView, encoded: Result<Vec<u8>, DriverError>) -> bool {
    encoded is Ok && encoded->Ok_0@ == request_encoding(request)
}

/// An output region that starts with the item of a response, and holds
/// nothing but padding after it, decodes to that response: whatever the
/// module answers within the schema comes back as it was given.
pub proof fn lemma_response_decoding(region: Seq<u8>, response: ResponseView, used: nat)
    requires
        cbor_first_item(region) == Some((response_item(response), used)),
        is_padding(region, used as int),
    ensures
        response_decoding(region) == Some(response),
{
    lemma_response_round_trip(response);
}

/// Encoding is a function of the request: two encodings of requests with the
/// same value are the same bytes.
pub proof fn lemma_encoding_deterministic(
    first: Request,
    second: Request,
    first_encoded: Result<Vec<u8>, DriverError>,
    second_encoded: Result<Vec<u8>, DriverError>,
)
    requires
        first@ == second@,
        is_encoding(first@, first_encoded),
        is_encoding(second@, second_encoded),
    ensures
        first_encoded is Ok,
        second_encoded is Ok,
        first_encoded->Ok_0@ == second_encoded->Ok_0@,
{
}

/// Encodes a request. Every request has an encoding.
pub fn nsm_encode_request_to_cbor(request: Request) -> (encoded: Result<Vec<u8>, DriverError>)
    ensures
        is_encoding(request@, encoded),
{
    let item = request.to_item();
    match to_vec(&item) {
        Ok(bytes) => Ok(bytes),
        Err(err) => Err(DriverError::from(err)),
    }
}

/// Whether `bytes` holds nothing but zeros from `from` on.
fn is_zero_from(bytes: &[u8], from: usize) -> (padding: bool)
    ensures
        padding == is_padding(bytes@, from as int),
{
    let mut i: usize = from;
    while i < bytes.len()
        invariant
            from <= i,
            forall|j: int| from <= j < i && j < bytes.len() ==> bytes[j] == 0,
        decreases bytes.len() - i,
    {
        if bytes[i] != 0 {
            return false;
        }
        i += 1;
    }
    true
}

/// The response that the first data item of an output region stands for,
/// given that item and the number of bytes that it takes up. The rest of the
/// region has to be padding, and the item a response of the schema.
pub fn nsm_response_from_item(item: &Item, response_data: &[u8], used: usize) -> (decoded: Result<
    Response,
    DriverError,
>)
    ensures
        match decoded {
            Ok(response) => is_padding(response_data@, used as int) && response_of_item(item@)
                == Some(response@),
            Err(err) => err is Cbor && !(is_padding(response_data@, used as int)
                && response_of_item(item@) is Some),
        },
{
    if !is_zero_from(response_data, used) {
        return Err(DriverError::from(data_error("trailing data")));
    }
    match Response::from_item(item) {
        Some(response) => Ok(response),
        None => Err(DriverError::from(data_error("not a response of the security module"))),
    }
}

/// Decodes the response that an output region holds. The encoding delimits
/// itself, so the region may be longer than the response: zeros may follow
/// it, and nothing else.
pub fn nsm_decode_response_from_cbor(response_data: &[u8]) -> (decoded: Result<Response, DriverError>)
    ensures
        match decoded {
            Ok(response) => response_decoding(response_data@) == Some(response@),
            Err(err) => err is Cbor && response_decoding(response_data@) is None,
        },
{
    match first_item(response_data) {
        Ok((item, used)) => nsm_response_from_item(&item, response_data, used),
        Err(err) => Err(DriverError::from(err)),
    }
}

/// What the call on the device came to, from the status that it returned and
/// the platform's error code as it stood right after the call. Status zero is
/// success; with any other status the error code says why the call failed.
pub fn nsm_ioctl(status: i32, errno: i32) -> (outcome: Result<(), DriverError>)
    ensures
        status == 0 ==> outcome is Ok,
        status != 0 ==> outcome == Err::<(), DriverError>(DriverError::Io(errno)),
{
    if status == 0 {
        Ok(())
    } else {
        Err(DriverError::Io(errno))
    }
}

/// Prepares the message of a request: its encoding, and an output region of
/// [`NSM_RESPONSE_MAX_SIZE`] zeros for the driver to write the response into.
pub fn nsm_process_request(request: Request) -> (message: Result<NsmMessage, DriverError>)
    ensures
        message is Ok,
        message->Ok_0.request@ == request_encoding(request@),
        message->Ok_0.response@ == empty_region(NSM_RESPONSE_MAX_SIZE as nat),
{
    let cbor_request = match nsm_encode_request_to_cbor(request) {
        Ok(bytes) => bytes,
        Err(err) => {
            return Err(err);
        },
    };
    let cbor_response: Vec<u8> = vec![0u8; NSM_RESPONSE_MAX_SIZE];
    assert(cbor_response@ =~= empty_region(NSM_RESPONSE_MAX_SIZE as nat));
    Ok(NsmMessage { request: cbor_request, response: cbor_response })
}

/// What one round trip yields, as a relation between what came back from the
/// call and the result: a failed call is its error code, an output region
/// beyond its capacity is refused, and otherwise the region is decoded.
pub open spec fn is_outcome(
    response_data: Seq<u8>,
    status: i32,
    errno: i32,
    outcome: Result<Response, DriverError>,
) -> bool {
    if status != 0 {
        outcome == Err::<Response, DriverError>(DriverError::Io(errno))
    } else if response_data.len() > NSM_RESPONSE_MAX_SIZE {
        outcome == Err::<Response, DriverError>(DriverError::ResponseTooLarge)
    } else {
        match outcome {
            Ok(response) => response_decoding(response_data) == Some(response@),
            Err(err) => err is Cbor && response_decoding(response_data) is None,
        }
    }
}

/// Completes a round trip: takes the message as the call left it, with the
/// status that the call returned and the platform's error code, and gives the
/// response of the module.
pub fn nsm_process_response(message: NsmMessage, status: i32, errno: i32) -> (outcome: Result<
    Response,
    DriverError,
>)
    ensures
        is_outcome(message.response@, status, errno, outcome),
{
    match nsm_ioctl(status, errno) {
        Ok(()) => {},
        Err(err) => {
            return Err(err);
        },
    }
    if message.response.len() > NSM_RESPONSE_MAX_SIZE {
        return Err(DriverError::ResponseTooLarge);
    }
    nsm_decode_response_from_cbor(message.response.as_slice())
}

/// What opening the device came to: the handle, or the platform's error code.
pub fn nsm_init(opened: Result<i32, i32>) -> (handle: Result<i32, DriverError>)
    ensures
        match opened {
            Ok(fd) => handle == Ok::<i32, DriverError>(fd),
            Err(errno) => handle == Err::<i32, DriverError>(DriverError::Io(errno)),
        },
{
    match opened {
        Ok(fd) => Ok(fd),
        Err(errno) => Err(DriverError::Io(errno)),
    }
}

/// What closing the device came to.
pub fn nsm_exit(closed: Result<(), i32>) -> (outcome: Result<(), DriverError>)
    ensures
        match closed {
            Ok(()) => outcome is Ok,
            Err(errno) => outcome == Err::<(), DriverError>(DriverError::Io(errno)),
        },
{
    match closed {
        Ok(()) => Ok(()),
        Err(errno) => Err(DriverError::Io(errno)),
    }
}

} // verus!
