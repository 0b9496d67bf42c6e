//! Communication with the Nitro Secure Module: the requests and responses of
//! its schema, their CBOR encoding, and the decisions taken around the single
//! blocking call that carries a request to the device and brings back the
//! response.
//!
//! The crate opens no device and makes no call on one. Its caller does, and
//! hands over what came of it: the handle or the error code of opening the
//! device, the status and the output region of a call, the outcome of closing.
//! Everything else is decided here, and verified.

pub mod api;
pub mod cbor;
pub mod driver;
pub mod schema;

use api::{ErrorCode, Request, Response, ResponseView};
use driver::{
    empty_region, nsm_init, nsm_process_request, nsm_process_response, request_encoding,
    response_decoding, DriverError, NsmMessage, NSM_RESPONSE_MAX_SIZE,
};
use vstd::prelude::*;

verus! {

/// What can go wrong in an operation of the security module.
#[derive(Debug)]
pub enum NsmError {
    /// The device could not be opened, or the call on it failed: the
    /// platform's error code.
    Io(i32),
    /// The response is not the encoding of any response of the schema.
    Cbor(serde_cbor::Error),
    /// The module answered with an error code of its own.
    NitroSecureModuleError(ErrorCode),
    /// The module answered, but not what the operation asks for.
    InvalidReponse,
    /// The driver handed back more bytes than the output region holds.
    ResponseTooLarge,
}

impl From<DriverError> for NsmError {
    fn from(err: DriverError) -> (error: NsmError) {
        match err {
            DriverError::Io(errno) => NsmError::Io(errno),
            DriverError::Cbor(cbor_err) => NsmError::Cbor(cbor_err),
            DriverError::ResponseTooLarge => NsmError::ResponseTooLarge,
        }
    }
}

impl vstd::std_specs::convert::FromSpecImpl<DriverError> for NsmError {
    open spec fn obeys_from_spec() -> bool {
        true
    }

    open spec fn from_spec(err: DriverError) -> NsmError {
        match err {
            DriverError::Io(errno) => NsmError::Io(errno),
            DriverError::Cbor(cbor_err) => NsmError::Cbor(cbor_err),
            DriverError::ResponseTooLarge => NsmError::ResponseTooLarge,
        }
    }
}

/// What a response means to one who asked for random bytes, as a relation
/// between the response and the result: the bytes of a `GetRandom`, the
/// module's own error code, and for every other response the verdict that it
/// does not answer the question.
pub open spec fn is_random_of(response: ResponseView, random: Result<Vec<u8>, NsmError>) -> bool {
    match response {
        ResponseView::GetRandom { random: bytes } => random is Ok && random->Ok_0@ == bytes,
        ResponseView::Error(code) => random == Err::<Vec<u8>, NsmError>(
            NsmError::NitroSecureModuleError(code),
        ),
        _ => random == Err::<Vec<u8>, NsmError>(NsmError::InvalidReponse),
    }
}

/// The random bytes that a response carries.
pub fn random_from_response(response: Response) -> (random: Result<Vec<u8>, NsmError>)
    ensures
        is_random_of(response@, random),
{
    match response {
        Response::GetRandom { random } => Ok(random),
        Response::Error(err_code) => Err(NsmError::NitroSecureModuleError(err_code)),
        _ => Err(NsmError::InvalidReponse),
    }
}

/// What a request for random bytes yields, as a relation between what came
/// back from the call and the result.
pub open spec fn is_random_outcome(
    response_data: Seq<u8>,
    status: i32,
    errno: i32,
    random: Result<Vec<u8>, NsmError>,
) -> bool {
    if status != 0 {
        random == Err::<Vec<u8>, NsmError>(NsmError::Io(errno))
    } else if response_data.len() > NSM_RESPONSE_MAX_SIZE {
        random == Err::<Vec<u8>, NsmError>(NsmError::ResponseTooLarge)
    } else {
        match response_decoding(response_data) {
            Some(response) => is_random_of(response, random),
            None => random matches Err(NsmError::Cbor(_)),
        }
    }
}

/// The security module, as one who holds the handle of its open device.
///
/// A facade is open from the moment it is made until it is closed, and it is
/// closed once: after that it holds no handle, and nothing opens it again.
#[derive(Debug)]
pub struct NitroSecureModule {
    fd: Option<i32>,
}

impl View for NitroSecureModule {
    type V = Option<i32>;

    /// The handle that the facade holds, while it is open.
    closed spec fn view(&self) -> Option<i32> {
        self.fd
    }
}

impl NitroSecureModule {
    /// What closing does to a facade: it hands out the handle that the facade
    /// holds, if it holds one, and leaves the facade without one.
    pub open spec fn closes(before: Self, after: Self, released: Option<i32>) -> bool {
        released == before@ && after@ is None
    }

    /// Of two closings in turn the first hands out the handle, if the facade
    /// is open, and the second hands out nothing: a handle is released at
    /// most once, and a facade that was open releases it exactly once.
    pub proof fn lemma_released_once(
        before: Self,
        between: Self,
        after: Self,
        first: Option<i32>,
        second: Option<i32>,
    )
        requires
            Self::closes(before, between, first),
            Self::closes(between, after, second),
        ensures
            first == before@,
            second is None,
            after@ is None,
    {
    }

    /// The facade of a device that was just opened, or the error of opening
    /// it: `opened` is the handle, or the platform's error code.
    pub fn new(opened: Result<i32, i32>) -> (module: Result<Self, NsmError>)
        ensures
            match opened {
                Ok(fd) => module is Ok && module->Ok_0@ == Some(fd),
                Err(errno) => module matches Err(NsmError::Io(code)) && code == errno,
            },
    {
        match nsm_init(opened) {
            Ok(fd) => Ok(Self { fd: Some(fd) }),
            Err(err) => Err(NsmError::from(err)),
        }
    }

    /// The handle to make calls on, while the facade is open.
    pub fn fd(&self) -> (fd: Option<i32>)
        ensures
            fd == self@,
    {
        self.fd
    }

    /// The message that asks the module for random bytes.
    pub fn get_random_request(&self) -> (message: Result<NsmMessage, NsmError>)
        requires
            self@ is Some,
        ensures
            message is Ok,
            message->Ok_0.request@ == request_encoding(Request::GetRandom@),
            message->Ok_0.response@ == empty_region(NSM_RESPONSE_MAX_SIZE as nat),
    {
        let request = Request::GetRandom;
        match nsm_process_request(request) {
            Ok(message) => Ok(message),
            Err(err) => Err(NsmError::from(err)),
        }
    }

    /// The random bytes that the module gave: takes the message as the call
    /// left it, with the status that the call returned and the platform's
    /// error code.
    pub fn get_random(&self, message: NsmMessage, status: i32, errno: i32) -> (random: Result<
        Vec<u8>,
        NsmError,
    >)
        requires
            self@ is Some,
        ensures
            is_random_outcome(message.response@, status, errno, random),
    {
        match nsm_process_response(message, status, errno) {
            Ok(response) => random_from_response(response),
            Err(err) => Err(NsmError::from(err)),
        }
    }

    /// Closes the facade, and hands out the handle for the caller to release.
    pub fn close(&mut self) -> (released: Option<i32>)
        ensures
            Self::closes(*old(self), *final(self), released),
    {
        self.fd.take()
    }
}

} // verus!
