//! The requests that the security module takes and the responses that it
//! gives.

use vstd::prelude::*;

verus! {

/// The digest that the module uses for its PCRs and attestation documents.
#[derive(Debug, Clone, Copy, PartialEq, Eq, Structural)]
pub enum Digest {
    SHA256,
    SHA384,
    SHA512,
}

/// The error codes that the module itself reports.
#[derive(Debug, Clone, Copy, PartialEq, Eq, Structural)]
pub enum ErrorCode {
    Success,
    InvalidArgument,
    InvalidIndex,
    InvalidResponse,
    ReadOnlyIndex,
    InvalidOperation,
    BufferTooSmall,
    InputTooLarge,
    InternalError,
}

/// One operation of the module, with its parameters.
#[derive(Debug, PartialEq, Eq)]
pub enum Request {
    DescribePCR { index: u16 },
    ExtendPCR { index: u16, data: Vec<u8> },
    LockPCR { index: u16 },
    LockPCRs { range: u16 },
    DescribeNSM,
    Attestation { user_data: Option<Vec<u8>>, nonce: Option<Vec<u8>>, public_key: Option<Vec<u8>> },
    GetRandom,
}

/// The module's answer: the result of one operation, or an error code.
#[derive(Debug, PartialEq, Eq)]
pub enum Response {
    DescribePCR { lock: bool, data: Vec<u8> },
    ExtendPCR { data: Vec<u8> },
    LockPCR,
    LockPCRs,
    DescribeNSM {
        version_major: u16,
        version_minor: u16,
        version_patch: u16,
        module_id: String,
        max_pcrs: u16,
        locked_pcrs: Vec<u16>,
        digest: Digest,
    },
    Attestation { document: Vec<u8> },
    GetRandom { random: Vec<u8> },
    Error(ErrorCode),
}

/// The mathematical value of a [`Request`].
pub enum RequestView {
    DescribePCR { index: u16 },
    ExtendPCR { index: u16, data: Seq<u8> },
    LockPCR { index: u16 },
    LockPCRs { range: u16 },
    DescribeNSM,
    Attestation { user_data: Option<Seq<u8>>, nonce: Option<Seq<u8>>, public_key: Option<Seq<u8>> },
    GetRandom,
}

/// The mathematical value of a [`Response`].
pub enum ResponseView {
    DescribePCR { lock: bool, data: Seq<u8> },
    ExtendPCR { data: Seq<u8> },
    LockPCR,
    LockPCRs,
    DescribeNSM {
        version_major: u16,
        version_minor: u16,
        version_patch: u16,
        module_id: Seq<char>,
        max_pcrs: u16,
        locked_pcrs: Seq<u16>,
        digest: Digest,
    },
    Attestation { document: Seq<u8> },
    GetRandom { random: Seq<u8> },
    Error(ErrorCode),
}

/// The view of an optional byte string.
pub open spec fn bytes_view(bytes: Option<Vec<u8>>) -> Option<Seq<u8>> {
    match bytes {
        Some(b) => Some(b@),
        None => None,
    }
}

impl View for Request {
    type V = RequestView;

    open spec fn view(&self) -> RequestView {
        match self {
            Request::DescribePCR { index } => RequestView::DescribePCR { index: *index },
            Request::ExtendPCR { index, data } => RequestView::ExtendPCR {
                index: *index,
                data: data@,
            },
            Request::LockPCR { index } => RequestView::LockPCR { index: *index },
            Request::LockPCRs { range } => RequestView::LockPCRs { range: *range },
            Request::DescribeNSM => RequestView::DescribeNSM,
            Request::Attestation { user_data, nonce, public_key } => RequestView::Attestation {
                user_data: bytes_view(*user_data),
                nonce: bytes_view(*nonce),
                public_key: bytes_view(*public_key),
            },
            Request::GetRandom => RequestView::GetRandom,
        }
    }
}

impl View for Response {
    type V = ResponseView;

    open spec fn view(&self) -> ResponseView {
        match self {
            Response::DescribePCR { lock, data } => ResponseView::DescribePCR {
                lock: *lock,
                data: data@,
            },
            Response::ExtendPCR { data } => ResponseView::ExtendPCR { data: data@ },
            Response::LockPCR => ResponseView::LockPCR,
            Response::LockPCRs => ResponseView::LockPCRs,
            Response::DescribeNSM {
                version_major,
                version_minor,
                version_patch,
                module_id,
                max_pcrs,
                locked_pcrs,
                digest,
            } => ResponseView::DescribeNSM {
                version_major: *version_major,
                version_minor: *version_minor,
                version_patch: *version_patch,
                module_id: module_id@,
                max_pcrs: *max_pcrs,
                locked_pcrs: locked_pcrs@,
                digest: *digest,
            },
            Response::Attestation { document } => ResponseView::Attestation { document: document@ },
            Response::GetRandom { random } => ResponseView::GetRandom { random: random@ },
            Response::Error(code) => ResponseView::Error(*code),
        }
    }
}

} // verus!
