//! The facade: from opening the device to closing it.

use nsm_api::api::{ErrorCode, Response};
use nsm_api::driver::{nsm_exit, DriverError, NsmMessage, NSM_RESPONSE_MAX_SIZE};
use nsm_api::{random_from_response, NitroSecureModule, NsmError};
use serde_cbor::Value;
use std::cell::RefCell;
use std::collections::BTreeMap;
use std::rc::Rc;

fn text(s: &str) -> Value {
    Value::Text(s.to_string())
}

fn map_of(entries: Vec<(&str, Value)>) -> Value {
    let mut map = BTreeMap::new();
    for (key, value) in entries {
        map.insert(text(key), value);
    }
    Value::Map(map)
}

/// A message as the call leaves it when the module answers with `value`.
fn answered(module: &NitroSecureModule, value: &Value) -> NsmMessage {
    let mut message = module.get_random_request().unwrap();
    let bytes = serde_cbor::to_vec(value).unwrap();
    message.response[..bytes.len()].copy_from_slice(&bytes);
    message
}

/// A device that counts how often each of its handles is released.
struct Device {
    released: Rc<RefCell<Vec<i32>>>,
}

/// The facade with the release of its handle tied to its scope.
struct Scoped {
    module: NitroSecureModule,
    device: Device,
}

impl Drop for Scoped {
    fn drop(&mut self) {
        if let Some(fd) = self.module.close() {
            self.device.released.borrow_mut().push(fd);
            nsm_exit(Err(libc::EIO)).unwrap_or_default();
        }
    }
}

fn failing_operation(scoped: &Scoped) -> Result<Vec<u8>, NsmError> {
    let mut message = scoped.module.get_random_request()?;
    message.response[0] = 0xff;
    let random = scoped.module.get_random(message, 0, 0)?;
    Ok(random)
}

#[test]
fn unavailable_device_gives_not_found_and_no_facade() {
    match NitroSecureModule::new(Err(libc::ENOENT)) {
        Err(NsmError::Io(code)) => {
            assert_eq!(code, libc::ENOENT);
            assert_eq!(
                std::io::Error::from_raw_os_error(code).kind(),
                std::io::ErrorKind::NotFound
            );
        }
        other => panic!("{:?}", other),
    }
}

#[test]
fn opened_device_gives_an_open_facade() {
    let module = NitroSecureModule::new(Ok(5)).unwrap();
    assert_eq!(module.fd(), Some(5));
}

#[test]
fn random_bytes_of_the_module_come_back_exactly() {
    let payload: Vec<u8> = (0u8..32).collect();
    let module = NitroSecureModule::new(Ok(3)).unwrap();
    let value = map_of(vec![("GetRandom", map_of(vec![("random", Value::Bytes(payload.clone()))]))]);
    let message = answered(&module, &value);
    let random = module.get_random(message, 0, 0).unwrap();
    assert_eq!(random.len(), 32);
    assert_eq!(random, payload);
}

#[test]
fn random_request_asks_for_random_bytes() {
    let module = NitroSecureModule::new(Ok(3)).unwrap();
    let message = module.get_random_request().unwrap();
    let asked: Value = serde_cbor::from_slice(&message.request).unwrap();
    assert_eq!(asked, text("GetRandom"));
    assert_eq!(message.response, vec![0u8; NSM_RESPONSE_MAX_SIZE]);
}

#[test]
fn error_code_of_the_module_is_carried_through() {
    let module = NitroSecureModule::new(Ok(3)).unwrap();
    for (name, code) in [
        ("InternalError", ErrorCode::InternalError),
        ("InvalidOperation", ErrorCode::InvalidOperation),
        ("BufferTooSmall", ErrorCode::BufferTooSmall),
    ] {
        let message = answered(&module, &map_of(vec![("Error", text(name))]));
        match module.get_random(message, 0, 0) {
            Err(NsmError::NitroSecureModuleError(carried)) => assert_eq!(carried, code),
            other => panic!("{:?}", other),
        }
    }
}

#[test]
fn response_to_another_question_is_invalid() {
    let module = NitroSecureModule::new(Ok(3)).unwrap();
    let message = answered(&module, &text("LockPCR"));
    assert!(matches!(module.get_random(message, 0, 0), Err(NsmError::InvalidReponse)));
    let value = map_of(vec![("Attestation", map_of(vec![("document", Value::Bytes(vec![1]))]))]);
    let message = answered(&module, &value);
    assert!(matches!(module.get_random(message, 0, 0), Err(NsmError::InvalidReponse)));
}

#[test]
fn failed_call_is_an_io_error_with_its_code() {
    let module = NitroSecureModule::new(Ok(3)).unwrap();
    let message = module.get_random_request().unwrap();
    match module.get_random(message, -1, libc::ENODEV) {
        Err(NsmError::Io(code)) => assert_eq!(code, libc::ENODEV),
        other => panic!("{:?}", other),
    }
}

#[test]
fn malformed_response_is_a_codec_error() {
    let module = NitroSecureModule::new(Ok(3)).unwrap();
    let message = module.get_random_request().unwrap();
    assert!(matches!(module.get_random(message, 0, 0), Err(NsmError::Cbor(_))));
}

#[test]
fn oversized_region_is_refused_by_the_facade() {
    let module = NitroSecureModule::new(Ok(3)).unwrap();
    let mut message = module.get_random_request().unwrap();
    message.response.push(0);
    assert!(matches!(module.get_random(message, 0, 0), Err(NsmError::ResponseTooLarge)));
}

#[test]
fn each_response_means_one_thing_to_one_who_asked_for_random_bytes() {
    assert_eq!(random_from_response(Response::GetRandom { random: vec![4, 2] }).unwrap(), vec![4, 2]);
    assert_eq!(random_from_response(Response::GetRandom { random: vec![] }).unwrap(), Vec::<u8>::new());
    assert!(matches!(
        random_from_response(Response::Error(ErrorCode::Success)),
        Err(NsmError::NitroSecureModuleError(ErrorCode::Success))
    ));
    assert!(matches!(
        random_from_response(Response::ExtendPCR { data: vec![1] }),
        Err(NsmError::InvalidReponse)
    ));
    assert!(matches!(random_from_response(Response::LockPCRs), Err(NsmError::InvalidReponse)));
}

#[test]
fn errors_of_the_driver_keep_their_kind() {
    assert!(matches!(NsmError::from(DriverError::Io(11)), NsmError::Io(11)));
    assert!(matches!(NsmError::from(DriverError::ResponseTooLarge), NsmError::ResponseTooLarge));
    let cbor = serde_cbor::from_slice::<Value>(&[0x61]).unwrap_err();
    let shown = format!("{:?}", cbor);
    match NsmError::from(DriverError::from(cbor)) {
        NsmError::Cbor(kept) => assert_eq!(format!("{:?}", kept), shown),
        other => panic!("{:?}", other),
    }
}

#[test]
fn closing_hands_out_the_handle_once() {
    let mut module = NitroSecureModule::new(Ok(9)).unwrap();
    assert_eq!(module.close(), Some(9));
    assert_eq!(module.fd(), None);
    assert_eq!(module.close(), None);
    assert_eq!(module.close(), None);
}

#[test]
fn handle_is_released_once_after_a_failed_operation() {
    let released = Rc::new(RefCell::new(Vec::new()));
    {
        let scoped = Scoped {
            module: NitroSecureModule::new(Ok(4)).unwrap(),
            device: Device { released: released.clone() },
        };
        assert!(matches!(failing_operation(&scoped), Err(NsmError::Cbor(_))));
        assert_eq!(scoped.module.fd(), Some(4));
        assert!(released.borrow().is_empty());
    }
    assert_eq!(*released.borrow(), vec![4]);
}

#[test]
fn handle_is_released_once_after_success_and_early_close() {
    let released = Rc::new(RefCell::new(Vec::new()));
    {
        let mut scoped = Scoped {
            module: NitroSecureModule::new(Ok(6)).unwrap(),
            device: Device { released: released.clone() },
        };
        let value = map_of(vec![("GetRandom", map_of(vec![("random", Value::Bytes(vec![1; 8]))]))]);
        let message = answered(&scoped.module, &value);
        assert_eq!(scoped.module.get_random(message, 0, 0).unwrap(), vec![1; 8]);
        if let Some(fd) = scoped.module.close() {
            released.borrow_mut().push(fd);
        }
    }
    assert_eq!(*released.borrow(), vec![6]);
}
