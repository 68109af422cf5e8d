use alloy::primitives::Address;
use arena_core::bindings::protocolfeelibrary::{
    new, AbiError, ProtocolFeeLibraryCalls, ProtocolFeeLibraryInstance, MAX_PROTOCOL_FEECall,
    MAX_PROTOCOL_FEEReturn,
};

fn word(high: u8, low: u8) -> Vec<u8> {
    let mut bytes = vec![0u8; 32];
    bytes[30] = high;
    bytes[31] = low;
    bytes
}

#[test]
fn selector_of_max_protocol_fee() {
    assert_eq!(MAX_PROTOCOL_FEECall::selector(), [0xb8, 0xca, 0x3b, 0x83]);
    let call = ProtocolFeeLibraryCalls::MAX_PROTOCOL_FEE(MAX_PROTOCOL_FEECall {});
    assert_eq!(call.selector(), [184, 202, 59, 131]);
}

#[test]
fn selector_at_lists_one_selector() {
    assert_eq!(ProtocolFeeLibraryCalls::selector_at(0), Some([184, 202, 59, 131]));
    assert_eq!(ProtocolFeeLibraryCalls::selector_at(1), None);
    assert_eq!(ProtocolFeeLibraryCalls::selector_at(usize::MAX), None);
}

#[test]
fn valid_selector_knows_one_selector() {
    assert!(ProtocolFeeLibraryCalls::valid_selector([184, 202, 59, 131]));
    assert!(!ProtocolFeeLibraryCalls::valid_selector([184, 202, 59, 130]));
    assert!(!ProtocolFeeLibraryCalls::valid_selector([185, 202, 59, 131]));
    assert!(!ProtocolFeeLibraryCalls::valid_selector([0, 0, 0, 0]));
}

#[test]
fn decode_returns_reads_the_last_two_bytes() {
    assert_eq!(
        MAX_PROTOCOL_FEECall::abi_decode_returns(&word(0x03, 0xe8), true),
        Ok(MAX_PROTOCOL_FEEReturn { _0: 1000 })
    );
    assert_eq!(
        MAX_PROTOCOL_FEECall::abi_decode_returns(&word(0xff, 0xff), true),
        Ok(MAX_PROTOCOL_FEEReturn { _0: 65535 })
    );
    assert_eq!(
        MAX_PROTOCOL_FEECall::abi_decode_returns(&word(0, 0), false),
        Ok(MAX_PROTOCOL_FEEReturn { _0: 0 })
    );
    assert_eq!(
        MAX_PROTOCOL_FEECall::abi_decode_returns(&word(0x0f, 0xa0), false),
        Ok(MAX_PROTOCOL_FEEReturn { _0: 4000 })
    );
}

#[test]
fn decode_returns_overruns_on_short_data() {
    assert_eq!(MAX_PROTOCOL_FEECall::abi_decode_returns(&[], true), Err(AbiError::Overrun));
    assert_eq!(MAX_PROTOCOL_FEECall::abi_decode_returns(&[], false), Err(AbiError::Overrun));
    assert_eq!(
        MAX_PROTOCOL_FEECall::abi_decode_returns(&word(1, 2)[..31], false),
        Err(AbiError::Overrun)
    );
}

#[test]
fn decode_returns_validates_length_and_padding() {
    let mut long = word(0x03, 0xe8);
    long.push(0);
    assert_eq!(
        MAX_PROTOCOL_FEECall::abi_decode_returns(&long, true),
        Err(AbiError::ReserMismatch)
    );
    assert_eq!(
        MAX_PROTOCOL_FEECall::abi_decode_returns(&long, false),
        Ok(MAX_PROTOCOL_FEEReturn { _0: 1000 })
    );
    let mut dirty = word(0x03, 0xe8);
    dirty[29] = 1;
    assert_eq!(
        MAX_PROTOCOL_FEECall::abi_decode_returns(&dirty, true),
        Err(AbiError::TypeCheckFail)
    );
    assert_eq!(
        MAX_PROTOCOL_FEECall::abi_decode_returns(&dirty, false),
        Ok(MAX_PROTOCOL_FEEReturn { _0: 1000 })
    );
    let mut top = word(0, 7);
    top[0] = 0x80;
    assert_eq!(
        MAX_PROTOCOL_FEECall::abi_decode_returns(&top, true),
        Err(AbiError::TypeCheckFail)
    );
    let mut both = dirty.clone();
    both.extend_from_slice(&[0u8; 32]);
    assert_eq!(
        MAX_PROTOCOL_FEECall::abi_decode_returns(&both, true),
        Err(AbiError::ReserMismatch)
    );
}

#[test]
fn decode_raw_of_the_call() {
    let call = ProtocolFeeLibraryCalls::MAX_PROTOCOL_FEE(MAX_PROTOCOL_FEECall {});
    assert_eq!(
        ProtocolFeeLibraryCalls::abi_decode_raw([184, 202, 59, 131], &[], true),
        Ok(call)
    );
    assert_eq!(
        ProtocolFeeLibraryCalls::abi_decode_raw([184, 202, 59, 131], &[], false),
        Ok(call)
    );
    assert_eq!(
        ProtocolFeeLibraryCalls::abi_decode_raw([184, 202, 59, 131], &[1, 2, 3], false),
        Ok(call)
    );
    assert_eq!(
        ProtocolFeeLibraryCalls::abi_decode_raw([184, 202, 59, 131], &[1, 2, 3], true),
        Err(AbiError::ReserMismatch)
    );
    assert_eq!(MAX_PROTOCOL_FEECall::abi_decode_raw(&[], true), Ok(MAX_PROTOCOL_FEECall {}));
    assert_eq!(
        MAX_PROTOCOL_FEECall::abi_decode_raw(&[0], true),
        Err(AbiError::ReserMismatch)
    );
}

#[test]
fn decode_raw_refuses_an_unknown_selector() {
    assert_eq!(
        ProtocolFeeLibraryCalls::abi_decode_raw([1, 2, 3, 4], &[], true),
        Err(AbiError::UnknownSelector { selector: [1, 2, 3, 4] })
    );
    assert_eq!(
        ProtocolFeeLibraryCalls::abi_decode_raw([184, 202, 59, 0], &[9], false),
        Err(AbiError::UnknownSelector { selector: [184, 202, 59, 0] })
    );
}

#[test]
fn call_without_arguments_encodes_to_nothing() {
    let call = ProtocolFeeLibraryCalls::MAX_PROTOCOL_FEE(MAX_PROTOCOL_FEECall {});
    assert_eq!(call.abi_encoded_size(), 0);
    assert_eq!(MAX_PROTOCOL_FEECall {}.abi_encoded_size(), 0);
    let mut out = vec![184u8, 202, 59, 131];
    call.abi_encode_raw(&mut out);
    assert_eq!(out, vec![184u8, 202, 59, 131]);
    let mut empty = Vec::new();
    MAX_PROTOCOL_FEECall {}.abi_encode_raw(&mut empty);
    assert!(empty.is_empty());
}

#[test]
fn instance_holds_address_and_provider() {
    let first = Address::repeat_byte(0x11);
    let second = Address::repeat_byte(0x22);
    let mut instance: ProtocolFeeLibraryInstance<(), String, ()> =
        ProtocolFeeLibraryInstance::new(first, "provider".to_string());
    assert_eq!(*instance.address(), first);
    assert_eq!(instance.provider(), "provider");
    instance.set_address(second);
    assert_eq!(*instance.address(), second);
    assert_eq!(instance.provider(), "provider");
    let moved = instance.at(first);
    assert_eq!(*moved.address(), first);
    assert_eq!(moved.provider(), "provider");

    let made: ProtocolFeeLibraryInstance<(), u8, ()> = new(second, 7u8);
    assert_eq!(*made.address(), second);
    assert_eq!(*made.provider(), 7);
}

#[test]
fn instance_with_cloned_provider_owns_a_copy() {
    let provider = vec![1u8, 2, 3];
    let borrowed: ProtocolFeeLibraryInstance<(), &Vec<u8>, ()> =
        ProtocolFeeLibraryInstance::new(Address::repeat_byte(0x33), &provider);
    let owned: ProtocolFeeLibraryInstance<(), Vec<u8>, ()> = borrowed.with_cloned_provider();
    assert_eq!(*owned.address(), Address::repeat_byte(0x33));
    assert_eq!(*owned.provider(), vec![1u8, 2, 3]);
}
