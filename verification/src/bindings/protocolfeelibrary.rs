use alloy::primitives::Address;
use alloy::sol_types::sol_data::Uint;
use alloy::sol_types::SolType;
use vstd::prelude::*;

verus! {

/// Function with signature `MAX_PROTOCOL_FEE()` and selector `0xb8ca3b83`.
/// It takes no arguments.
#[allow(non_camel_case_types)]
#[derive(Clone, Copy, Debug, PartialEq, Eq, Structural)]
pub struct MAX_PROTOCOL_FEECall {}

/// Container type for the return parameters of the `MAX_PROTOCOL_FEE()`
/// function: one `uint16`.
#[allow(non_camel_case_types, non_snake_case)]
#[derive(Clone, Copy, Debug, PartialEq, Eq, Structural)]
pub struct MAX_PROTOCOL_FEEReturn {
    pub _0: u16,
}

/// Container for all the function calls of the contract.
#[allow(non_camel_case_types)]
#[derive(Clone, Copy, Debug, PartialEq, Eq, Structural)]
pub enum ProtocolFeeLibraryCalls {
    MAX_PROTOCOL_FEE(MAX_PROTOCOL_FEECall),
}

/// Why bytes could not be decoded as a call or as its return values.
#[derive(Clone, Copy, Debug, PartialEq, Eq)]
pub enum AbiError {
    /// A word does not match the data type: bytes above the value's width are set.
    TypeCheckFail,
    /// The bytes end before the value does.
    Overrun,
    /// The bytes are not the canonical encoding of the value they decode to.
    ReserMismatch,
    /// The contract has no function with this selector.
    UnknownSelector { selector: [u8; 4] },
}

/// `alloy::sol_types::Error`, the error of the decoder. The library says
/// from the bytes why they were refused, and does not look at the error.
#[verifier::external_type_specification]
#[verifier::external_body]
pub struct ExSolError(alloy::sol_types::Error);

/// The selector of `MAX_PROTOCOL_FEE()`: the first four bytes of the hash of
/// its signature.
pub open spec fn max_protocol_fee_selector() -> Seq<u8> {
    seq![184u8, 202u8, 59u8, 131u8]
}

/// The encoding of the arguments of `MAX_PROTOCOL_FEE()`: it has none, so no
/// byte at all.
pub open spec fn no_arguments() -> Seq<u8> {
    Seq::empty()
}

/// What decoding the arguments of a call without arguments yields: success
/// on any bytes, and with `validate` only on none, since the canonical
/// encoding of no arguments is empty.
pub open spec fn decoded_arguments(data: Seq<u8>, validate: bool) -> Result<(), AbiError> {
    if validate && data.len() != 0 {
        Err(AbiError::ReserMismatch)
    } else {
        Ok(())
    }
}

/// What decoding one `uint16` return value yields. The value is the last
/// two bytes of the first 32-byte word, big-endian. Fewer than 32 bytes
/// overrun. With `validate`, bytes after the word and set bytes above the
/// value are refused; without it they are ignored.
pub open spec fn decoded_uint16(data: Seq<u8>, validate: bool) -> Result<u16, AbiError> {
    if data.len() < 32 {
        Err(AbiError::Overrun)
    } else if validate && data.len() != 32 {
        Err(AbiError::ReserMismatch)
    } else if validate && exists|i: int| 0 <= i < 30 && data[i] != 0 {
        Err(AbiError::TypeCheckFail)
    } else {
        Ok((data[30] as int * 256 + data[31] as int) as u16)
    }
}

/// `SolType::abi_decode_sequence` of `alloy::sol_types` for the empty tuple.
/// The decoder reads nothing and succeeds; with `validate` it then compares
/// the bytes with the encoding of the empty tuple, which is empty, and fails
/// if they differ.
#[verifier::external_body]
fn decode_no_arguments(data: &[u8], validate: bool) -> (result: Result<
    (),
    alloy::sol_types::Error,
>)
    ensures
        result is Ok <==> decoded_arguments(data@, validate) is Ok,
{
    <() as SolType>::abi_decode_sequence(data, validate)
}

/// `SolType::abi_encode_sequence` of `alloy::sol_types` for the empty tuple:
/// no bytes.
#[verifier::external_body]
fn encode_no_arguments() -> (bytes: Vec<u8>)
    ensures
        bytes@ == no_arguments(),
{
    <() as SolType>::abi_encode_sequence(&())
}

/// `SolType::abi_decode_sequence` of `alloy::sol_types` for a tuple of one
/// `uint16`. The decoder takes the first 32-byte word and fails if there is
/// none; with `validate` it fails if the bytes are more than that word or if
/// one of the word's first 30 bytes is set; the value is the word's last two
/// bytes, big-endian.
#[verifier::external_body]
fn decode_uint16(data: &[u8], validate: bool) -> (result: Result<u16, alloy::sol_types::Error>)
    ensures
        result is Ok <==> decoded_uint16(data@, validate) is Ok,
        result is Ok ==> result->Ok_0 == decoded_uint16(data@, validate)->Ok_0,
{
    <(Uint<16>,) as SolType>::abi_decode_sequence(data, validate).map(|value| value.0)
}

impl MAX_PROTOCOL_FEECall {
    /// The function's selector.
    pub fn selector() -> (selector: [u8; 4])
        ensures
            selector@ == max_protocol_fee_selector(),
    {
        [184u8, 202u8, 59u8, 131u8]
    }

    /// ABI decode this call's arguments from the given slice, without its
    /// selector.
    pub fn abi_decode_raw(data: &[u8], validate: bool) -> (result: Result<Self, AbiError>)
        ensures
            result == match decoded_arguments(data@, validate) {
                Ok(_) => Ok::<Self, AbiError>(MAX_PROTOCOL_FEECall {  }),
                Err(error) => Err::<Self, AbiError>(error),
            },
    {
        match decode_no_arguments(data, validate) {
            Ok(_) => Ok(MAX_PROTOCOL_FEECall {  }),
            Err(_) => Err(AbiError::ReserMismatch),
        }
    }

    /// The size of the encoded arguments in bytes, without the selector.
    pub fn abi_encoded_size(&self) -> (size: usize)
        ensures
            size == no_arguments().len(),
    {
        0
    }

    /// ABI encode the call's arguments to the given buffer, without the
    /// selector.
    pub fn abi_encode_raw(&self, out: &mut Vec<u8>)
        ensures
            final(out)@ == old(out)@ + no_arguments(),
    {
        let mut bytes = encode_no_arguments();
        out.append(&mut bytes);
    }

    /// ABI decode this call's return values from the given slice.
    pub fn abi_decode_returns(data: &[u8], validate: bool) -> (result: Result<
        MAX_PROTOCOL_FEEReturn,
        AbiError,
    >)
        ensures
            result == match decoded_uint16(data@, validate) {
                Ok(value) => Ok::<MAX_PROTOCOL_FEEReturn, AbiError>(
                    MAX_PROTOCOL_FEEReturn { _0: value },
                ),
                Err(error) => Err::<MAX_PROTOCOL_FEEReturn, AbiError>(error),
            },
    {
        match decode_uint16(data, validate) {
            Ok(value) => Ok(MAX_PROTOCOL_FEEReturn { _0: value }),
            Err(_) => if data.len() < 32 {
                Err(AbiError::Overrun)
            } else if data.len() != 32 {
                Err(AbiError::ReserMismatch)
            } else {
                Err(AbiError::TypeCheckFail)
            },
        }
    }
}

impl ProtocolFeeLibraryCalls {
    /// The selector of this call.
    pub fn selector(&self) -> (selector: [u8; 4])
        ensures
            selector@ == max_protocol_fee_selector(),
    {
        match self {
            ProtocolFeeLibraryCalls::MAX_PROTOCOL_FEE(_) => MAX_PROTOCOL_FEECall::selector(),
        }
    }

    /// The selector at index `i` among the selectors of this contract, which
    /// has one.
    pub fn selector_at(i: usize) -> (selector: Option<[u8; 4]>)
        ensures
            selector is Some <==> i == 0,
            selector is Some ==> selector->0@ == max_protocol_fee_selector(),
    {
        if i == 0 {
            Some(MAX_PROTOCOL_FEECall::selector())
        } else {
            None
        }
    }

    /// Whether the contract has a function with this selector.
    pub fn valid_selector(selector: [u8; 4]) -> (valid: bool)
        ensures
            valid == (selector@ == max_protocol_fee_selector()),
    {
        let known = MAX_PROTOCOL_FEECall::selector();
        let valid = selector[0] == known[0] && selector[1] == known[1] && selector[2] == known[2]
            && selector[3] == known[3];
        assert(valid ==> selector@ =~= max_protocol_fee_selector());
        valid
    }

    /// ABI decode a call of this contract from its selector and the bytes
    /// after it. A selector that the contract does not have is refused with
    /// [`AbiError::UnknownSelector`]; for the one it has, the arguments are
    /// decoded.
    pub fn abi_decode_raw(selector: [u8; 4], data: &[u8], validate: bool) -> (result: Result<
        Self,
        AbiError,
    >)
        ensures
            result == if selector@ != max_protocol_fee_selector() {
                Err::<Self, AbiError>(AbiError::UnknownSelector { selector })
            } else {
                match decoded_arguments(data@, validate) {
                    Ok(_) => Ok::<Self, AbiError>(
                        ProtocolFeeLibraryCalls::MAX_PROTOCOL_FEE(MAX_PROTOCOL_FEECall {  }),
                    ),
                    Err(error) => Err::<Self, AbiError>(error),
                }
            },
    {
        if !Self::valid_selector(selector) {
            return Err(AbiError::UnknownSelector { selector });
        }
        match MAX_PROTOCOL_FEECall::abi_decode_raw(data, validate) {
            Ok(call) => Ok(ProtocolFeeLibraryCalls::MAX_PROTOCOL_FEE(call)),
            Err(error) => Err(error),
        }
    }

    /// The size of the encoded arguments in bytes, without the selector.
    pub fn abi_encoded_size(&self) -> (size: usize)
        ensures
            size == no_arguments().len(),
    {
        match self {
            ProtocolFeeLibraryCalls::MAX_PROTOCOL_FEE(inner) => inner.abi_encoded_size(),
        }
    }

    /// ABI encode the call's arguments to the given buffer, without the
    /// selector.
    pub fn abi_encode_raw(&self, out: &mut Vec<u8>)
        ensures
            final(out)@ == old(out)@ + no_arguments(),
    {
        match self {
            ProtocolFeeLibraryCalls::MAX_PROTOCOL_FEE(inner) => inner.abi_encode_raw(out),
        }
    }
}

/// A handle on an instance of the contract: the address it is deployed at
/// and the provider through which it is reached. `T` names the transport and
/// `N` the network of the provider; the handle holds neither.
pub struct ProtocolFeeLibraryInstance<T, P, N> {
    address: Address,
    provider: P,
    _network_transport: core::marker::PhantomData<(N, T)>,
}

/// Creates a new wrapper around an on-chain contract instance.
pub fn new<T, P, N>(address: Address, provider: P) -> (instance: ProtocolFeeLibraryInstance<
    T,
    P,
    N,
>)
    ensures
        instance.held_address() == address,
        instance.held_provider() == provider,
{
    ProtocolFeeLibraryInstance::<T, P, N>::new(address, provider)
}

impl<T, P, N> ProtocolFeeLibraryInstance<T, P, N> {
    /// The address the handle points at.
    pub closed spec fn held_address(&self) -> Address {
        self.address
    }

    /// The provider the handle reaches the contract through.
    pub closed spec fn held_provider(&self) -> P {
        self.provider
    }

    /// Creates a new wrapper around an on-chain contract instance.
    pub fn new(address: Address, provider: P) -> (instance: Self)
        ensures
            instance.held_address() == address,
            instance.held_provider() == provider,
    {
        Self { address, provider, _network_transport: core::marker::PhantomData }
    }

    /// Returns a reference to the address.
    pub fn address(&self) -> (address: &Address)
        ensures
            *address == self.held_address(),
    {
        &self.address
    }

    /// Sets the address.
    pub fn set_address(&mut self, address: Address)
        ensures
            final(self).held_address() == address,
            final(self).held_provider() == old(self).held_provider(),
    {
        self.address = address;
    }

    /// Sets the address and returns `self`.
    pub fn at(self, address: Address) -> (instance: Self)
        ensures
            instance.held_address() == address,
            instance.held_provider() == self.held_provider(),
    {
        let mut instance = self;
        instance.set_address(address);
        instance
    }

    /// Returns a reference to the provider.
    pub fn provider(&self) -> (provider: &P)
        ensures
            *provider == self.held_provider(),
    {
        &self.provider
    }
}

impl<T, P: Clone, N> ProtocolFeeLibraryInstance<T, &P, N> {
    /// Clones the provider and returns a new instance with the cloned provider.
    pub fn with_cloned_provider(self) -> (instance: ProtocolFeeLibraryInstance<T, P, N>)
        ensures
            instance.held_address() == self.held_address(),
            cloned(*self.held_provider(), instance.held_provider()),
    {
        ProtocolFeeLibraryInstance {
            address: self.address,
            provider: self.provider.clone(),
            _network_transport: core::marker::PhantomData,
        }
    }
}

} // verus!
