//! The encoding of captured processor state.
//!
//! State is encoded by `bincode` with its standard configuration. What the encoding
//! looks like is that crate's affair; here it has a name, and what is relied on is
//! that decoding gives back what was encoded.

use crate::text::digits;
use crate::views::result_view;
use bincode::error::{DecodeError, EncodeError};
use vstd::prelude::*;

verus! {

/// `bincode::error::EncodeError`, why a value could not be encoded.
#[verifier::external_type_specification]
#[verifier::external_body]
pub struct ExEncodeError(EncodeError);

/// `bincode::error::DecodeError`, why bytes could not be decoded.
#[verifier::external_type_specification]
#[verifier::external_body]
pub struct ExDecodeError(DecodeError);

/// How much a decoded state may occupy, in bytes.
pub const STATE_LIMIT: usize = 67108864;

/// State of the virtual machine, as a value.
#[verifier::ext_equal]
pub struct VmView {
    /// Processor features of the partition, property by property.
    pub features: Seq<Seq<u8>>,
    /// Frequency of the time stamp counter.
    pub tsc_frequency: u64,
    /// What each processor does, by number.
    pub startup: Seq<u32>,
}

/// State of a processor, as a value.
#[verifier::ext_equal]
pub struct CpuView {
    /// Registers by name, with their bytes.
    pub registers: Seq<(i32, Seq<u8>)>,
    /// Extended state.
    pub xsave: Seq<u8>,
    /// State of the interrupt controller.
    pub apic: Seq<u8>,
    /// State of the synthetic interrupt controller, in three parts.
    pub synic: Seq<Seq<u8>>,
}

/// State of the virtual machine.
#[derive(Debug)]
pub struct VmState {
    /// Processor features of the partition, property by property.
    pub features: Vec<Vec<u8>>,
    /// Frequency of the time stamp counter.
    pub tsc_frequency: u64,
    /// What each processor does, by number.
    pub startup: Vec<u32>,
}

/// State of a processor.
#[derive(Debug)]
pub struct CpuState {
    /// Registers by name, with their bytes.
    pub registers: Vec<(i32, [u8; 16])>,
    /// Extended state.
    pub xsave: Vec<u8>,
    /// State of the interrupt controller.
    pub apic: Vec<u8>,
    /// State of the synthetic interrupt controller, in three parts.
    pub synic: [Vec<u8>; 3],
}

/// Byte strings, as values.
pub open spec fn strings_of(strings: Seq<Vec<u8>>) -> Seq<Seq<u8>> {
    strings.map_values(|bytes: Vec<u8>| bytes@)
}

/// Registers, as values.
pub open spec fn registers_of(registers: Seq<(i32, [u8; 16])>) -> Seq<(i32, Seq<u8>)> {
    registers.map_values(|register: (i32, [u8; 16])| (register.0, register.1@))
}

impl View for VmState {
    type V = VmView;

    open spec fn view(&self) -> VmView {
        VmView {
            features: strings_of(self.features@),
            tsc_frequency: self.tsc_frequency,
            startup: self.startup@,
        }
    }
}

impl View for CpuState {
    type V = CpuView;

    open spec fn view(&self) -> CpuView {
        CpuView {
            registers: registers_of(self.registers@),
            xsave: self.xsave@,
            apic: self.apic@,
            synic: strings_of(self.synic@),
        }
    }
}

/// Total length of byte strings.
pub open spec fn total_len(strings: Seq<Seq<u8>>) -> nat
    decreases strings.len(),
{
    if strings.len() == 0 {
        0
    } else {
        total_len(strings.drop_last()) + strings.last().len()
    }
}

/// What the state occupies when it is decoded: eight bytes for the number of items
/// of a sequence and for the frequency, four for a number, and the bytes themselves.
pub open spec fn vm_size(s: VmView) -> nat {
    24 + 8 * s.features.len() + total_len(s.features) + 4 * s.startup.len()
}

/// What the state occupies when it is decoded: eight bytes for the number of items
/// of a sequence, twenty for a register, and the bytes themselves.
pub open spec fn cpu_size(s: CpuView) -> nat {
    24 + 20 * s.registers.len() + s.xsave.len() + s.apic.len() + 8 * s.synic.len() + total_len(
        s.synic,
    )
}

/// The encoding of the parts of a virtual machine's state.
pub uninterp spec fn vm_encoding(
    features: Seq<Seq<u8>>,
    tsc_frequency: u64,
    startup: Seq<u32>,
) -> Seq<u8>;

/// What decoding gives for a virtual machine's state: its parts, and how many bytes
/// they took.
pub uninterp spec fn vm_decoding(bytes: Seq<u8>) -> Option<
    (Seq<Seq<u8>>, u64, Seq<u32>, nat),
>;

/// The encoding of the parts of a processor's state.
pub uninterp spec fn cpu_encoding(
    registers: Seq<(i32, Seq<u8>)>,
    xsave: Seq<u8>,
    apic: Seq<u8>,
    synic: Seq<Seq<u8>>,
) -> Seq<u8>;

/// What decoding gives for a processor's state: its parts, and how many bytes they
/// took.
pub uninterp spec fn cpu_decoding(bytes: Seq<u8>) -> Option<
    (Seq<(i32, Seq<u8>)>, Seq<u8>, Seq<u8>, Seq<Seq<u8>>, nat),
>;

/// The encoding of a virtual machine's state.
pub open spec fn vm_bytes(s: VmView) -> Seq<u8> {
    vm_encoding(s.features, s.tsc_frequency, s.startup)
}

/// The encoding of a processor's state.
pub open spec fn cpu_bytes(s: CpuView) -> Seq<u8> {
    cpu_encoding(s.registers, s.xsave, s.apic, s.synic)
}

/// Calls `bincode::serde::encode_to_vec` with the standard configuration, which gives
/// the encoding of the parts. It does not fail for vectors of numbers.
#[verifier::external_body]
fn encode_vm_parts(features: &Vec<Vec<u8>>, tsc_frequency: u64, startup: &Vec<u32>) -> (bytes:
    Result<Vec<u8>, EncodeError>)
    ensures
        bytes is Ok,
        bytes->Ok_0@ == vm_encoding(strings_of(features@), tsc_frequency, startup@),
{
    bincode::serde::encode_to_vec(
        (features, tsc_frequency, startup),
        bincode::config::standard(),
    )
}

/// Calls `bincode::serde::encode_to_vec` with the standard configuration, which gives
/// the encoding of the parts. It does not fail for vectors of numbers.
#[verifier::external_body]
fn encode_cpu_parts(
    registers: &Vec<(i32, [u8; 16])>,
    xsave: &Vec<u8>,
    apic: &Vec<u8>,
    synic: &[Vec<u8>; 3],
) -> (bytes: Result<Vec<u8>, EncodeError>)
    ensures
        bytes is Ok,
        bytes->Ok_0@ == cpu_encoding(
            registers_of(registers@),
            xsave@,
            apic@,
            strings_of(synic@),
        ),
{
    bincode::serde::encode_to_vec(
        (registers, xsave, apic, synic),
        bincode::config::standard(),
    )
}

/// The outcome of decoding a virtual machine's state, as a value.
pub open spec fn vm_outcome(
    decoded: Result<((Vec<Vec<u8>>, u64, Vec<u32>), usize), DecodeError>,
) -> Option<(Seq<Seq<u8>>, u64, Seq<u32>, nat)> {
    match decoded {
        Ok(((features, tsc_frequency, startup), used)) => Some(
            (strings_of(features@), tsc_frequency, startup@, used as nat),
        ),
        Err(_) => None,
    }
}

/// The outcome of decoding a processor's state, as a value.
pub open spec fn cpu_outcome(
    decoded: Result<
        ((Vec<(i32, [u8; 16])>, Vec<u8>, Vec<u8>, [Vec<u8>; 3]), usize),
        DecodeError,
    >,
) -> Option<(Seq<(i32, Seq<u8>)>, Seq<u8>, Seq<u8>, Seq<Seq<u8>>, nat)> {
    match decoded {
        Ok(((registers, xsave, apic, synic), used)) => Some(
            (registers_of(registers@), xsave@, apic@, strings_of(synic@), used as nat),
        ),
        Err(_) => None,
    }
}

/// Whether the parts of a processor's state have the lengths that they always have.
pub open spec fn cpu_shape(s: CpuView) -> bool {
    &&& s.synic.len() == 3
    &&& forall|i: int| 0 <= i < s.registers.len() ==> (#[trigger] s.registers[i]).1.len() == 16
}

/// Calls `bincode::serde::decode_from_slice` with the standard configuration and
/// [`STATE_LIMIT`]. The outcome depends on the bytes alone. Bytes that start with an
/// encoding give back what was encoded, unless that is beyond the limit, and the
/// length of the encoding.
#[verifier::external_body]
fn decode_vm_parts(bytes: &[u8]) -> (decoded: Result<
    ((Vec<Vec<u8>>, u64, Vec<u32>), usize),
    DecodeError,
>)
    ensures
        vm_outcome(decoded) == vm_decoding(bytes@),
        vm_outcome(decoded) matches Some(parts) ==> parts.3 <= bytes@.len(),
        forall|s: VmView, tail: Seq<u8>|
            bytes@ == #[trigger] (vm_bytes(s) + tail) && vm_size(s) <= STATE_LIMIT ==> vm_outcome(
                decoded,
            ) == Some((s.features, s.tsc_frequency, s.startup, vm_bytes(s).len())),
{
    bincode::serde::decode_from_slice(
        bytes,
        bincode::config::standard().with_limit::<STATE_LIMIT>(),
    )
}

/// Calls `bincode::serde::decode_from_slice` with the standard configuration and
/// [`STATE_LIMIT`]. The outcome depends on the bytes alone. Bytes that start with an
/// encoding give back what was encoded, unless that is beyond the limit, and the
/// length of the encoding.
#[verifier::external_body]
fn decode_cpu_parts(bytes: &[u8]) -> (decoded: Result<
    ((Vec<(i32, [u8; 16])>, Vec<u8>, Vec<u8>, [Vec<u8>; 3]), usize),
    DecodeError,
>)
    ensures
        cpu_outcome(decoded) == cpu_decoding(bytes@),
        cpu_outcome(decoded) matches Some(parts) ==> parts.4 <= bytes@.len(),
        forall|s: CpuView, tail: Seq<u8>|
            bytes@ == #[trigger] (cpu_bytes(s) + tail) && cpu_shape(s) && cpu_size(s) <= STATE_LIMIT
                ==> cpu_outcome(decoded) == Some(
                (s.registers, s.xsave, s.apic, s.synic, cpu_bytes(s).len()),
            ),
{
    bincode::serde::decode_from_slice(
        bytes,
        bincode::config::standard().with_limit::<STATE_LIMIT>(),
    )
}

/// Calls `to_string` on an `EncodeError`. Nothing is said of the wording.
#[verifier::external_body]
fn encode_error_text(error: &EncodeError) -> (text: String) {
    error.to_string()
}

/// Calls `to_string` on a `DecodeError`. Nothing is said of the wording.
#[verifier::external_body]
fn decode_error_text(error: &DecodeError) -> (text: String) {
    error.to_string()
}

/// Why state cannot be encoded or decoded.
#[derive(Debug)]
pub enum CodecError {
    /// The encoding is faulty, for the reason given in words.
    Faulty(String),
    /// The encoding ends before the bytes do.
    TrailingBytes,
}

/// Whether every processor does something that has a number below `states`.
pub open spec fn startup_known(startup: Seq<u32>, states: u32) -> bool {
    forall|i: int| 0 <= i < startup.len() ==> #[trigger] startup[i] < states
}

/// What is said of a processor that does what has the unknown number `number`, with
/// `states` things that a processor can do.
pub open spec fn unknown_text(number: u32, states: u32) -> Seq<char> {
    "OtherString(\"invalid value: integer `"@ + digits(number as nat, 10)
        + "`, expected variant index 0 <= i < "@ + digits(states as nat, 10) + "\")"@
}

/// Whether `text` is said of the first processor that does what has an unknown number.
pub open spec fn tells_unknown(text: Seq<char>, startup: Seq<u32>, states: u32) -> bool {
    exists|i: int|
        {
            &&& 0 <= i < startup.len()
            &&& #[trigger] startup[i] >= states
            &&& startup_known(startup.take(i), states)
            &&& text == unknown_text(startup[i], states)
        }
}

/// Whether `result` refuses what the processors do, because one does what has an unknown
/// number.
pub open spec fn refused_unknown(
    result: Result<VmView, CodecError>,
    startup: Seq<u32>,
    states: u32,
) -> bool {
    result matches Err(CodecError::Faulty(text)) && tells_unknown(text@, startup, states)
}

/// Calls `to_string` on the `DecodeError` that `serde::de::Error::invalid_value` gives for
/// the number `number` of a variant, where there are `states` variants and their numbers
/// are named in the words of serde's derived code. The text holds both numbers.
#[verifier::external_body]
fn invalid_value_text(number: u32, states: u32) -> (text: String)
    ensures
        text@ == unknown_text(number, states),
{
    let expected = format!("variant index 0 <= i < {}", states);
    let found = serde::de::Unexpected::Unsigned(number as u64);
    let error: DecodeError = serde::de::Error::invalid_value(found, &expected.as_str());
    error.to_string()
}

/// Whether `result` is what the bytes come to as a virtual machine's state, with `states`
/// things that a processor can do: the bytes must be an encoding and nothing else.
pub open spec fn decodes_vm(
    bytes: Seq<u8>,
    states: u32,
    result: Result<VmView, CodecError>,
) -> bool {
    match vm_decoding(bytes) {
        None => result matches Err(CodecError::Faulty(_)),
        Some((features, tsc_frequency, startup, used)) => if !startup_known(startup, states) {
            refused_unknown(result, startup, states)
        } else if used != bytes.len() {
            result == Err::<VmView, _>(CodecError::TrailingBytes)
        } else {
            result == Ok::<_, CodecError>(VmView { features, tsc_frequency, startup })
        },
    }
}

/// Whether `result` is what the bytes come to as a processor's state: they must be an
/// encoding and nothing else.
pub open spec fn decodes_cpu(bytes: Seq<u8>, result: Result<CpuView, CodecError>) -> bool {
    match cpu_decoding(bytes) {
        None => result matches Err(CodecError::Faulty(_)),
        Some((registers, xsave, apic, synic, used)) => if used != bytes.len() {
            result == Err::<CpuView, _>(CodecError::TrailingBytes)
        } else {
            result == Ok::<_, CodecError>(CpuView { registers, xsave, apic, synic })
        },
    }
}

/// What is said of the first processor that does what has a number not below `states`,
/// if there is one.
fn unknown_startup(startup: &Vec<u32>, states: u32) -> (text: Option<String>)
    ensures
        match text {
            Some(text) => !startup_known(startup@, states) && tells_unknown(
                text@,
                startup@,
                states,
            ),
            None => startup_known(startup@, states),
        },
{
    for n in 0..startup.len()
        invariant
            forall|i: int| 0 <= i < n ==> #[trigger] startup@[i] < states,
    {
        if startup[n] >= states {
            assert(startup_known(startup@.take(n as int), states));
            return Some(invalid_value_text(startup[n], states));
        }
    }
    None
}

/// Encodes a virtual machine's state.
pub fn encode_vm(state: &VmState) -> (bytes: Result<Vec<u8>, CodecError>)
    ensures
        bytes is Ok,
        bytes->Ok_0@ == vm_bytes(state@),
{
    match encode_vm_parts(&state.features, state.tsc_frequency, &state.startup) {
        Ok(bytes) => Ok(bytes),
        Err(error) => Err(CodecError::Faulty(encode_error_text(&error))),
    }
}

/// Encodes a processor's state.
pub fn encode_cpu(state: &CpuState) -> (bytes: Result<Vec<u8>, CodecError>)
    ensures
        bytes is Ok,
        bytes->Ok_0@ == cpu_bytes(state@),
{
    match encode_cpu_parts(&state.registers, &state.xsave, &state.apic, &state.synic) {
        Ok(bytes) => Ok(bytes),
        Err(error) => Err(CodecError::Faulty(encode_error_text(&error))),
    }
}

/// Decodes a virtual machine's state. The bytes must be an encoding and nothing else, and
/// what each processor does one of `states` things, by number.
pub fn decode_vm(bytes: &[u8], states: u32) -> (state: Result<VmState, CodecError>)
    ensures
        decodes_vm(bytes@, states, result_view(state)),
        forall|s: VmView|
            bytes@ == #[trigger] vm_bytes(s) && vm_size(s) <= STATE_LIMIT && startup_known(
                s.startup,
                states,
            ) ==> result_view(state) == Ok::<_, CodecError>(s),
        forall|s: VmView, tail: Seq<u8>|
            bytes@ == #[trigger] (vm_bytes(s) + tail) && tail.len() > 0 && vm_size(s)
                <= STATE_LIMIT && startup_known(s.startup, states) ==> result_view(state) == Err::<
                VmView,
                _,
            >(CodecError::TrailingBytes),
        forall|s: VmView, tail: Seq<u8>|
            bytes@ == #[trigger] (vm_bytes(s) + tail) && vm_size(s) <= STATE_LIMIT
                && !startup_known(s.startup, states) ==> refused_unknown(
                result_view(state),
                s.startup,
                states,
            ),
{
    let decoded = decode_vm_parts(bytes);
    assert forall|s: VmView|
        bytes@ == #[trigger] vm_bytes(s) && vm_size(s) <= STATE_LIMIT implies vm_decoding(bytes@)
        == Some((s.features, s.tsc_frequency, s.startup, bytes@.len())) by {
        assert(bytes@ =~= vm_bytes(s) + Seq::empty());
    }
    match decoded {
        Ok((parts, used)) => match unknown_startup(&parts.2, states) {
            Some(text) => Err(CodecError::Faulty(text)),
            None => if used == bytes.len() {
                Ok(VmState { features: parts.0, tsc_frequency: parts.1, startup: parts.2 })
            } else {
                Err(CodecError::TrailingBytes)
            },
        },
        Err(error) => Err(CodecError::Faulty(decode_error_text(&error))),
    }
}

/// Decodes a processor's state. The bytes must be an encoding and nothing else.
pub fn decode_cpu(bytes: &[u8]) -> (state: Result<CpuState, CodecError>)
    ensures
        decodes_cpu(bytes@, result_view(state)),
        forall|s: CpuView|
            bytes@ == #[trigger] cpu_bytes(s) && cpu_shape(s) && cpu_size(s) <= STATE_LIMIT
                ==> result_view(state) == Ok::<_, CodecError>(s),
        forall|s: CpuView, tail: Seq<u8>|
            bytes@ == #[trigger] (cpu_bytes(s) + tail) && tail.len() > 0 && cpu_shape(s)
                && cpu_size(s) <= STATE_LIMIT ==> result_view(state) == Err::<CpuView, _>(
                CodecError::TrailingBytes,
            ),
{
    let decoded = decode_cpu_parts(bytes);
    assert forall|s: CpuView|
        bytes@ == #[trigger] cpu_bytes(s) && cpu_shape(s) && cpu_size(s)
            <= STATE_LIMIT implies cpu_decoding(bytes@) == Some(
        (s.registers, s.xsave, s.apic, s.synic, bytes@.len()),
    ) by {
        assert(bytes@ =~= cpu_bytes(s) + Seq::empty());
    }
    match decoded {
        Ok((parts, used)) => if used == bytes.len() {
            let (registers, xsave, apic, synic) = parts;
            Ok(CpuState { registers, xsave, apic, synic })
        } else {
            Err(CodecError::TrailingBytes)
        },
        Err(error) => Err(CodecError::Faulty(decode_error_text(&error))),
    }
}

/// State as a value has each part of the state in its place, byte string by byte string and
/// register by register, and is encoded part by part.
pub proof fn states_are_kept_as_values(vm: VmState, cpu: CpuState, v: VmView, c: CpuView, i: int)
    ensures
        vm@.features.len() == vm.features@.len(),
        0 <= i < vm.features@.len() ==> vm@.features[i] == vm.features@[i]@,
        vm@.tsc_frequency == vm.tsc_frequency,
        vm@.startup == vm.startup@,
        cpu@.registers.len() == cpu.registers@.len(),
        0 <= i < cpu.registers@.len() ==> cpu@.registers[i].0 == cpu.registers@[i].0
            && cpu@.registers[i].1 == cpu.registers@[i].1@,
        cpu@.xsave == cpu.xsave@,
        cpu@.apic == cpu.apic@,
        cpu@.synic.len() == 3,
        0 <= i < 3 ==> cpu@.synic[i] == cpu.synic@[i]@,
        vm_bytes(v) == vm_encoding(v.features, v.tsc_frequency, v.startup),
        cpu_bytes(c) == cpu_encoding(c.registers, c.xsave, c.apic, c.synic),
        STATE_LIMIT == 67108864,
{
}

/// Encoding gives the encoding of the state, and never fails.
pub proof fn states_are_encoded(vm: &VmState, cpu: &CpuState)
    ensures
        forall|bytes: Result<Vec<u8>, CodecError>| #[trigger]
            call_ensures(encode_vm, (vm,), bytes) ==> bytes is Ok && bytes->Ok_0@ == vm_encoding(
                strings_of(vm.features@),
                vm.tsc_frequency,
                vm.startup@,
            ),
        forall|bytes: Result<Vec<u8>, CodecError>| #[trigger]
            call_ensures(encode_cpu, (cpu,), bytes) ==> bytes is Ok && bytes->Ok_0@ == cpu_encoding(
                registers_of(cpu.registers@),
                cpu.xsave@,
                cpu.apic@,
                strings_of(cpu.synic@),
            ),
{
}

/// A machine's state that was encoded is decoded as it was, as long as it is not too large
/// and every processor does something known. Bytes behind it are refused, and a processor
/// that does something unknown is told by its number.
pub proof fn decoded_machines_are_those_encoded(bytes: &[u8], states: u32, s: VmView, tail: Seq<u8>)
    requires
        bytes@ == vm_encoding(s.features, s.tsc_frequency, s.startup) + tail,
        vm_size(s) <= 67108864,
    ensures
        forall|state: Result<VmState, CodecError>| #[trigger]
            call_ensures(decode_vm, (bytes, states), state) ==> {
                let known = forall|i: int|
                    0 <= i < s.startup.len() ==> #[trigger] s.startup[i] < states;
                &&& known && tail.len() == 0 ==> {
                    &&& state is Ok
                    &&& strings_of(state->Ok_0.features@) == s.features
                    &&& state->Ok_0.tsc_frequency == s.tsc_frequency
                    &&& state->Ok_0.startup@ == s.startup
                }
                &&& known && tail.len() > 0 ==> state is Err && state->Err_0 is TrailingBytes
                &&& !known ==> {
                    &&& state is Err
                    &&& state->Err_0 is Faulty
                    &&& exists|i: int|
                        {
                            &&& 0 <= i < s.startup.len()
                            &&& #[trigger] s.startup[i] >= states
                            &&& forall|j: int| 0 <= j < i ==> #[trigger] s.startup[j] < states
                            &&& state->Err_0->Faulty_0@
                                == "OtherString(\"invalid value: integer `"@ + digits(
                                s.startup[i] as nat,
                                10,
                            ) + "`, expected variant index 0 <= i < "@ + digits(states as nat, 10)
                                + "\")"@
                        }
                }
            },
{
    assert forall|state: Result<VmState, CodecError>| #[trigger]
        call_ensures(decode_vm, (bytes, states), state) implies {
        let known = startup_known(s.startup, states);
        &&& known && tail.len() == 0 ==> result_view(state) == Ok::<_, CodecError>(s)
        &&& known && tail.len() > 0 ==> result_view(state) == Err::<VmView, _>(
            CodecError::TrailingBytes,
        )
        &&& !known ==> refused_unknown(result_view(state), s.startup, states)
    } by {
        assert(bytes@ == vm_bytes(s) + tail);
        if tail.len() == 0 {
            assert(bytes@ =~= vm_bytes(s));
        }
    }
    assert forall|i: int|
        0 <= i < s.startup.len() && startup_known(s.startup.take(i), states) implies forall|j: int|
        0 <= j < i ==> #[trigger] s.startup[j] < states by {
        assert forall|j: int| 0 <= j < i implies #[trigger] s.startup[j] < states by {
            assert(s.startup.take(i)[j] == s.startup[j]);
        }
    }
    assert forall|state: Result<VmState, CodecError>| #[trigger]
        call_ensures(decode_vm, (bytes, states), state) && !startup_known(
            s.startup,
            states,
        ) implies exists|i: int|
        {
            &&& 0 <= i < s.startup.len()
            &&& #[trigger] s.startup[i] >= states
            &&& forall|j: int| 0 <= j < i ==> #[trigger] s.startup[j] < states
            &&& state->Err_0->Faulty_0@ == "OtherString(\"invalid value: integer `"@ + digits(
                s.startup[i] as nat,
                10,
            ) + "`, expected variant index 0 <= i < "@ + digits(states as nat, 10) + "\")"@
        } by {
        assert(refused_unknown(result_view(state), s.startup, states));
        let text = state->Err_0->Faulty_0@;
        assert(tells_unknown(text, s.startup, states));
        let i = choose|i: int|
            {
                &&& 0 <= i < s.startup.len()
                &&& #[trigger] s.startup[i] >= states
                &&& startup_known(s.startup.take(i), states)
                &&& text == unknown_text(s.startup[i], states)
            };
        assert(s.startup[i] >= states);
    }
}

/// A processor's state that was encoded is decoded as it was, as long as it is not too
/// large. Bytes behind it are refused.
pub proof fn decoded_processors_are_those_encoded(bytes: &[u8], s: CpuView, tail: Seq<u8>)
    requires
        bytes@ == cpu_encoding(s.registers, s.xsave, s.apic, s.synic) + tail,
        s.synic.len() == 3,
        forall|i: int| 0 <= i < s.registers.len() ==> (#[trigger] s.registers[i]).1.len() == 16,
        cpu_size(s) <= 67108864,
    ensures
        forall|state: Result<CpuState, CodecError>| #[trigger]
            call_ensures(decode_cpu, (bytes,), state) ==> {
                &&& tail.len() == 0 ==> {
                    &&& state is Ok
                    &&& registers_of(state->Ok_0.registers@) == s.registers
                    &&& state->Ok_0.xsave@ == s.xsave
                    &&& state->Ok_0.apic@ == s.apic
                    &&& strings_of(state->Ok_0.synic@) == s.synic
                }
                &&& tail.len() > 0 ==> state is Err && state->Err_0 is TrailingBytes
            },
{
    assert forall|state: Result<CpuState, CodecError>| #[trigger]
        call_ensures(decode_cpu, (bytes,), state) implies {
        &&& tail.len() == 0 ==> result_view(state) == Ok::<_, CodecError>(s)
        &&& tail.len() > 0 ==> result_view(state) == Err::<CpuView, _>(CodecError::TrailingBytes)
    } by {
        assert(bytes@ == cpu_bytes(s) + tail);
        if tail.len() == 0 {
            assert(bytes@ =~= cpu_bytes(s));
        }
    }
}

/// Byte strings together are as long as all of them. State occupies the bytes that it holds,
/// eight more for each sequence and for the frequency, four for each processor, and twenty
/// for each register.
pub proof fn states_occupy_what_they_hold(
    strings: Seq<Seq<u8>>,
    more: Seq<u8>,
    vm: VmView,
    cpu: CpuView,
)
    ensures
        total_len(Seq::<Seq<u8>>::empty()) == 0,
        total_len(strings.push(more)) == total_len(strings) + more.len(),
        vm_size(vm) == 8 + 8 + 8 + 8 * vm.features.len() + total_len(vm.features) + 4
            * vm.startup.len(),
        cpu_size(cpu) == 8 + 8 + 8 + 20 * cpu.registers.len() + cpu.xsave.len() + cpu.apic.len() + 8
            * cpu.synic.len() + total_len(cpu.synic),
{
    assert(strings.push(more).drop_last() =~= strings);
}

/// Bytes that do not decode are refused as faulty. Those that do are the parts that were
/// decoded, if these take up all the bytes.
pub proof fn other_bytes_are_refused(bytes: &[u8], states: u32)
    ensures
        forall|state: Result<VmState, CodecError>| #[trigger]
            call_ensures(decode_vm, (bytes, states), state) ==> match vm_decoding(bytes@) {
                None => state is Err && state->Err_0 is Faulty,
                Some((features, tsc_frequency, startup, used)) => {
                    let known = forall|i: int|
                        0 <= i < startup.len() ==> #[trigger] startup[i] < states;
                    &&& state is Ok <==> known && used == bytes@.len()
                    &&& state is Ok ==> strings_of(state->Ok_0.features@) == features
                        && state->Ok_0.tsc_frequency == tsc_frequency && state->Ok_0.startup@
                        == startup
                    &&& !known ==> state->Err_0 is Faulty
                    &&& known && used != bytes@.len() ==> state->Err_0 is TrailingBytes
                },
            },
        forall|state: Result<CpuState, CodecError>| #[trigger]
            call_ensures(decode_cpu, (bytes,), state) ==> match cpu_decoding(bytes@) {
                None => state is Err && state->Err_0 is Faulty,
                Some((registers, xsave, apic, synic, used)) => {
                    &&& state is Ok <==> used == bytes@.len()
                    &&& state is Ok ==> registers_of(state->Ok_0.registers@) == registers
                        && state->Ok_0.xsave@ == xsave && state->Ok_0.apic@ == apic && strings_of(
                        state->Ok_0.synic@,
                    ) == synic
                    &&& state is Err ==> state->Err_0 is TrailingBytes
                },
            },
{
    assert forall|state: Result<VmState, CodecError>| #[trigger]
        call_ensures(decode_vm, (bytes, states), state) implies decodes_vm(
        bytes@,
        states,
        result_view(state),
    ) by {}
    assert forall|state: Result<CpuState, CodecError>| #[trigger]
        call_ensures(decode_cpu, (bytes,), state) implies decodes_cpu(
        bytes@,
        result_view(state),
    ) by {}
}

} // verus!
