//! State of x86-64 processors under a hypervisor that hands it out piece by piece.
//!
//! Asking the hypervisor is the host side's part. Here it is decided what to ask
//! for, what its answers mean, and whether captured state fits the machine that it
//! is to be restored to.

use crate::byte_order::{le64_bytes, u64_to_le};
use crate::state_codec::{
    cpu_bytes, cpu_decoding, cpu_encoding, cpu_shape, cpu_size, decode_cpu, decode_vm, decodes_cpu,
    decodes_vm, encode_cpu, encode_vm, startup_known, strings_of, tells_unknown, total_len,
    unknown_text, vm_bytes, vm_decoding, vm_encoding, vm_size, CodecError, CpuState, CpuView,
    VmState, VmView, STATE_LIMIT,
};
use crate::text::{append_hex, digits};
use crate::views::{option_view, result_view};
use vstd::prelude::*;
use vstd::slice::slice_to_vec;
use vstd::string::StringExecFns;

verus! {

/// Number of registers that every processor has under the names from zero on: the
/// general, segment, control and debug registers.
pub const FIRST_REGISTERS: i32 = 40;

/// Register: time stamp counter.
pub const REGISTER_TSC: i32 = 8192;

/// Register: extended features.
pub const REGISTER_EFER: i32 = 8193;

/// Register: kernel GS base.
pub const REGISTER_KERNEL_GS_BASE: i32 = 8194;

/// Register: interrupt controller base.
pub const REGISTER_APIC_BASE: i32 = 8195;

/// Register: page attributes.
pub const REGISTER_PAT: i32 = 8196;

/// Register: system call code segment.
pub const REGISTER_SYSENTER_CS: i32 = 8197;

/// Register: system call entry.
pub const REGISTER_SYSENTER_EIP: i32 = 8198;

/// Register: system call stack.
pub const REGISTER_SYSENTER_ESP: i32 = 8199;

/// Register: system call segments.
pub const REGISTER_STAR: i32 = 8200;

/// Register: system call entry, long mode.
pub const REGISTER_LSTAR: i32 = 8201;

/// Register: system call entry, compatibility mode.
pub const REGISTER_CSTAR: i32 = 8202;

/// Register: system call flag mask.
pub const REGISTER_SFMASK: i32 = 8203;

/// Register: pending interruption.
pub const REGISTER_PENDING_INTERRUPTION: i32 = -2147483648;

/// Register: interrupt state.
pub const REGISTER_INTERRUPT_STATE: i32 = -2147483647;

/// Register: pending event.
pub const REGISTER_PENDING_EVENT: i32 = -2147483646;

/// Register: deliverability notifications.
pub const REGISTER_DELIVERABILITY_NOTIFICATIONS: i32 = -2147483644;

/// Register: internal activity state.
pub const REGISTER_INTERNAL_ACTIVITY_STATE: i32 = -2147483643;

/// Register: auxiliary time stamp.
pub const REGISTER_TSC_AUX: i32 = 8315;

/// Register: time stamp deadline.
pub const REGISTER_TSC_DEADLINE: i32 = 8341;

/// Register: time stamp adjustment.
pub const REGISTER_TSC_ADJUST: i32 = 8342;

/// Register: bounds configuration.
pub const REGISTER_BNDCFGS: i32 = 8316;

/// Register: speculation control.
pub const REGISTER_SPEC_CTRL: i32 = 8324;

/// Register: transaction control.
pub const REGISTER_TSX_CTRL: i32 = 8328;

/// Register: supervisor extended state mask.
pub const REGISTER_XSS: i32 = 8331;

/// Register: user control flow enforcement.
pub const REGISTER_U_CET: i32 = 8332;

/// Register: supervisor control flow enforcement.
pub const REGISTER_S_CET: i32 = 8333;

/// Register: shadow stack pointer.
pub const REGISTER_SSP: i32 = 8334;

/// Register: shadow stack pointer of ring 0.
pub const REGISTER_PL0_SSP: i32 = 8335;

/// Register: shadow stack pointer of ring 1.
pub const REGISTER_PL1_SSP: i32 = 8336;

/// Register: shadow stack pointer of ring 2.
pub const REGISTER_PL2_SSP: i32 = 8337;

/// Register: shadow stack pointer of ring 3.
pub const REGISTER_PL3_SSP: i32 = 8338;

/// Register: interrupt shadow stack table.
pub const REGISTER_INTERRUPT_SSP_TABLE_ADDR: i32 = 8339;

/// Register: user wait control.
pub const REGISTER_UMWAIT_CONTROL: i32 = 8344;

/// Register: extended feature disable.
pub const REGISTER_XFD: i32 = 8345;

/// Register: extended feature disable error.
pub const REGISTER_XFD_ERR: i32 = 8346;

/// Register: pending debug exception.
pub const REGISTER_PENDING_DEBUG_EXCEPTION: i32 = -2147483642;

/// Register: default memory type.
pub const REGISTER_MSR_MTRR_DEF_TYPE: i32 = 8206;

/// Register: guest system identity.
pub const REGISTER_GUEST_OS_ID: i32 = 20482;

/// Register: hypercall page.
pub const REGISTER_HYPERCALL: i32 = 20481;

/// Register: assist page.
pub const REGISTER_VP_ASSIST_PAGE: i32 = 20499;

/// Register: reference time page.
pub const REGISTER_REFERENCE_TSC: i32 = 20503;

/// Register: reference time sequence.
pub const REGISTER_REFERENCE_TSC_SEQUENCE: i32 = 20506;

/// Register: synthetic interrupt control.
pub const REGISTER_SCONTROL: i32 = 16400;

/// Register: synthetic event flag page.
pub const REGISTER_SIEFP: i32 = 16402;

/// Register: synthetic message page.
pub const REGISTER_SIMP: i32 = 16403;

/// Register: first of sixteen memory range bases.
pub const REGISTER_MTRR_PHYS_BASE_0: i32 = 8208;

/// Register: first of sixteen memory range masks.
pub const REGISTER_MTRR_PHYS_MASK_0: i32 = 8256;

/// Register: first of eleven fixed memory ranges.
pub const REGISTER_MTRR_FIX_64K_00000: i32 = 8304;

/// Register: first of sixteen synthetic interrupt sources.
pub const REGISTER_SINT_0: i32 = 16384;

/// Partition property: processor features.
pub const PROPERTY_PROCESSOR_FEATURES_BANKS: i32 = 4106;

/// Partition property: extended state features.
pub const PROPERTY_PROCESSOR_XSAVE_FEATURES: i32 = 4102;

/// Partition property: interrupt controller mode.
pub const PROPERTY_LOCAL_APIC_EMULATION_MODE: i32 = 4101;

/// Partition property: interrupt clock frequency.
pub const PROPERTY_INTERRUPT_CLOCK_FREQUENCY: i32 = 4104;

/// Processor state: extended state.
pub const STATE_XSAVE: i32 = 4097;

/// Processor state: interrupt controller, second form.
pub const STATE_INTERRUPT_CONTROLLER_2: i32 = 4096;

/// Processor state: synthetic message page.
pub const STATE_SYNIC_MESSAGE_PAGE: i32 = 0;

/// Processor state: synthetic event flag page.
pub const STATE_SYNIC_EVENT_FLAG_PAGE: i32 = 1;

/// Processor state: synthetic timers.
pub const STATE_SYNIC_TIMERS: i32 = 2;

/// What a processor can do, by number.
#[derive(Clone, Copy, Debug, PartialEq, Eq, Structural)]
pub struct StartupStates {
    /// How many things there are. They are numbered from zero on.
    pub count: u32,
    /// Number of what a processor does that runs.
    pub running: u32,
}

/// Size in bytes of the buffer for a partition property.
pub const PROPERTY_BUFFER_SIZE: u32 = 256;

/// Why state cannot be captured or restored.
#[derive(Debug)]
pub enum StateError {
    /// What a processor does is not known for sure.
    StartupPoisoned,
    /// There is no processor with so high a number.
    CpuIndex(u32),
    /// The encoding is faulty, for the reason given in words.
    Codec(String),
    /// The encoding ends before the bytes do.
    TrailingBytes,
    /// A partition property could not be had.
    Feature { code: i32, status: i32 },
    /// The clock frequency is not known.
    NoFrequency,
    /// The machine is not like the one whose state was captured.
    MachineDiffers,
    /// The processor has not the registers that were captured.
    RegistersDiffer,
    /// The hypervisor failed to give a register.
    Registers { hresult: i32 },
    /// The hypervisor failed otherwise.
    Backend,
}

/// The error in words, where it has any of its own.
pub open spec fn state_message(error: StateError) -> Option<Seq<char>> {
    match error {
        StateError::StartupPoisoned => Some("startup state mutex poisoned"@),
        StateError::CpuIndex(_) => Some("out of range integral type conversion attempted"@),
        StateError::Codec(text) => Some(text@),
        StateError::TrailingBytes => Some("trailing WHP x86 state bytes"@),
        StateError::Feature { code, status } => Some(
            "partition feature "@ + "0x"@ + digits(code as u32 as nat, 16) + ": HRESULT "@ + "0x"@
                + digits(status as u32 as nat, 16),
        ),
        StateError::NoFrequency => Some("WHP processor clock frequency unavailable"@),
        StateError::MachineDiffers => Some(
            "WHP x86 processor features, frequency or topology differ"@,
        ),
        StateError::RegistersDiffer => Some("WHP x86 register contract differs"@),
        StateError::Registers { hresult } => None,
        StateError::Backend => None,
    }
}

impl StateError {
    /// The error in words. Failures of the hypervisor have words of the host side's.
    pub fn message(&self) -> (text: Option<String>)
        ensures
            option_view(text) == state_message(*self),
    {
        match self {
            StateError::StartupPoisoned => Some(String::from_str("startup state mutex poisoned")),
            StateError::CpuIndex(_) => Some(
                String::from_str("out of range integral type conversion attempted"),
            ),
            StateError::Codec(text) => Some(String::from_str(text.as_str())),
            StateError::TrailingBytes => Some(String::from_str("trailing WHP x86 state bytes")),
            StateError::Feature { code, status } => {
                let mut text = String::from_str("partition feature ");
                append_hex(&mut text, *code as u32 as u64);
                text.append(": HRESULT ");
                append_hex(&mut text, *status as u32 as u64);
                Some(text)
            },
            StateError::NoFrequency => Some(
                String::from_str("WHP processor clock frequency unavailable"),
            ),
            StateError::MachineDiffers => Some(
                String::from_str("WHP x86 processor features, frequency or topology differ"),
            ),
            StateError::RegistersDiffer => Some(
                String::from_str("WHP x86 register contract differs"),
            ),
            StateError::Registers { .. } => None,
            StateError::Backend => None,
        }
    }
}

/// The `n` names from `first` on.
pub open spec fn run_of(first: i32, n: nat) -> Seq<i32> {
    Seq::new(n, |i: int| (first + i) as i32)
}

/// Appends the `n` names from `first` on.
fn append_run(names: &mut Vec<i32>, first: i32, n: i32)
    requires
        0 <= n,
        first + n <= i32::MAX,
    ensures
        final(names)@ == old(names)@ + run_of(first, n as nat),
{
    let ghost before = names@;
    for i in 0..n
        invariant
            first + n <= i32::MAX,
            names@ =~= before + run_of(first, i as nat),
    {
        names.push(first + i);
    }
}

/// The registers that every processor has.
pub open spec fn mandatory_names() -> Seq<i32> {
    run_of(0, FIRST_REGISTERS as nat) + seq![
        REGISTER_TSC,
        REGISTER_EFER,
        REGISTER_KERNEL_GS_BASE,
        REGISTER_APIC_BASE,
        REGISTER_PAT,
        REGISTER_SYSENTER_CS,
        REGISTER_SYSENTER_EIP,
        REGISTER_SYSENTER_ESP,
        REGISTER_STAR,
        REGISTER_LSTAR,
        REGISTER_CSTAR,
        REGISTER_SFMASK,
        REGISTER_PENDING_INTERRUPTION,
        REGISTER_INTERRUPT_STATE,
        REGISTER_PENDING_EVENT,
        REGISTER_DELIVERABILITY_NOTIFICATIONS,
        REGISTER_INTERNAL_ACTIVITY_STATE,
    ]
}

/// The registers that every processor has.
pub fn mandatory_registers() -> (names: Vec<i32>)
    ensures
        names@ == mandatory_names(),
{
    let mut names: Vec<i32> = Vec::new();
    append_run(&mut names, 0, FIRST_REGISTERS);
    let more: Vec<i32> = vec![
        REGISTER_TSC,
        REGISTER_EFER,
        REGISTER_KERNEL_GS_BASE,
        REGISTER_APIC_BASE,
        REGISTER_PAT,
        REGISTER_SYSENTER_CS,
        REGISTER_SYSENTER_EIP,
        REGISTER_SYSENTER_ESP,
        REGISTER_STAR,
        REGISTER_LSTAR,
        REGISTER_CSTAR,
        REGISTER_SFMASK,
        REGISTER_PENDING_INTERRUPTION,
        REGISTER_INTERRUPT_STATE,
        REGISTER_PENDING_EVENT,
        REGISTER_DELIVERABILITY_NOTIFICATIONS,
        REGISTER_INTERNAL_ACTIVITY_STATE,
    ];
    names.extend_from_slice(more.as_slice());
    names
}

/// The registers that a processor may have, in the order in which they are asked for.
pub open spec fn optional_names() -> Seq<i32> {
    seq![
        REGISTER_TSC_AUX,
        REGISTER_TSC_DEADLINE,
        REGISTER_TSC_ADJUST,
        REGISTER_BNDCFGS,
        REGISTER_SPEC_CTRL,
        REGISTER_TSX_CTRL,
        REGISTER_XSS,
        REGISTER_U_CET,
        REGISTER_S_CET,
        REGISTER_SSP,
        REGISTER_PL0_SSP,
        REGISTER_PL1_SSP,
        REGISTER_PL2_SSP,
        REGISTER_PL3_SSP,
        REGISTER_INTERRUPT_SSP_TABLE_ADDR,
        REGISTER_UMWAIT_CONTROL,
        REGISTER_XFD,
        REGISTER_XFD_ERR,
        REGISTER_PENDING_DEBUG_EXCEPTION,
        REGISTER_MSR_MTRR_DEF_TYPE,
        REGISTER_GUEST_OS_ID,
        REGISTER_HYPERCALL,
        REGISTER_VP_ASSIST_PAGE,
        REGISTER_REFERENCE_TSC,
        REGISTER_REFERENCE_TSC_SEQUENCE,
        REGISTER_SCONTROL,
        REGISTER_SIEFP,
        REGISTER_SIMP,
    ] + run_of(REGISTER_MTRR_PHYS_BASE_0, 16) + run_of(REGISTER_MTRR_PHYS_MASK_0, 16) + run_of(
        REGISTER_MTRR_FIX_64K_00000,
        11,
    ) + run_of(REGISTER_SINT_0, 16)
}

/// The registers that a processor may have, in the order in which they are asked for.
pub fn optional_registers() -> (names: Vec<i32>)
    ensures
        names@ == optional_names(),
{
    let mut names: Vec<i32> = vec![
        REGISTER_TSC_AUX,
        REGISTER_TSC_DEADLINE,
        REGISTER_TSC_ADJUST,
        REGISTER_BNDCFGS,
        REGISTER_SPEC_CTRL,
        REGISTER_TSX_CTRL,
        REGISTER_XSS,
        REGISTER_U_CET,
        REGISTER_S_CET,
        REGISTER_SSP,
        REGISTER_PL0_SSP,
        REGISTER_PL1_SSP,
        REGISTER_PL2_SSP,
        REGISTER_PL3_SSP,
        REGISTER_INTERRUPT_SSP_TABLE_ADDR,
        REGISTER_UMWAIT_CONTROL,
        REGISTER_XFD,
        REGISTER_XFD_ERR,
        REGISTER_PENDING_DEBUG_EXCEPTION,
        REGISTER_MSR_MTRR_DEF_TYPE,
        REGISTER_GUEST_OS_ID,
        REGISTER_HYPERCALL,
        REGISTER_VP_ASSIST_PAGE,
        REGISTER_REFERENCE_TSC,
        REGISTER_REFERENCE_TSC_SEQUENCE,
        REGISTER_SCONTROL,
        REGISTER_SIEFP,
        REGISTER_SIMP,
    ];
    append_run(&mut names, REGISTER_MTRR_PHYS_BASE_0, 16);
    append_run(&mut names, REGISTER_MTRR_PHYS_MASK_0, 16);
    append_run(&mut names, REGISTER_MTRR_FIX_64K_00000, 11);
    append_run(&mut names, REGISTER_SINT_0, 16);
    names
}

/// What the hypervisor answers when it is asked for a register.
#[derive(Clone, Copy, Debug, PartialEq, Eq, Structural)]
pub enum ProbeReply {
    /// The processor has it.
    Supported,
    /// The request failed with this code.
    Failed { hresult: i32 },
    /// The request could not be made.
    Broken,
}

/// Whether the code means that the processor has no such register.
pub open spec fn means_absent(hresult: i32) -> bool {
    ||| hresult as u32 == 0x8007_0057
    ||| hresult as u32 == 0xc035_0005
    ||| hresult as u32 == 0x8037_0302
}

/// Why the answer ends the search for registers, if it does: a failure that does not
/// mean that the register is absent.
pub open spec fn probe_fault(reply: ProbeReply) -> Option<StateError> {
    match reply {
        ProbeReply::Supported => None,
        ProbeReply::Failed { hresult } => if means_absent(hresult) {
            None
        } else {
            Some(StateError::Registers { hresult })
        },
        ProbeReply::Broken => Some(StateError::Backend),
    }
}

/// Why the answer ends the search for registers, if it does.
pub fn search_fault(reply: ProbeReply) -> (fault: Option<StateError>)
    ensures
        fault == probe_fault(reply),
{
    match reply {
        ProbeReply::Supported => None,
        ProbeReply::Failed { hresult } => {
            let code: u32 = hresult as u32;
            if code == 0x8007_0057 || code == 0xc035_0005 || code == 0x8037_0302 {
                None
            } else {
                Some(StateError::Registers { hresult })
            }
        },
        ProbeReply::Broken => Some(StateError::Backend),
    }
}

/// Those of the first `n` names that the processor has.
pub open spec fn supported_names(names: Seq<i32>, replies: Seq<ProbeReply>, n: nat) -> Seq<i32>
    decreases n,
{
    if n == 0 {
        Seq::empty()
    } else {
        let before = supported_names(names, replies, (n - 1) as nat);
        if replies[n - 1] == ProbeReply::Supported {
            before.push(names[n - 1])
        } else {
            before
        }
    }
}

/// Whether the answers are about all optional registers, or end with a fault.
pub open spec fn all_probed(replies: Seq<ProbeReply>) -> bool {
    ||| replies.len() == optional_names().len()
    ||| 0 < replies.len() < optional_names().len() && probe_fault(replies.last()) is Some
}

/// Whether `result` is what the answers about optional registers come to: the first
/// fault, else the registers of the processor.
pub open spec fn names_found(
    replies: Seq<ProbeReply>,
    result: Result<Seq<i32>, StateError>,
) -> bool {
    match result {
        Ok(names) => {
            &&& forall|i: int|
                0 <= i < replies.len() ==> probe_fault(#[trigger] replies[i]) is None
            &&& names == mandatory_names() + supported_names(
                optional_names(),
                replies,
                optional_names().len(),
            )
        },
        Err(fault) => exists|i: int|
            {
                &&& 0 <= i < replies.len()
                &&& probe_fault(#[trigger] replies[i]) == Some(fault)
                &&& forall|j: int| 0 <= j < i ==> probe_fault(#[trigger] replies[j]) is None
            },
    }
}

/// The registers of a processor, given the answers about [`optional_registers`], in
/// their order. A fault ends the search, and no answer is needed behind it: a failure
/// of the hypervisor never means that a register is absent, unless it says so.
pub fn register_names(replies: &Vec<ProbeReply>) -> (names: Result<Vec<i32>, StateError>)
    requires
        all_probed(replies@),
    ensures
        names_found(replies@, result_view(names)),
{
    let mut names: Vec<i32> = mandatory_registers();
    let optional: Vec<i32> = optional_registers();
    for n in 0..replies.len()
        invariant
            replies@.len() <= optional@.len(),
            optional@ == optional_names(),
            forall|i: int| 0 <= i < n ==> probe_fault(#[trigger] replies@[i]) is None,
            names@ == mandatory_names() + supported_names(optional_names(), replies@, n as nat),
    {
        match search_fault(replies[n]) {
            Some(fault) => return Err(fault),
            None => {},
        }
        if replies[n] == ProbeReply::Supported {
            names.push(optional[n]);
        }
    }
    Ok(names)
}

/// The partition properties that make up the features, in the order in which they
/// are asked for.
pub open spec fn feature_codes() -> Seq<i32> {
    seq![
        PROPERTY_PROCESSOR_FEATURES_BANKS,
        PROPERTY_PROCESSOR_XSAVE_FEATURES,
        PROPERTY_LOCAL_APIC_EMULATION_MODE,
        PROPERTY_INTERRUPT_CLOCK_FREQUENCY,
    ]
}

/// The partition properties that make up the features, in the order in which they
/// are asked for.
pub fn feature_properties() -> (codes: [i32; 4])
    ensures
        codes@ == feature_codes(),
{
    let codes: [i32; 4] = [
        PROPERTY_PROCESSOR_FEATURES_BANKS,
        PROPERTY_PROCESSOR_XSAVE_FEATURES,
        PROPERTY_LOCAL_APIC_EMULATION_MODE,
        PROPERTY_INTERRUPT_CLOCK_FREQUENCY,
    ];
    codes
}

/// What the hypervisor answers when it is asked for a partition property.
#[derive(Clone, Copy, Debug)]
pub struct FeatureReply {
    /// Status of the request, negative if it failed.
    pub status: i32,
    /// Number of bytes that were written.
    pub written: u32,
    /// The buffer that they were written to.
    pub buffer: [u64; 32],
}

/// The first `n` bytes of numbers that lie one after another, low byte first.
pub open spec fn leading_bytes(numbers: Seq<u64>, n: nat) -> Seq<u8> {
    Seq::new(n, |i: int| le64_bytes(numbers[i / 8])[i % 8])
}

/// The bytes of a partition property, or why it could not be had: the request
/// failed, or wrote nothing, or wrote more than there is room for.
pub open spec fn feature_of(code: i32, reply: FeatureReply) -> Result<Seq<u8>, StateError> {
    if reply.status < 0 || reply.written == 0 || reply.written > PROPERTY_BUFFER_SIZE {
        Err(StateError::Feature { code, status: reply.status })
    } else {
        Ok(leading_bytes(reply.buffer@, reply.written as nat))
    }
}

/// The bytes of the partition property `code` in the hypervisor's answer.
pub fn feature_bytes(code: i32, reply: &FeatureReply) -> (bytes: Result<Vec<u8>, StateError>)
    ensures
        result_view(bytes) == feature_of(code, *reply),
{
    if reply.status < 0 || reply.written == 0 || reply.written > PROPERTY_BUFFER_SIZE {
        return Err(StateError::Feature { code, status: reply.status });
    }
    let mut bytes: Vec<u8> = Vec::new();
    for i in 0..reply.written
        invariant
            reply.written <= PROPERTY_BUFFER_SIZE,
            bytes@ =~= leading_bytes(reply.buffer@, i as nat),
    {
        let number: [u8; 8] = u64_to_le(reply.buffer[(i / 8) as usize]);
        bytes.push(number[(i % 8) as usize]);
    }
    Ok(bytes)
}

/// Whether the answers are about all partition properties that make up the features,
/// or end with one that could not be had.
pub open spec fn all_asked(replies: Seq<FeatureReply>) -> bool {
    ||| replies.len() == feature_codes().len()
    ||| 0 < replies.len() < feature_codes().len() && feature_of(
        feature_codes()[replies.len() - 1],
        replies.last(),
    ) is Err
}

/// Whether `result` is what the answers about the partition properties come to: the
/// first that could not be had, else the bytes of all.
pub open spec fn features_found(
    replies: Seq<FeatureReply>,
    result: Result<Seq<Seq<u8>>, StateError>,
) -> bool {
    match result {
        Ok(features) => {
            &&& features.len() == feature_codes().len()
            &&& forall|i: int|
                0 <= i < features.len() ==> feature_of(feature_codes()[i], #[trigger] replies[i])
                    == Ok::<Seq<u8>, StateError>(features[i])
        },
        Err(fault) => exists|i: int|
            {
                &&& 0 <= i < replies.len()
                &&& feature_of(feature_codes()[i], #[trigger] replies[i]) == Err::<
                    Seq<u8>,
                    StateError,
                >(fault)
                &&& forall|j: int|
                    0 <= j < i ==> feature_of(feature_codes()[j], #[trigger] replies[j]) is Ok
            },
    }
}

/// A result with byte strings, as a value.
pub open spec fn strings_result(r: Result<Vec<Vec<u8>>, StateError>) -> Result<
    Seq<Seq<u8>>,
    StateError,
> {
    match r {
        Ok(strings) => Ok(strings_of(strings@)),
        Err(fault) => Err(fault),
    }
}

/// The features of the partition, given the answers about [`feature_properties`], in
/// their order. No answer is needed behind one that could not be had.
pub fn features(replies: &Vec<FeatureReply>) -> (features: Result<Vec<Vec<u8>>, StateError>)
    requires
        all_asked(replies@),
    ensures
        features_found(replies@, strings_result(features)),
{
    let codes: [i32; 4] = feature_properties();
    let mut features: Vec<Vec<u8>> = Vec::new();
    for n in 0..replies.len()
        invariant
            replies@.len() <= codes@.len(),
            codes@ == feature_codes(),
            features@.len() == n,
            forall|i: int|
                0 <= i < n ==> feature_of(feature_codes()[i], #[trigger] replies@[i]) == Ok::<
                    Seq<u8>,
                    StateError,
                >(features@[i]@),
    {
        match feature_bytes(codes[n], &replies[n]) {
            Ok(bytes) => features.push(bytes),
            Err(fault) => {
                return Err(fault);
            },
        }
    }
    Ok(features)
}

/// The clock frequency, or why there is none.
pub open spec fn frequency_of(hz: Option<u64>) -> Result<u64, StateError> {
    match hz {
        Some(hz) => Ok(hz),
        None => Err(StateError::NoFrequency),
    }
}

/// The clock frequency that the host found, if it did.
pub fn frequency(hz: Option<u64>) -> (frequency: Result<u64, StateError>)
    ensures
        frequency == frequency_of(hz),
{
    match hz {
        Some(hz) => Ok(hz),
        None => Err(StateError::NoFrequency),
    }
}

/// The number of a processor, as the hypervisor takes it.
pub fn cpu_index(id: u32) -> (cpu: Result<u8, StateError>)
    ensures
        cpu == (if id <= u8::MAX {
            Ok(id as u8)
        } else {
            Err(StateError::CpuIndex(id))
        }),
{
    if id <= 255 {
        Ok(id as u8)
    } else {
        Err(StateError::CpuIndex(id))
    }
}

/// The error of encoding or decoding as an error of capturing or restoring.
pub open spec fn codec_fault(error: CodecError) -> StateError {
    match error {
        CodecError::Faulty(text) => StateError::Codec(text),
        CodecError::TrailingBytes => StateError::TrailingBytes,
    }
}

/// The error of encoding or decoding as an error of capturing or restoring.
fn codec_error(error: CodecError) -> (fault: StateError)
    ensures
        fault == codec_fault(error),
{
    match error {
        CodecError::Faulty(text) => StateError::Codec(text),
        CodecError::TrailingBytes => StateError::TrailingBytes,
    }
}

/// Captures the state of the virtual machine: what each processor does, if that is
/// known for sure, the features of the partition and the clock frequency.
pub fn capture_vm(
    startup: Option<Vec<u32>>,
    features: Result<Vec<Vec<u8>>, StateError>,
    hz: Option<u64>,
) -> (bytes: Result<Vec<u8>, StateError>)
    ensures
        match (startup, features, hz) {
            (None, _, _) => bytes == Err::<Vec<u8>, _>(StateError::StartupPoisoned),
            (Some(_), Err(fault), _) => bytes == Err::<Vec<u8>, _>(fault),
            (Some(_), Ok(_), None) => bytes == Err::<Vec<u8>, _>(StateError::NoFrequency),
            (Some(startup), Ok(features), Some(hz)) => bytes is Ok && bytes->Ok_0@ == vm_bytes(
                VmView {
                    features: strings_of(features@),
                    tsc_frequency: hz,
                    startup: startup@,
                },
            ),
        },
{
    let startup = match startup {
        Some(startup) => startup,
        None => return Err(StateError::StartupPoisoned),
    };
    let features = match features {
        Ok(features) => features,
        Err(fault) => return Err(fault),
    };
    let tsc_frequency: u64 = match frequency(hz) {
        Ok(hz) => hz,
        Err(fault) => return Err(fault),
    };
    match encode_vm(&VmState { features, tsc_frequency, startup }) {
        Ok(bytes) => Ok(bytes),
        Err(error) => Err(codec_error(error)),
    }
}

/// Whether a machine with these features, this clock frequency and this number of
/// processors, of which the first runs, is like the one whose state was captured.
pub open spec fn machine_fits(
    s: VmView,
    features: Seq<Seq<u8>>,
    hz: u64,
    slots: nat,
    running: u32,
) -> bool {
    &&& s.features == features
    &&& s.tsc_frequency == hz
    &&& s.startup.len() == slots
    &&& s.startup.len() > 0
    &&& s.startup[0] == running
}

/// What restoring the state `s` comes to: what each processor does, or why the
/// machine does not fit.
pub open spec fn vm_restored(
    s: VmView,
    features: Result<Seq<Seq<u8>>, StateError>,
    hz: Option<u64>,
    slots: nat,
    running: u32,
) -> Result<Seq<u32>, StateError> {
    match (features, hz) {
        (Err(fault), _) => Err(fault),
        (Ok(features), None) => if s.features == features {
            Err(StateError::NoFrequency)
        } else {
            Err(StateError::MachineDiffers)
        },
        (Ok(features), Some(hz)) => if machine_fits(s, features, hz, slots, running) {
            Ok(s.startup)
        } else {
            Err(StateError::MachineDiffers)
        },
    }
}

/// Whether two lists of byte strings are equal.
fn same_strings(a: &Vec<Vec<u8>>, b: &Vec<Vec<u8>>) -> (same: bool)
    ensures
        same == (strings_of(a@) == strings_of(b@)),
{
    if a.len() != b.len() {
        assert(strings_of(a@).len() != strings_of(b@).len());
        return false;
    }
    for n in 0..a.len()
        invariant
            a@.len() == b@.len(),
            forall|i: int| 0 <= i < n ==> (#[trigger] a@[i])@ == b@[i]@,
    {
        if !(a[n] == b[n]) {
            assert(strings_of(a@)[n as int] != strings_of(b@)[n as int]);
            return false;
        }
    }
    assert(strings_of(a@) =~= strings_of(b@));
    true
}

/// Whether `result` refuses what the processors do, because one does what has an unknown
/// number.
pub open spec fn startup_refused<T>(
    result: Result<T, StateError>,
    startup: Seq<u32>,
    states: u32,
) -> bool {
    result matches Err(StateError::Codec(text)) && tells_unknown(text@, startup, states)
}

/// The captured state of a virtual machine.
pub fn read_vm(bytes: &[u8], states: StartupStates) -> (state: Result<VmState, StateError>)
    ensures
        exists|decoded: Result<VmView, CodecError>| #[trigger]
            decodes_vm(bytes@, states.count, decoded) && result_view(state) == match decoded {
                Ok(found) => Ok::<_, StateError>(found),
                Err(error) => Err(codec_fault(error)),
            },
        forall|s: VmView|
            bytes@ == #[trigger] vm_bytes(s) && vm_size(s) <= STATE_LIMIT && startup_known(
                s.startup,
                states.count,
            ) ==> result_view(state) == Ok::<_, StateError>(s),
        forall|s: VmView, tail: Seq<u8>|
            bytes@ == #[trigger] (vm_bytes(s) + tail) && tail.len() > 0 && vm_size(s)
                <= STATE_LIMIT && startup_known(s.startup, states.count) ==> result_view(state)
                == Err::<VmView, _>(StateError::TrailingBytes),
        forall|s: VmView, tail: Seq<u8>|
            bytes@ == #[trigger] (vm_bytes(s) + tail) && vm_size(s) <= STATE_LIMIT
                && !startup_known(s.startup, states.count) ==> startup_refused(
                state,
                s.startup,
                states.count,
            ),
{
    let decoded = decode_vm(bytes, states.count);
    assert(decodes_vm(bytes@, states.count, result_view(decoded)));
    match decoded {
        Ok(state) => Ok(state),
        Err(error) => Err(codec_error(error)),
    }
}

/// Checks the captured state of a virtual machine against the machine at hand: the
/// features of its partition, its clock frequency and the number of its processors.
/// Gives what each processor is to do, once time stands still in the partition.
pub fn restore_vm(
    bytes: &[u8],
    states: StartupStates,
    features: Result<Vec<Vec<u8>>, StateError>,
    hz: Option<u64>,
    slots: usize,
) -> (startup: Result<Vec<u32>, StateError>)
    ensures
        exists|decoded: Result<VmView, CodecError>| #[trigger]
            decodes_vm(bytes@, states.count, decoded) && result_view(startup) == match decoded {
                Ok(found) => vm_restored(
                    found,
                    strings_result(features),
                    hz,
                    slots as nat,
                    states.running,
                ),
                Err(error) => Err(codec_fault(error)),
            },
        forall|s: VmView|
            bytes@ == #[trigger] vm_bytes(s) && vm_size(s) <= STATE_LIMIT && startup_known(
                s.startup,
                states.count,
            ) ==> result_view(startup) == vm_restored(
                s,
                strings_result(features),
                hz,
                slots as nat,
                states.running,
            ),
        forall|s: VmView, tail: Seq<u8>|
            bytes@ == #[trigger] (vm_bytes(s) + tail) && tail.len() > 0 && vm_size(s)
                <= STATE_LIMIT && startup_known(s.startup, states.count) ==> startup == Err::<
                Vec<u32>,
                _,
            >(StateError::TrailingBytes),
        forall|s: VmView, tail: Seq<u8>|
            bytes@ == #[trigger] (vm_bytes(s) + tail) && vm_size(s) <= STATE_LIMIT
                && !startup_known(s.startup, states.count) ==> startup_refused(
                startup,
                s.startup,
                states.count,
            ),
{
    let state = match read_vm(bytes, states) {
        Ok(state) => state,
        Err(fault) => return Err(fault),
    };
    install_vm(state, states, features, hz, slots)
}

/// Checks the state of a virtual machine against the machine at hand.
pub fn install_vm(
    state: VmState,
    states: StartupStates,
    features: Result<Vec<Vec<u8>>, StateError>,
    hz: Option<u64>,
    slots: usize,
) -> (startup: Result<Vec<u32>, StateError>)
    ensures
        result_view(startup) == vm_restored(
            state@,
            strings_result(features),
            hz,
            slots as nat,
            states.running,
        ),
{
    let features = match features {
        Ok(features) => features,
        Err(fault) => return Err(fault),
    };
    if !same_strings(&state.features, &features) {
        return Err(StateError::MachineDiffers);
    }
    let hz: u64 = match frequency(hz) {
        Ok(hz) => hz,
        Err(fault) => return Err(fault),
    };
    if state.tsc_frequency != hz || state.startup.len() != slots || state.startup.len() == 0
        || state.startup[0] != states.running {
        return Err(StateError::MachineDiffers);
    }
    Ok(state.startup)
}

/// Registers with their bytes, as far as there are both.
pub open spec fn paired(names: Seq<i32>, values: Seq<[u8; 16]>) -> Seq<(i32, Seq<u8>)> {
    Seq::new(
        if names.len() <= values.len() {
            names.len()
        } else {
            values.len()
        },
        |i: int| (names[i], values[i]@),
    )
}

/// Captures the state of the processor `id`.
pub fn capture_cpu(
    id: u32,
    names: &Vec<i32>,
    values: &Vec<[u8; 16]>,
    xsave: Vec<u8>,
    apic: Vec<u8>,
    synic: [Vec<u8>; 3],
) -> (bytes: Result<Vec<u8>, StateError>)
    ensures
        id > u8::MAX ==> bytes == Err::<Vec<u8>, _>(StateError::CpuIndex(id)),
        id <= u8::MAX ==> bytes is Ok && bytes->Ok_0@ == cpu_bytes(
            CpuView {
                registers: paired(names@, values@),
                xsave: xsave@,
                apic: apic@,
                synic: strings_of(synic@),
            },
        ),
{
    match cpu_index(id) {
        Ok(_) => {},
        Err(fault) => return Err(fault),
    }
    let count: usize = if names.len() <= values.len() {
        names.len()
    } else {
        values.len()
    };
    let mut registers: Vec<(i32, [u8; 16])> = Vec::new();
    for n in 0..count
        invariant
            count <= names@.len(),
            count <= values@.len(),
            registers@.len() == n,
            forall|i: int|
                0 <= i < n ==> #[trigger] registers@[i] == (names@[i], values@[i]),
    {
        registers.push((names[n], values[n]));
    }
    let state = CpuState { registers, xsave, apic, synic };
    assert(state@.registers =~= paired(names@, values@));
    match encode_cpu(&state) {
        Ok(bytes) => Ok(bytes),
        Err(error) => Err(codec_error(error)),
    }
}

/// What to do to restore a processor, as a value.
#[verifier::ext_equal]
pub struct CpuRestoreView {
    /// Number of the processor.
    pub cpu: u8,
    /// Bytes of the registers, in the order of their names.
    pub values: Seq<Seq<u8>>,
    /// Further states to set, in order.
    pub states: Seq<(i32, Seq<u8>)>,
}

/// What to do to restore a processor: set the registers, then the further states.
#[derive(Debug)]
pub struct CpuRestore {
    /// Number of the processor.
    pub cpu: u8,
    /// Bytes of the registers, in the order of their names.
    pub values: Vec<[u8; 16]>,
    /// Further states to set, in order.
    pub states: Vec<(i32, Vec<u8>)>,
}

impl View for CpuRestore {
    type V = CpuRestoreView;

    open spec fn view(&self) -> CpuRestoreView {
        CpuRestoreView {
            cpu: self.cpu,
            values: self.values@.map_values(|bytes: [u8; 16]| bytes@),
            states: self.states@.map_values(|state: (i32, Vec<u8>)| (state.0, state.1@)),
        }
    }
}

/// The names of the captured registers.
pub open spec fn captured_names(s: CpuView) -> Seq<i32> {
    s.registers.map_values(|register: (i32, Seq<u8>)| register.0)
}

/// What restoring the state `s` to the processor `cpu` with the registers `names`
/// comes to.
pub open spec fn cpu_restored(s: CpuView, cpu: u8, names: Result<Seq<i32>, StateError>) -> Result<
    CpuRestoreView,
    StateError,
> {
    match names {
        Err(fault) => Err(fault),
        Ok(names) => if names == captured_names(s) {
            Ok(
                CpuRestoreView {
                    cpu,
                    values: s.registers.map_values(|register: (i32, Seq<u8>)| register.1),
                    states: seq![
                        (STATE_XSAVE, s.xsave),
                        (STATE_INTERRUPT_CONTROLLER_2, s.apic),
                        (STATE_SYNIC_MESSAGE_PAGE, s.synic[0]),
                        (STATE_SYNIC_EVENT_FLAG_PAGE, s.synic[1]),
                        (STATE_SYNIC_TIMERS, s.synic[2]),
                    ],
                },
            )
        } else {
            Err(StateError::RegistersDiffer)
        },
    }
}

/// The captured state of the processor `id`, and its number as the hypervisor takes it.
pub fn read_cpu(id: u32, bytes: &[u8]) -> (state: Result<(u8, CpuState), StateError>)
    ensures
        if id > u8::MAX {
            state == Err::<(u8, CpuState), _>(StateError::CpuIndex(id))
        } else {
            exists|decoded: Result<CpuView, CodecError>| #[trigger]
                decodes_cpu(bytes@, decoded) && match decoded {
                    Ok(found) => state is Ok && state->Ok_0.0 == id && state->Ok_0.1@ == found,
                    Err(error) => state == Err::<(u8, CpuState), _>(codec_fault(error)),
                }
        },
        forall|s: CpuView|
            bytes@ == #[trigger] cpu_bytes(s) && cpu_shape(s) && cpu_size(s) <= STATE_LIMIT && id
                <= u8::MAX ==> state is Ok && state->Ok_0.1@ == s,
        forall|s: CpuView, tail: Seq<u8>|
            bytes@ == #[trigger] (cpu_bytes(s) + tail) && tail.len() > 0 && cpu_shape(s)
                && cpu_size(s) <= STATE_LIMIT && id <= u8::MAX ==> state == Err::<
                (u8, CpuState),
                _,
            >(StateError::TrailingBytes),
{
    let cpu: u8 = match cpu_index(id) {
        Ok(cpu) => cpu,
        Err(fault) => return Err(fault),
    };
    let decoded = decode_cpu(bytes);
    assert(decodes_cpu(bytes@, result_view(decoded)));
    match decoded {
        Ok(state) => Ok((cpu, state)),
        Err(error) => Err(codec_error(error)),
    }
}

/// Checks the captured state of a processor against the processor `id` at hand, and
/// gives what to do to restore it.
pub fn restore_cpu(id: u32, bytes: &[u8], names: Result<Vec<i32>, StateError>) -> (restore: Result<
    CpuRestore,
    StateError,
>)
    ensures
        if id > u8::MAX {
            restore == Err::<CpuRestore, _>(StateError::CpuIndex(id))
        } else {
            exists|decoded: Result<CpuView, CodecError>| #[trigger]
                decodes_cpu(bytes@, decoded) && result_view(restore) == match decoded {
                    Ok(found) => cpu_restored(found, id as u8, result_view(names)),
                    Err(error) => Err(codec_fault(error)),
                }
        },
        forall|s: CpuView|
            bytes@ == #[trigger] cpu_bytes(s) && cpu_shape(s) && cpu_size(s) <= STATE_LIMIT && id
                <= u8::MAX ==> result_view(restore) == cpu_restored(
                s,
                id as u8,
                result_view(names),
            ),
        forall|s: CpuView, tail: Seq<u8>|
            bytes@ == #[trigger] (cpu_bytes(s) + tail) && tail.len() > 0 && cpu_shape(s)
                && cpu_size(s) <= STATE_LIMIT && id <= u8::MAX ==> restore == Err::<CpuRestore, _>(
                StateError::TrailingBytes,
            ),
{
    let (cpu, state) = match read_cpu(id, bytes) {
        Ok(read) => read,
        Err(fault) => return Err(fault),
    };
    install_cpu(cpu, state, names)
}

/// Checks the state of a processor against the processor `cpu` at hand, and gives what
/// to do to restore it.
pub fn install_cpu(cpu: u8, state: CpuState, names: Result<Vec<i32>, StateError>) -> (restore:
    Result<CpuRestore, StateError>)
    ensures
        result_view(restore) == cpu_restored(state@, cpu, result_view(names)),
{
    let known: Vec<i32> = match names {
        Ok(known) => known,
        Err(fault) => return Err(fault),
    };
    if known.len() != state.registers.len() {
        return Err(StateError::RegistersDiffer);
    }
    let mut values: Vec<[u8; 16]> = Vec::new();
    for n in 0..known.len()
        invariant
            result_view(names) == Ok::<Seq<i32>, StateError>(known@),
            known@.len() == state.registers@.len(),
            values@.len() == n,
            forall|i: int| 0 <= i < n ==> #[trigger] known@[i] == state.registers@[i].0,
            forall|i: int| 0 <= i < n ==> #[trigger] values@[i] == state.registers@[i].1,
    {
        if known[n] != state.registers[n].0 {
            return Err(StateError::RegistersDiffer);
        }
        values.push(state.registers[n].1);
    }
    assert(known@ =~= captured_names(state@));
    let ghost before = state@;
    let states: Vec<(i32, Vec<u8>)> = vec![
        (STATE_XSAVE, state.xsave),
        (STATE_INTERRUPT_CONTROLLER_2, state.apic),
        (STATE_SYNIC_MESSAGE_PAGE, slice_to_vec(state.synic[0].as_slice())),
        (STATE_SYNIC_EVENT_FLAG_PAGE, slice_to_vec(state.synic[1].as_slice())),
        (STATE_SYNIC_TIMERS, slice_to_vec(state.synic[2].as_slice())),
    ];
    let restore = CpuRestore { cpu, values, states };
    assert(restore@.values =~= before.registers.map_values(
        |register: (i32, Seq<u8>)| register.1,
    ));
    assert(restore@.states =~= seq![
        (STATE_XSAVE, before.xsave),
        (STATE_INTERRUPT_CONTROLLER_2, before.apic),
        (STATE_SYNIC_MESSAGE_PAGE, before.synic[0]),
        (STATE_SYNIC_EVENT_FLAG_PAGE, before.synic[1]),
        (STATE_SYNIC_TIMERS, before.synic[2]),
    ]);
    Ok(restore)
}

/// The numbers by which the hypervisor knows registers, properties and states.
pub proof fn hypervisor_numbers_are_fixed()
    ensures
        FIRST_REGISTERS == 40,
        REGISTER_TSC == 8192,
        REGISTER_EFER == 8193,
        REGISTER_KERNEL_GS_BASE == 8194,
        REGISTER_APIC_BASE == 8195,
        REGISTER_PAT == 8196,
        REGISTER_SYSENTER_CS == 8197,
        REGISTER_SYSENTER_EIP == 8198,
        REGISTER_SYSENTER_ESP == 8199,
        REGISTER_STAR == 8200,
        REGISTER_LSTAR == 8201,
        REGISTER_CSTAR == 8202,
        REGISTER_SFMASK == 8203,
        REGISTER_PENDING_INTERRUPTION == -2147483648,
        REGISTER_INTERRUPT_STATE == -2147483647,
        REGISTER_PENDING_EVENT == -2147483646,
        REGISTER_DELIVERABILITY_NOTIFICATIONS == -2147483644,
        REGISTER_INTERNAL_ACTIVITY_STATE == -2147483643,
        REGISTER_TSC_AUX == 8315,
        REGISTER_TSC_DEADLINE == 8341,
        REGISTER_TSC_ADJUST == 8342,
        REGISTER_BNDCFGS == 8316,
        REGISTER_SPEC_CTRL == 8324,
        REGISTER_TSX_CTRL == 8328,
        REGISTER_XSS == 8331,
        REGISTER_U_CET == 8332,
        REGISTER_S_CET == 8333,
        REGISTER_SSP == 8334,
        REGISTER_PL0_SSP == 8335,
        REGISTER_PL1_SSP == 8336,
        REGISTER_PL2_SSP == 8337,
        REGISTER_PL3_SSP == 8338,
        REGISTER_INTERRUPT_SSP_TABLE_ADDR == 8339,
        REGISTER_UMWAIT_CONTROL == 8344,
        REGISTER_XFD == 8345,
        REGISTER_XFD_ERR == 8346,
        REGISTER_PENDING_DEBUG_EXCEPTION == -2147483642,
        REGISTER_MSR_MTRR_DEF_TYPE == 8206,
        REGISTER_GUEST_OS_ID == 20482,
        REGISTER_HYPERCALL == 20481,
        REGISTER_VP_ASSIST_PAGE == 20499,
        REGISTER_REFERENCE_TSC == 20503,
        REGISTER_REFERENCE_TSC_SEQUENCE == 20506,
        REGISTER_SCONTROL == 16400,
        REGISTER_SIEFP == 16402,
        REGISTER_SIMP == 16403,
        REGISTER_MTRR_PHYS_BASE_0 == 8208,
        REGISTER_MTRR_PHYS_MASK_0 == 8256,
        REGISTER_MTRR_FIX_64K_00000 == 8304,
        REGISTER_SINT_0 == 16384,
        PROPERTY_PROCESSOR_FEATURES_BANKS == 4106,
        PROPERTY_PROCESSOR_XSAVE_FEATURES == 4102,
        PROPERTY_LOCAL_APIC_EMULATION_MODE == 4101,
        PROPERTY_INTERRUPT_CLOCK_FREQUENCY == 4104,
        STATE_XSAVE == 4097,
        STATE_INTERRUPT_CONTROLLER_2 == 4096,
        STATE_SYNIC_MESSAGE_PAGE == 0,
        STATE_SYNIC_EVENT_FLAG_PAGE == 1,
        STATE_SYNIC_TIMERS == 2,
        PROPERTY_BUFFER_SIZE == 256,
{
}

/// Every processor has the registers zero to 39 and, behind these, 17 others in this
/// order.
pub proof fn every_processor_has_these_registers(i: int)
    ensures
        mandatory_names().len() == 57,
        0 <= i < 40 ==> mandatory_names()[i] == i,
        mandatory_names().skip(40) == seq![
            8192i32,
            8193i32,
            8194i32,
            8195i32,
            8196i32,
            8197i32,
            8198i32,
            8199i32,
            8200i32,
            8201i32,
            8202i32,
            8203i32,
            -2147483648i32,
            -2147483647i32,
            -2147483646i32,
            -2147483644i32,
            -2147483643i32,
        ],
        forall|names: Vec<i32>| #[trigger]
            call_ensures(mandatory_registers, (), names) ==> names@ == mandatory_names(),
{
    assert(mandatory_names().skip(40) =~= seq![
        8192i32,
        8193i32,
        8194i32,
        8195i32,
        8196i32,
        8197i32,
        8198i32,
        8199i32,
        8200i32,
        8201i32,
        8202i32,
        8203i32,
        -2147483648i32,
        -2147483647i32,
        -2147483646i32,
        -2147483644i32,
        -2147483643i32,
    ]);
}

/// The registers that a processor may have are asked for in this order: 28 single ones,
/// then the memory ranges by base and by mask, the fixed ranges, and the interrupt sources.
pub proof fn processors_are_asked_for_these_registers(i: int)
    ensures
        optional_names().len() == 87,
        optional_names().take(28) == seq![
            8315i32,
            8341i32,
            8342i32,
            8316i32,
            8324i32,
            8328i32,
            8331i32,
            8332i32,
            8333i32,
            8334i32,
            8335i32,
            8336i32,
            8337i32,
            8338i32,
            8339i32,
            8344i32,
            8345i32,
            8346i32,
            -2147483642i32,
            8206i32,
            20482i32,
            20481i32,
            20499i32,
            20503i32,
            20506i32,
            16400i32,
            16402i32,
            16403i32,
        ],
        0 <= i < 16 ==> optional_names()[28 + i] == 8208 + i,
        0 <= i < 16 ==> optional_names()[44 + i] == 8256 + i,
        0 <= i < 11 ==> optional_names()[60 + i] == 8304 + i,
        0 <= i < 16 ==> optional_names()[71 + i] == 16384 + i,
        forall|names: Vec<i32>| #[trigger]
            call_ensures(optional_registers, (), names) ==> names@ == optional_names(),
{
    assert(optional_names().take(28) =~= seq![
        8315i32,
        8341i32,
        8342i32,
        8316i32,
        8324i32,
        8328i32,
        8331i32,
        8332i32,
        8333i32,
        8334i32,
        8335i32,
        8336i32,
        8337i32,
        8338i32,
        8339i32,
        8344i32,
        8345i32,
        8346i32,
        -2147483642i32,
        8206i32,
        20482i32,
        20481i32,
        20499i32,
        20503i32,
        20506i32,
        16400i32,
        16402i32,
        16403i32,
    ]);
}

/// A register that the processor has is no fault, and neither is an answer with one of three
/// codes, which mean that it has not. Every other failure ends the search with its code.
pub proof fn three_codes_mean_absence(hresult: i32)
    ensures
        ({
            let absent = hresult == -2147024809 || hresult == -1070268411 || hresult
                == -2143878398;
            &&& means_absent(hresult) <==> absent
            &&& absent ==> probe_fault(ProbeReply::Failed { hresult }) is None
            &&& !absent ==> probe_fault(ProbeReply::Failed { hresult }) == Some(
                StateError::Registers { hresult },
            )
        }),
        probe_fault(ProbeReply::Supported) is None,
        probe_fault(ProbeReply::Broken) == Some(StateError::Backend),
        forall|reply: ProbeReply, fault: Option<StateError>| #[trigger]
            call_ensures(search_fault, (reply,), fault) ==> fault == probe_fault(reply),
{
    assert(hresult as u32 == 0x8007_0057u32 <==> hresult == -2147024809i32) by (bit_vector);
    assert(hresult as u32 == 0xc035_0005u32 <==> hresult == -1070268411i32) by (bit_vector);
    assert(hresult as u32 == 0x8037_0302u32 <==> hresult == -2143878398i32) by (bit_vector);
}

/// The registers that were found are those among the ones asked for that the processor has,
/// in the order in which they were asked for.
pub proof fn found_registers_are_those_supported(names: Seq<i32>, replies: Seq<ProbeReply>, n: nat)
    requires
        n <= names.len(),
        n <= replies.len(),
    ensures
        supported_names(names, replies, 0).len() == 0,
        n < names.len() && n < replies.len() ==> supported_names(names, replies, n + 1)
            == supported_names(names, replies, n) + if replies[n as int] is Supported {
            seq![names[n as int]]
        } else {
            seq![]
        },
        forall|i: int|
            0 <= i < n && replies[i] is Supported ==> supported_names(names, replies, n).contains(
                #[trigger] names[i],
            ),
        forall|name: i32| #[trigger]
            supported_names(names, replies, n).contains(name) ==> exists|i: int|
                0 <= i < n && replies[i] is Supported && #[trigger] names[i] == name,
        supported_names(names, replies, n).len() <= n,
    decreases n,
{
    if n > 0 {
        let m = (n - 1) as nat;
        found_registers_are_those_supported(names, replies, m);
        let before = supported_names(names, replies, m);
        let now = supported_names(names, replies, n);
        if replies[m as int] is Supported {
            assert forall|name: i32| now.contains(name) == (before.contains(name) || name
                == names[m as int]) by {
                vstd::seq_lib::lemma_seq_contains_after_push(before, names[m as int], name);
            }
            assert(now.contains(names[m as int]));
        }
        assert forall|i: int| 0 <= i < n && replies[i] is Supported implies now.contains(
            #[trigger] names[i],
        ) by {
            if i < m {
                assert(before.contains(names[i]));
            }
        }
    }
    if n < names.len() && n < replies.len() {
        let before = supported_names(names, replies, n);
        let add = if replies[n as int] is Supported {
            seq![names[n as int]]
        } else {
            seq![]
        };
        assert(supported_names(names, replies, n + 1) =~= before + add);
    }
}

/// The registers of a processor are those that every processor has, and behind them those it
/// has of the others. The first answer that is a fault ends the search with that fault.
pub proof fn registers_are_found_or_the_fault_told(
    replies: &Vec<ProbeReply>,
    names: Result<Vec<i32>, StateError>,
    k: int,
)
    requires
        call_ensures(register_names, (replies,), names),
        0 <= k < replies@.len(),
    ensures
        names is Ok ==> names->Ok_0@ == mandatory_names() + supported_names(
            optional_names(),
            replies@,
            optional_names().len(),
        ),
        names is Ok ==> probe_fault(replies@[k]) is None,
        probe_fault(replies@[k]) is Some && (forall|j: int|
            0 <= j < k ==> probe_fault(#[trigger] replies@[j]) is None) ==> names is Err
            && names->Err_0 == probe_fault(replies@[k])->0,
{
    if names is Err {
        let i = choose|i: int|
            {
                &&& 0 <= i < replies@.len()
                &&& probe_fault(#[trigger] replies@[i]) == Some(names->Err_0)
                &&& forall|j: int| 0 <= j < i ==> probe_fault(#[trigger] replies@[j]) is None
            };
        if i < k {
            assert(probe_fault(replies@[i]) is Some);
        } else if k < i {
            assert(probe_fault(replies@[k]) is None);
        }
    }
}

/// A partition property is as many bytes as were written, low byte of each number first. It
/// could not be had if the request failed, wrote nothing, or wrote more than 256 bytes; then
/// it is told with its number and the status.
pub proof fn properties_are_the_bytes_written(code: i32, reply: FeatureReply, i: int)
    ensures
        ({
            let had = reply.status >= 0 && 0 < reply.written <= 256;
            let got = feature_of(code, reply);
            &&& got is Ok <==> had
            &&& had ==> got->Ok_0.len() == reply.written
            &&& had && 0 <= i < reply.written ==> got->Ok_0[i] == le64_bytes(
                reply.buffer@[i / 8],
            )[i % 8]
            &&& !had ==> got == Err::<Seq<u8>, _>(
                StateError::Feature { code, status: reply.status },
            )
        }),
        forall|bytes: Result<Vec<u8>, StateError>| #[trigger]
            call_ensures(feature_bytes, (code, &reply), bytes) ==> result_view(bytes) == feature_of(
                code,
                reply,
            ),
        feature_codes() == seq![4106i32, 4102i32, 4101i32, 4104i32],
        forall|codes: [i32; 4]| #[trigger]
            call_ensures(feature_properties, (), codes) ==> codes@ == feature_codes(),
{
    assert(feature_codes() =~= seq![4106i32, 4102i32, 4101i32, 4104i32]);
}

/// The features are the bytes of all four properties in order. The first property that could
/// not be had is told.
pub proof fn features_are_all_properties(
    replies: &Vec<FeatureReply>,
    got: Result<Vec<Vec<u8>>, StateError>,
    k: int,
)
    requires
        call_ensures(features, (replies,), got),
        0 <= k < replies@.len() <= 4,
    ensures
        got is Ok ==> got->Ok_0@.len() == 4,
        got is Ok ==> feature_of(feature_codes()[k], replies@[k]) == Ok::<Seq<u8>, StateError>(
            got->Ok_0@[k]@,
        ),
        feature_of(feature_codes()[k], replies@[k]) is Err && (forall|j: int|
            0 <= j < k ==> feature_of(feature_codes()[j], #[trigger] replies@[j]) is Ok) ==> got
            is Err && got->Err_0 == feature_of(feature_codes()[k], replies@[k])->Err_0,
{
    let shown = strings_result(got);
    assert(features_found(replies@, shown));
    if got is Ok {
        assert(shown->Ok_0.len() == 4);
        assert(shown->Ok_0[k] == got->Ok_0@[k]@);
        assert(feature_of(feature_codes()[k], replies@[k]) == Ok::<Seq<u8>, StateError>(
            shown->Ok_0[k],
        ));
    } else {
        let i = choose|i: int|
            {
                &&& 0 <= i < replies@.len()
                &&& feature_of(feature_codes()[i], #[trigger] replies@[i]) == Err::<
                    Seq<u8>,
                    StateError,
                >(got->Err_0)
                &&& forall|j: int|
                    0 <= j < i ==> feature_of(feature_codes()[j], #[trigger] replies@[j]) is Ok
            };
        if i < k {
            assert(feature_of(feature_codes()[i], replies@[i]) is Err);
        } else if k < i {
            assert(feature_of(feature_codes()[k], replies@[k]) is Ok);
        }
    }
}

/// The clock frequency is the one that was found. Processors are numbered up to 255.
pub proof fn frequencies_and_numbers_are_kept(hz: Option<u64>, id: u32)
    ensures
        forall|got: Result<u64, StateError>| #[trigger]
            call_ensures(frequency, (hz,), got) ==> match hz {
                Some(hz) => got == Ok::<u64, StateError>(hz),
                None => got == Err::<u64, _>(StateError::NoFrequency),
            },
        forall|cpu: Result<u8, StateError>| #[trigger]
            call_ensures(cpu_index, (id,), cpu) ==> {
                &&& cpu is Ok <==> id < 256
                &&& cpu is Ok ==> cpu->Ok_0 == id
                &&& cpu is Err ==> cpu->Err_0 == StateError::CpuIndex(id)
            },
{
}

/// A machine is captured as what its processors do, its features and its frequency. Where
/// one of these could not be had, that is told, in this order.
pub proof fn machines_are_captured_whole(
    startup: Option<Vec<u32>>,
    features: Result<Vec<Vec<u8>>, StateError>,
    hz: Option<u64>,
)
    ensures
        forall|bytes: Result<Vec<u8>, StateError>| #[trigger]
            call_ensures(capture_vm, (startup, features, hz), bytes) ==> {
                &&& startup is None ==> bytes == Err::<Vec<u8>, _>(StateError::StartupPoisoned)
                &&& startup is Some && features is Err ==> bytes == Err::<Vec<u8>, _>(
                    features->Err_0,
                )
                &&& startup is Some && features is Ok && hz is None ==> bytes == Err::<Vec<u8>, _>(
                    StateError::NoFrequency,
                )
                &&& startup is Some && features is Ok && hz is Some ==> {
                    &&& bytes is Ok
                    &&& bytes->Ok_0@ == vm_encoding(
                        strings_of(features->Ok_0@),
                        hz->0,
                        startup->0@,
                    )
                }
            },
{
}

/// State is installed if and only if the machine is like the captured one: its features are
/// equal byte for byte, its clock frequency is equal, it has as many processors, and the
/// first of them runs. Each processor is then to do what was captured of it.
pub proof fn only_a_like_machine_is_restored(
    state: VmState,
    states: StartupStates,
    features: Result<Vec<Vec<u8>>, StateError>,
    hz: Option<u64>,
    slots: usize,
)
    ensures
        forall|startup: Result<Vec<u32>, StateError>| #[trigger]
            call_ensures(install_vm, (state, states, features, hz, slots), startup) ==> {
                let same = features is Ok && features->Ok_0@.len() == state.features@.len()
                    && forall|i: int|
                    0 <= i < state.features@.len() ==> (#[trigger] features->Ok_0@[i])@
                        == state.features@[i]@;
                let alike = same && hz == Some(state.tsc_frequency) && slots
                    == state.startup@.len() && slots > 0 && state.startup@[0] == states.running;
                &&& startup is Ok <==> alike
                &&& startup is Ok ==> startup->Ok_0@ == state.startup@
                &&& features is Err ==> startup == Err::<Vec<u32>, _>(features->Err_0)
                &&& same && hz is None ==> startup == Err::<Vec<u32>, _>(StateError::NoFrequency)
                &&& features is Ok && !same || same && hz is Some && !alike ==> startup == Err::<
                    Vec<u32>,
                    _,
                >(StateError::MachineDiffers)
            },
{
    let mine = strings_of(state.features@);
    if features is Ok {
        let theirs = strings_of(features->Ok_0@);
        if mine == theirs {
            assert(mine.len() == theirs.len());
            assert forall|i: int| 0 <= i < state.features@.len() implies (
            #[trigger] features->Ok_0@[i])@ == state.features@[i]@ by {
                assert(mine[i] == theirs[i]);
            }
        }
        if features->Ok_0@.len() == state.features@.len() && (forall|i: int|
            0 <= i < state.features@.len() ==> (#[trigger] features->Ok_0@[i])@
                == state.features@[i]@) {
            assert forall|i: int| 0 <= i < mine.len() implies mine[i] == theirs[i] by {
                assert(features->Ok_0@[i]@ == state.features@[i]@);
            }
            assert(mine =~= theirs);
        }
    }
    assert forall|startup: Result<Vec<u32>, StateError>| #[trigger]
        call_ensures(install_vm, (state, states, features, hz, slots), startup) implies result_view(
        startup,
    ) == vm_restored(state@, strings_result(features), hz, slots as nat, states.running) by {}
}

/// Captured state is restored if and only if the machine is like the captured one: its
/// features are equal byte for byte, its clock frequency is equal, it has as many
/// processors, and the first of them runs. Each processor is then to do what was captured.
pub proof fn captured_state_fits_a_like_machine_alone(
    bytes: &[u8],
    states: StartupStates,
    s: VmView,
    features: Result<Vec<Vec<u8>>, StateError>,
    hz: Option<u64>,
    slots: usize,
)
    requires
        bytes@ == vm_encoding(s.features, s.tsc_frequency, s.startup),
        vm_size(s) <= 67108864,
        forall|i: int| 0 <= i < s.startup.len() ==> #[trigger] s.startup[i] < states.count,
    ensures
        forall|startup: Result<Vec<u32>, StateError>| #[trigger]
            call_ensures(restore_vm, (bytes, states, features, hz, slots), startup) ==> {
                let same = features is Ok && features->Ok_0@.len() == s.features.len() && forall|
                    i: int,
                |
                    0 <= i < s.features.len() ==> (#[trigger] features->Ok_0@[i])@
                        == s.features[i];
                let alike = same && hz == Some(s.tsc_frequency) && slots == s.startup.len() && slots
                    > 0 && s.startup[0] == states.running;
                &&& startup is Ok <==> alike
                &&& startup is Ok ==> startup->Ok_0@ == s.startup
                &&& features is Err ==> startup == Err::<Vec<u32>, _>(features->Err_0)
                &&& same && hz is None ==> startup == Err::<Vec<u32>, _>(StateError::NoFrequency)
                &&& features is Ok && !same || same && hz is Some && !alike ==> startup == Err::<
                    Vec<u32>,
                    _,
                >(StateError::MachineDiffers)
            },
{
    if features is Ok {
        let theirs = strings_of(features->Ok_0@);
        if s.features == theirs {
            assert(s.features.len() == theirs.len());
            assert forall|i: int| 0 <= i < s.features.len() implies (
            #[trigger] features->Ok_0@[i])@ == s.features[i] by {
                assert(s.features[i] == theirs[i]);
            }
        }
        if features->Ok_0@.len() == s.features.len() && (forall|i: int|
            0 <= i < s.features.len() ==> (#[trigger] features->Ok_0@[i])@ == s.features[i]) {
            assert forall|i: int| 0 <= i < s.features.len() implies s.features[i] == theirs[i] by {
                assert(features->Ok_0@[i]@ == s.features[i]);
            }
            assert(s.features =~= theirs);
        }
    }
    assert forall|startup: Result<Vec<u32>, StateError>| #[trigger]
        call_ensures(restore_vm, (bytes, states, features, hz, slots), startup) implies result_view(
        startup,
    ) == vm_restored(s, strings_result(features), hz, slots as nat, states.running) by {
        assert(bytes@ == vm_bytes(s));
    }
}

/// What is captured of a machine can be restored to a machine with the same features,
/// frequency and number of processors, and gives back what each processor did.
pub proof fn captured_machines_are_restored(
    did: Vec<u32>,
    had: Vec<Vec<u8>>,
    hz: u64,
    bytes: Vec<u8>,
    input: &[u8],
    states: StartupStates,
    have: Vec<Vec<u8>>,
    slots: usize,
    startup: Result<Vec<u32>, StateError>,
)
    requires
        call_ensures(capture_vm, (Some(did), Ok(had), Some(hz)), Ok(bytes)),
        call_ensures(restore_vm, (input, states, Ok(have), Some(hz), slots), startup),
        input@ == bytes@,
        strings_of(have@) == strings_of(had@),
        slots == did@.len(),
        slots > 0,
        did@[0] == states.running,
        forall|i: int| 0 <= i < did@.len() ==> #[trigger] did@[i] < states.count,
        24 + 8 * had@.len() + total_len(strings_of(had@)) + 4 * did@.len() <= 67108864,
    ensures
        startup is Ok,
        startup->Ok_0@ == did@,
{
    let s = VmView { features: strings_of(had@), tsc_frequency: hz, startup: did@ };
    assert(input@ == vm_bytes(s));
    assert(startup_known(s.startup, states.count));
}

/// Registers are captured as pairs of their names and bytes, as far as there are both, with
/// the further states of the processor behind them.
pub proof fn processors_are_captured_whole(
    id: u32,
    names: &Vec<i32>,
    values: &Vec<[u8; 16]>,
    xsave: Vec<u8>,
    apic: Vec<u8>,
    synic: [Vec<u8>; 3],
    i: int,
)
    ensures
        paired(names@, values@).len() == if names@.len() <= values@.len() {
            names@.len()
        } else {
            values@.len()
        },
        0 <= i < names@.len() && i < values@.len() ==> paired(names@, values@)[i] == (
            names@[i],
            values@[i]@,
        ),
        forall|bytes: Result<Vec<u8>, StateError>| #[trigger]
            call_ensures(capture_cpu, (id, names, values, xsave, apic, synic), bytes) ==> if id
                > 255 {
                bytes == Err::<Vec<u8>, _>(StateError::CpuIndex(id))
            } else {
                &&& bytes is Ok
                &&& bytes->Ok_0@ == cpu_encoding(
                    paired(names@, values@),
                    xsave@,
                    apic@,
                    strings_of(synic@),
                )
            },
{
}

/// A processor is restored if and only if it has exactly the registers that were captured,
/// in their order. Then each register is to get the bytes that were captured of it, and the
/// five further states what was captured of them.
pub proof fn only_a_like_processor_is_restored(
    s: CpuView,
    cpu: u8,
    names: Seq<i32>,
    fault: StateError,
    i: int,
)
    ensures
        cpu_restored(s, cpu, Err(fault)) == Err::<CpuRestoreView, _>(fault),
        ({
            let got = cpu_restored(s, cpu, Ok(names));
            let alike = names.len() == s.registers.len() && forall|j: int|
                0 <= j < names.len() ==> #[trigger] names[j] == s.registers[j].0;
            &&& got is Ok <==> alike
            &&& !alike ==> got == Err::<CpuRestoreView, _>(StateError::RegistersDiffer)
            &&& alike ==> {
                &&& got->Ok_0.cpu == cpu
                &&& got->Ok_0.values.len() == s.registers.len()
                &&& 0 <= i < s.registers.len() ==> got->Ok_0.values[i] == s.registers[i].1
                &&& got->Ok_0.states == seq![
                    (4097i32, s.xsave),
                    (4096i32, s.apic),
                    (0i32, s.synic[0]),
                    (1i32, s.synic[1]),
                    (2i32, s.synic[2]),
                ]
            }
        }),
        forall|state: CpuState, known: Result<Vec<i32>, StateError>, restore: Result<
            CpuRestore,
            StateError,
        >| #[trigger]
            call_ensures(install_cpu, (cpu, state, known), restore) ==> result_view(restore)
                == cpu_restored(state@, cpu, result_view(known)),
{
    let captured = captured_names(s);
    if names == captured {
        assert forall|j: int| 0 <= j < names.len() implies #[trigger] names[j]
            == s.registers[j].0 by {
            assert(names[j] == captured[j]);
        }
    }
    if names.len() == s.registers.len() && (forall|j: int|
        0 <= j < names.len() ==> #[trigger] names[j] == s.registers[j].0) {
        assert(names =~= captured);
    }
}

/// What to do to restore a processor as a value is what to do, register by register and
/// state by state.
pub proof fn restores_are_kept_as_values(restore: CpuRestore, i: int)
    ensures
        restore@.cpu == restore.cpu,
        restore@.values.len() == restore.values@.len(),
        restore@.states.len() == restore.states@.len(),
        0 <= i < restore.values@.len() ==> restore@.values[i] == restore.values@[i]@,
        0 <= i < restore.states@.len() ==> restore@.states[i] == (
            restore.states@[i].0,
            restore.states@[i].1@,
        ),
{
}

/// Captured state of a processor is read back for the processor that it is to be restored
/// to. There is no processor above 255, and bytes behind the state are refused.
pub proof fn captured_processors_are_read_back(
    id: u32,
    bytes: &[u8],
    names: Result<Vec<i32>, StateError>,
    s: CpuView,
    tail: Seq<u8>,
)
    requires
        bytes@ == cpu_encoding(s.registers, s.xsave, s.apic, s.synic) + tail,
        s.synic.len() == 3,
        forall|i: int| 0 <= i < s.registers.len() ==> (#[trigger] s.registers[i]).1.len() == 16,
        cpu_size(s) <= 67108864,
    ensures
        forall|restore: Result<CpuRestore, StateError>| #[trigger]
            call_ensures(restore_cpu, (id, bytes, names), restore) ==> {
                &&& id > 255 ==> restore == Err::<CpuRestore, _>(StateError::CpuIndex(id))
                &&& id <= 255 && tail.len() > 0 ==> restore == Err::<CpuRestore, _>(
                    StateError::TrailingBytes,
                )
                &&& id <= 255 && tail.len() == 0 ==> result_view(restore) == cpu_restored(
                    s,
                    id as u8,
                    result_view(names),
                )
            },
        forall|state: Result<(u8, CpuState), StateError>| #[trigger]
            call_ensures(read_cpu, (id, bytes), state) ==> {
                &&& id > 255 ==> state == Err::<(u8, CpuState), _>(StateError::CpuIndex(id))
                &&& id <= 255 && tail.len() > 0 ==> state == Err::<(u8, CpuState), _>(
                    StateError::TrailingBytes,
                )
                &&& id <= 255 && tail.len() == 0 ==> {
                    &&& state is Ok
                    &&& (state->Ok_0).0 == id
                    &&& (state->Ok_0).1@ == s
                }
            },
{
    assert(bytes@ == cpu_bytes(s) + tail);
    assert(cpu_shape(s));
    if tail.len() == 0 {
        assert(bytes@ =~= cpu_bytes(s));
    }
}

/// Captured state of a machine is read back as it was captured. Bytes behind it are
/// refused.
pub proof fn captured_machines_are_read_back(
    bytes: &[u8],
    states: StartupStates,
    s: VmView,
    tail: Seq<u8>,
)
    requires
        bytes@ == vm_encoding(s.features, s.tsc_frequency, s.startup) + tail,
        vm_size(s) <= 67108864,
        forall|i: int| 0 <= i < s.startup.len() ==> #[trigger] s.startup[i] < states.count,
    ensures
        forall|state: Result<VmState, StateError>| #[trigger]
            call_ensures(read_vm, (bytes, states), state) ==> {
                &&& tail.len() > 0 ==> state is Err && state->Err_0 is TrailingBytes
                &&& tail.len() == 0 ==> state is Ok && state->Ok_0@ == s
            },
{
    assert(bytes@ == vm_bytes(s) + tail);
    assert(startup_known(s.startup, states.count));
    if tail.len() == 0 {
        assert(bytes@ =~= vm_bytes(s));
    }
}

/// The errors in words: failures of the hypervisor have none here, a faulty encoding those
/// of its reason, and a partition property its number and status in hexadecimal.
pub proof fn state_errors_name_what_was_wrong(text: String, code: i32, status: i32, n: u32)
    ensures
        state_message(StateError::StartupPoisoned) == Some("startup state mutex poisoned"@),
        state_message(StateError::CpuIndex(n)) == Some(
            "out of range integral type conversion attempted"@,
        ),
        state_message(StateError::Codec(text)) == Some(text@),
        state_message(StateError::TrailingBytes) == Some("trailing WHP x86 state bytes"@),
        state_message(StateError::Feature { code, status }) == Some(
            "partition feature "@ + "0x"@ + digits(code as u32 as nat, 16) + ": HRESULT "@ + "0x"@
                + digits(status as u32 as nat, 16),
        ),
        state_message(StateError::NoFrequency) == Some(
            "WHP processor clock frequency unavailable"@,
        ),
        state_message(StateError::MachineDiffers) == Some(
            "WHP x86 processor features, frequency or topology differ"@,
        ),
        state_message(StateError::RegistersDiffer) == Some("WHP x86 register contract differs"@),
        state_message(StateError::Registers { hresult: code }) is None,
        state_message(StateError::Backend) is None,
        forall|error: StateError, words: Option<String>| #[trigger]
            call_ensures(StateError::message, (&error,), words) ==> option_view(words)
                == state_message(error),
{
}

/// Bytes that do not decode are no state of a machine or a processor: nothing is restored
/// of them, and the codec's words are told, whatever the machine is like. The number of a
/// processor is looked at before its bytes.
pub proof fn bytes_that_do_not_decode_are_refused(
    bytes: &[u8],
    states: StartupStates,
    features: Result<Vec<Vec<u8>>, StateError>,
    hz: Option<u64>,
    slots: usize,
    id: u32,
    names: Result<Vec<i32>, StateError>,
    text: String,
)
    ensures
        codec_fault(CodecError::Faulty(text)) == StateError::Codec(text),
        codec_fault(CodecError::TrailingBytes) == StateError::TrailingBytes,
        vm_decoding(bytes@) is None ==> {
            &&& forall|state: Result<VmState, StateError>| #[trigger]
                call_ensures(read_vm, (bytes, states), state) ==> state is Err
                    && state->Err_0 is Codec
            &&& forall|startup: Result<Vec<u32>, StateError>| #[trigger]
                call_ensures(restore_vm, (bytes, states, features, hz, slots), startup) ==> startup
                    is Err && startup->Err_0 is Codec
        },
        cpu_decoding(bytes@) is None && id <= 255 ==> {
            &&& forall|state: Result<(u8, CpuState), StateError>| #[trigger]
                call_ensures(read_cpu, (id, bytes), state) ==> state is Err
                    && state->Err_0 is Codec
            &&& forall|restore: Result<CpuRestore, StateError>| #[trigger]
                call_ensures(restore_cpu, (id, bytes, names), restore) ==> restore is Err
                    && restore->Err_0 is Codec
        },
        id > 255 ==> forall|restore: Result<CpuRestore, StateError>| #[trigger]
            call_ensures(restore_cpu, (id, bytes, names), restore) ==> restore == Err::<
                CpuRestore,
                _,
            >(StateError::CpuIndex(id)),
{
}

/// State in which a processor does something unknown is refused, whatever the machine is
/// like: the words name the first such number and how many are known.
pub proof fn unknown_processor_states_are_refused(
    bytes: &[u8],
    states: StartupStates,
    s: VmView,
    tail: Seq<u8>,
    features: Result<Vec<Vec<u8>>, StateError>,
    hz: Option<u64>,
    slots: usize,
    k: int,
)
    requires
        bytes@ == vm_encoding(s.features, s.tsc_frequency, s.startup) + tail,
        vm_size(s) <= 67108864,
        0 <= k < s.startup.len(),
        s.startup[k] >= states.count,
        forall|j: int| 0 <= j < k ==> #[trigger] s.startup[j] < states.count,
    ensures
        ({
            let words = "OtherString(\"invalid value: integer `"@ + digits(s.startup[k] as nat, 10)
                + "`, expected variant index 0 <= i < "@ + digits(states.count as nat, 10)
                + "\")"@;
            &&& forall|state: Result<VmState, StateError>| #[trigger]
                call_ensures(read_vm, (bytes, states), state) ==> state is Err
                    && state->Err_0 is Codec && state->Err_0->Codec_0@ == words
            &&& forall|startup: Result<Vec<u32>, StateError>| #[trigger]
                call_ensures(restore_vm, (bytes, states, features, hz, slots), startup) ==> startup
                    is Err && startup->Err_0 is Codec && startup->Err_0->Codec_0@ == words
        }),
{
    let words = "OtherString(\"invalid value: integer `"@ + digits(s.startup[k] as nat, 10)
        + "`, expected variant index 0 <= i < "@ + digits(states.count as nat, 10) + "\")"@;
    assert(bytes@ == vm_bytes(s) + tail);
    assert(!startup_known(s.startup, states.count));
    assert forall|told: Seq<char>| #[trigger]
        tells_unknown(told, s.startup, states.count) implies told == words by {
        let i = choose|i: int|
            {
                &&& 0 <= i < s.startup.len()
                &&& #[trigger] s.startup[i] >= states.count
                &&& startup_known(s.startup.take(i), states.count)
                &&& told == unknown_text(s.startup[i], states.count)
            };
        if k < i {
            assert(s.startup.take(i)[k] == s.startup[k]);
        }
        assert(i == k);
    }
}

} // verus!
