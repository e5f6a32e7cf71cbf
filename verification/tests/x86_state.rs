use vsock_device::state_codec::{
    decode_cpu, decode_vm, encode_cpu, encode_vm, CodecError, CpuState, VmState,
};
use vsock_device::x86_state::{
    capture_cpu, capture_vm, cpu_index, feature_bytes, feature_properties, features, frequency,
    install_cpu, install_vm, mandatory_registers, optional_registers, register_names, restore_cpu,
    restore_vm, search_fault, FeatureReply, ProbeReply, StartupStates, StateError,
};
use windows_sys::Win32::System::Hypervisor as whp;

const RUNNING: u32 = 0;

const STATES: StartupStates = StartupStates {
    count: 70001,
    running: RUNNING,
};

fn vm_state() -> VmState {
    VmState {
        features: vec![vec![1, 2, 3], vec![], vec![255; 300]],
        tsc_frequency: 3_000_000_000,
        startup: vec![RUNNING, 1, 70000],
    }
}

fn cpu_state() -> CpuState {
    CpuState {
        registers: vec![(0, [7; 16]), (-2147483648, [8; 16])],
        xsave: vec![1; 1000],
        apic: vec![2; 3],
        synic: [vec![], vec![4], vec![5, 6]],
    }
}

#[test]
fn vm_state_is_decoded_as_it_was_encoded() {
    let state = vm_state();
    let mut bytes = encode_vm(&state).unwrap();
    assert_ne!(bytes.len(), 0);
    let back = decode_vm(&bytes, u32::MAX).unwrap();
    assert_eq!(back.features, state.features);
    assert_eq!(back.tsc_frequency, state.tsc_frequency);
    assert_eq!(back.startup, state.startup);
    bytes.push(0);
    assert!(matches!(decode_vm(&bytes, u32::MAX), Err(CodecError::TrailingBytes)));
    bytes.truncate(10);
    assert!(matches!(decode_vm(&bytes, u32::MAX), Err(CodecError::Faulty(_))));
}

#[test]
fn cpu_state_is_decoded_as_it_was_encoded() {
    let state = cpu_state();
    let mut bytes = encode_cpu(&state).unwrap();
    let back = decode_cpu(&bytes).unwrap();
    assert_eq!(back.registers, state.registers);
    assert_eq!(back.xsave, state.xsave);
    assert_eq!(back.apic, state.apic);
    assert_eq!(back.synic, state.synic);
    bytes.push(0);
    assert!(matches!(decode_cpu(&bytes), Err(CodecError::TrailingBytes)));
    assert!(matches!(decode_cpu(&[]), Err(CodecError::Faulty(_))));
}

#[test]
fn state_at_the_limit_is_decoded_and_beyond_it_is_not() {
    let state = |len: usize| CpuState {
        registers: vec![],
        xsave: vec![0; len],
        apic: vec![],
        synic: [vec![], vec![], vec![]],
    };
    let limit = 64 * 1024 * 1024 - 48;
    let bytes = encode_cpu(&state(limit)).unwrap();
    assert_eq!(decode_cpu(&bytes).unwrap().xsave.len(), limit);
    let bytes = encode_cpu(&state(limit + 1)).unwrap();
    assert!(matches!(decode_cpu(&bytes), Err(CodecError::Faulty(_))));
}

#[test]
fn vm_state_at_the_limit_is_decoded_and_beyond_it_is_not() {
    let state = |len: usize| VmState {
        features: vec![vec![0; len], vec![]],
        tsc_frequency: u64::MAX,
        startup: vec![0, u32::MAX - 1],
    };
    let limit = 64 * 1024 * 1024 - 48;
    let bytes = encode_vm(&state(limit)).unwrap();
    assert_eq!(decode_vm(&bytes, u32::MAX).unwrap().features[0].len(), limit);
    let bytes = encode_vm(&state(limit + 1)).unwrap();
    assert!(matches!(decode_vm(&bytes, u32::MAX), Err(CodecError::Faulty(_))));
}

#[test]
fn vm_state_restores_to_a_machine_like_its_own() {
    let bytes = capture_vm(
        Some(vm_state().startup),
        Ok(vm_state().features),
        Some(3_000_000_000),
    )
    .unwrap();
    let restore = |features, hz, slots| restore_vm(&bytes, STATES, features, hz, slots);
    assert_eq!(
        restore(Ok(vm_state().features), Some(3_000_000_000), 3).unwrap(),
        vec![0, 1, 70000]
    );
    assert!(matches!(
        restore(Ok(vec![]), Some(3_000_000_000), 3),
        Err(StateError::MachineDiffers)
    ));
    assert!(matches!(restore(Ok(vec![]), None, 3), Err(StateError::MachineDiffers)));
    assert!(matches!(
        restore(Ok(vm_state().features), None, 3),
        Err(StateError::NoFrequency)
    ));
    assert!(matches!(
        restore(Ok(vm_state().features), Some(1), 3),
        Err(StateError::MachineDiffers)
    ));
    assert!(matches!(
        restore(Ok(vm_state().features), Some(3_000_000_000), 2),
        Err(StateError::MachineDiffers)
    ));
    assert!(matches!(
        restore(Err(StateError::Backend), Some(3_000_000_000), 3),
        Err(StateError::Backend)
    ));
    let mut longer = bytes.clone();
    longer.push(1);
    assert!(matches!(
        restore_vm(&longer, STATES, Ok(vm_state().features), Some(1), 3),
        Err(StateError::TrailingBytes)
    ));
    assert!(matches!(
        restore_vm(&bytes[..4], STATES, Err(StateError::Backend), None, 3),
        Err(StateError::Codec(_))
    ));
}

#[test]
fn processors_that_do_what_is_unknown_are_refused() {
    let mut bytes = encode_vm(&vm_state()).unwrap();
    let fewer = StartupStates {
        count: 70000,
        running: RUNNING,
    };
    let restore = |bytes: &[u8], states| {
        restore_vm(bytes, states, Ok(vm_state().features), Some(3_000_000_000), 3)
    };
    assert!(restore(&bytes, STATES).is_ok());
    let text = "OtherString(\"invalid value: integer `70000`, \
                expected variant index 0 <= i < 70000\")";
    assert!(matches!(restore(&bytes, fewer), Err(StateError::Codec(said)) if said == text));
    assert!(matches!(decode_vm(&bytes, 70000), Err(CodecError::Faulty(said)) if said == text));
    bytes.push(0);
    assert!(matches!(restore(&bytes, fewer), Err(StateError::Codec(said)) if said == text));
    let first = StartupStates {
        count: 1,
        running: RUNNING,
    };
    assert!(matches!(
        restore(&bytes, first),
        Err(StateError::Codec(said)) if said.contains("`1`") && said.contains("< 1\"")
    ));
    let parked = StartupStates {
        count: 70001,
        running: 1,
    };
    bytes.pop();
    assert!(matches!(restore(&bytes, parked), Err(StateError::MachineDiffers)));
}

#[test]
fn the_first_processor_must_run() {
    let install = |startup: Vec<u32>| {
        let slots = startup.len();
        let state = VmState {
            startup,
            ..vm_state()
        };
        install_vm(state, STATES, Ok(vm_state().features), Some(3_000_000_000), slots)
    };
    assert!(install(vec![RUNNING]).is_ok());
    assert!(matches!(install(vec![1, 0]), Err(StateError::MachineDiffers)));
    assert!(matches!(install(vec![]), Err(StateError::MachineDiffers)));
}

#[test]
fn capture_tells_the_first_thing_that_is_missing() {
    assert!(matches!(
        capture_vm(None, Err(StateError::Backend), None),
        Err(StateError::StartupPoisoned)
    ));
    assert!(matches!(
        capture_vm(Some(vec![]), Err(StateError::Backend), None),
        Err(StateError::Backend)
    ));
    assert!(matches!(
        capture_vm(Some(vec![]), Ok(vec![]), None),
        Err(StateError::NoFrequency)
    ));
    assert!(matches!(frequency(Some(5)), Ok(5)));
}

#[test]
fn cpu_state_restores_to_a_processor_with_the_same_registers() {
    let names = vec![0, -2147483648];
    let values = vec![[7; 16], [8; 16], [9; 16]];
    let CpuState {
        xsave, apic, synic, ..
    } = cpu_state();
    let bytes = capture_cpu(3, &names, &values, xsave, apic, synic).unwrap();
    assert_eq!(bytes, encode_cpu(&cpu_state()).unwrap());
    let restore = restore_cpu(3, &bytes, Ok(names.clone())).unwrap();
    assert_eq!(restore.cpu, 3);
    assert_eq!(restore.values, vec![[7; 16], [8; 16]]);
    assert_eq!(
        restore.states,
        vec![
            (whp::WHvVirtualProcessorStateTypeXsaveState, vec![1; 1000]),
            (
                whp::WHvVirtualProcessorStateTypeInterruptControllerState2,
                vec![2; 3]
            ),
            (whp::WHvVirtualProcessorStateTypeSynicMessagePage, vec![]),
            (whp::WHvVirtualProcessorStateTypeSynicEventFlagPage, vec![4]),
            (whp::WHvVirtualProcessorStateTypeSynicTimerState, vec![5, 6]),
        ]
    );
    assert!(matches!(
        restore_cpu(3, &bytes, Ok(vec![0])),
        Err(StateError::RegistersDiffer)
    ));
    assert!(matches!(
        restore_cpu(3, &bytes, Ok(vec![0, 1])),
        Err(StateError::RegistersDiffer)
    ));
    assert!(matches!(
        restore_cpu(3, &bytes, Err(StateError::Backend)),
        Err(StateError::Backend)
    ));
    assert!(matches!(
        restore_cpu(3, &bytes[1..], Err(StateError::Backend)),
        Err(StateError::Codec(_)) | Err(StateError::TrailingBytes)
    ));
    assert!(matches!(
        restore_cpu(256, &[], Ok(names)),
        Err(StateError::CpuIndex(256))
    ));
    assert!(matches!(
        install_cpu(0, cpu_state(), Ok(vec![])),
        Err(StateError::RegistersDiffer)
    ));
}

#[test]
fn processors_have_small_numbers() {
    assert!(matches!(cpu_index(255), Ok(255)));
    assert!(matches!(cpu_index(256), Err(StateError::CpuIndex(256))));
    let text = u8::try_from(256u32).unwrap_err().to_string();
    assert_eq!(StateError::CpuIndex(256).message(), Some(text));
    assert!(matches!(
        capture_cpu(256, &vec![], &vec![], vec![], vec![], [vec![], vec![], vec![]]),
        Err(StateError::CpuIndex(256))
    ));
}

#[test]
fn mandatory_registers_are_those_of_the_hypervisor() {
    let mut names: Vec<i32> = (whp::WHvX64RegisterRax..=whp::WHvX64RegisterXCr0).collect();
    names.extend([
        whp::WHvX64RegisterTsc,
        whp::WHvX64RegisterEfer,
        whp::WHvX64RegisterKernelGsBase,
        whp::WHvX64RegisterApicBase,
        whp::WHvX64RegisterPat,
        whp::WHvX64RegisterSysenterCs,
        whp::WHvX64RegisterSysenterEip,
        whp::WHvX64RegisterSysenterEsp,
        whp::WHvX64RegisterStar,
        whp::WHvX64RegisterLstar,
        whp::WHvX64RegisterCstar,
        whp::WHvX64RegisterSfmask,
        whp::WHvRegisterPendingInterruption,
        whp::WHvRegisterInterruptState,
        whp::WHvRegisterPendingEvent,
        whp::WHvX64RegisterDeliverabilityNotifications,
        whp::WHvRegisterInternalActivityState,
    ]);
    assert_eq!(mandatory_registers(), names);
}

#[test]
fn optional_registers_are_those_of_the_hypervisor() {
    let mut names = vec![
        whp::WHvX64RegisterTscAux,
        whp::WHvX64RegisterTscDeadline,
        whp::WHvX64RegisterTscAdjust,
        whp::WHvX64RegisterBndcfgs,
        whp::WHvX64RegisterSpecCtrl,
        whp::WHvX64RegisterTsxCtrl,
        whp::WHvX64RegisterXss,
        whp::WHvX64RegisterUCet,
        whp::WHvX64RegisterSCet,
        whp::WHvX64RegisterSsp,
        whp::WHvX64RegisterPl0Ssp,
        whp::WHvX64RegisterPl1Ssp,
        whp::WHvX64RegisterPl2Ssp,
        whp::WHvX64RegisterPl3Ssp,
        whp::WHvX64RegisterInterruptSspTableAddr,
        whp::WHvX64RegisterUmwaitControl,
        whp::WHvX64RegisterXfd,
        whp::WHvX64RegisterXfdErr,
        whp::WHvX64RegisterPendingDebugException,
        whp::WHvX64RegisterMsrMtrrDefType,
        whp::WHvRegisterGuestOsId,
        whp::WHvX64RegisterHypercall,
        whp::WHvRegisterVpAssistPage,
        whp::WHvRegisterReferenceTsc,
        whp::WHvRegisterReferenceTscSequence,
        whp::WHvRegisterScontrol,
        whp::WHvRegisterSiefp,
        whp::WHvRegisterSimp,
    ];
    names.extend(whp::WHvX64RegisterMsrMtrrPhysBase0..=whp::WHvX64RegisterMsrMtrrPhysBaseF);
    names.extend(whp::WHvX64RegisterMsrMtrrPhysMask0..=whp::WHvX64RegisterMsrMtrrPhysMaskF);
    names.extend(whp::WHvX64RegisterMsrMtrrFix64k00000..=whp::WHvX64RegisterMsrMtrrFix4kF8000);
    names.extend(whp::WHvRegisterSint0..=whp::WHvRegisterSint15);
    assert_eq!(optional_registers(), names);
}

#[test]
fn absent_registers_are_left_out_and_failures_are_not() {
    let supported = ProbeReply::Supported;
    let absent = |code: u32| ProbeReply::Failed {
        hresult: code as i32,
    };
    let mut replies = vec![
        supported,
        absent(0x8007_0057),
        absent(0xc035_0005),
        absent(0x8037_0302),
        supported,
    ];
    replies.resize(optional_registers().len(), absent(0x8007_0057));
    let names = register_names(&replies).unwrap();
    let mut expected = mandatory_registers();
    expected.push(optional_registers()[0]);
    expected.push(optional_registers()[4]);
    assert_eq!(names, expected);

    assert!(matches!(
        register_names(&vec![supported, absent(0x8000_4005), ProbeReply::Broken]),
        Err(StateError::Registers { hresult: -2147467259 })
    ));
    assert!(matches!(
        register_names(&vec![absent(0x8007_0057), ProbeReply::Broken]),
        Err(StateError::Backend)
    ));
    assert!(search_fault(supported).is_none());
    assert!(search_fault(absent(0xc035_0005)).is_none());
    assert!(matches!(
        search_fault(absent(0x8000_4005)),
        Some(StateError::Registers { hresult: -2147467259 })
    ));
    assert!(matches!(search_fault(ProbeReply::Broken), Some(StateError::Backend)));
    let all = vec![supported; optional_registers().len()];
    assert_eq!(
        register_names(&all).unwrap(),
        [mandatory_registers(), optional_registers()].concat()
    );
}

#[test]
fn features_are_the_bytes_that_were_written() {
    assert_eq!(
        feature_properties(),
        [
            whp::WHvPartitionPropertyCodeProcessorFeaturesBanks,
            whp::WHvPartitionPropertyCodeProcessorXsaveFeatures,
            whp::WHvPartitionPropertyCodeLocalApicEmulationMode,
            whp::WHvPartitionPropertyCodeInterruptClockFrequency,
        ]
    );
    let mut reply = FeatureReply {
        status: 0,
        written: 10,
        buffer: [0x0807_0605_0403_0201; 32],
    };
    assert_eq!(
        feature_bytes(1, &reply).unwrap(),
        vec![1, 2, 3, 4, 5, 6, 7, 8, 1, 2]
    );
    reply.written = 256;
    assert_eq!(feature_bytes(1, &reply).unwrap().len(), 256);
    let good = reply;
    for (status, written) in [(0, 0), (0, 257), (-1, 8)] {
        reply.status = status;
        reply.written = written;
        assert!(matches!(
            features(&vec![good, reply, good, good]),
            Err(StateError::Feature { code: 4102, status: told }) if told == status
        ));
        assert!(matches!(
            features(&vec![good, good, reply]),
            Err(StateError::Feature { code: 4101, status: told }) if told == status
        ));
    }
    assert_eq!(features(&vec![good, good, good, good]).unwrap().len(), 4);
}

#[test]
fn errors_are_spelled_out() {
    let text = |error: StateError| error.message().unwrap();
    assert_eq!(text(StateError::StartupPoisoned), "startup state mutex poisoned");
    assert_eq!(text(StateError::Codec(String::from("odd"))), "odd");
    assert_eq!(text(StateError::TrailingBytes), "trailing WHP x86 state bytes");
    assert_eq!(
        text(StateError::NoFrequency),
        "WHP processor clock frequency unavailable"
    );
    assert_eq!(
        text(StateError::MachineDiffers),
        "WHP x86 processor features, frequency or topology differ"
    );
    assert_eq!(
        text(StateError::RegistersDiffer),
        "WHP x86 register contract differs"
    );
    let (code, status) = (4106, -2147024809);
    assert_eq!(
        text(StateError::Feature { code, status }),
        format!("partition feature {code:#x}: HRESULT {status:#x}")
    );
    assert!(StateError::Backend.message().is_none());
    assert!(StateError::Registers { hresult: 1 }.message().is_none());
}
