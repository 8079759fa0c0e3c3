use nutcase::chipset::{supported_devices, ChipsetSpec, GpuGeneration};
use nutcase::drm::{
    ioctl, param, DrmFile, DrmOps, GemCreateRequest, GemInfoRequest, GemMmapRequest,
    GetParamRequest, NovaDrm,
};
use nutcase::gsp::{
    category, ErrorMessage, GspClient, GspMessage, GspResponse, JobCompleteMessage,
    JobSubmitMessage, JobType, MailboxRegs, MemoryAllocMessage, MemoryResponseMessage, RingBuffer,
};
use nutcase::memory::{DmaBuffer, GemHandle, GemObject, MemoryFlags};
use nutcase::nova_core::{
    generate_pci_table, regs, Bar0, Firmware, Gpu, NovaCore, PciDeviceId, RegisterAccess,
    ResetAction, ResetPhase, MAX_IDLE_POLLS,
};
use nutcase::wire::{WireDecode, WireEncode, WireLayout};
use nutcase::{Error, NVIDIA_VENDOR_ID};

const CHIPS: [(u32, GpuGeneration, u16, &str); 16] = [
    (0x162, GpuGeneration::Turing, 0x1e02, "TU102"),
    (0x164, GpuGeneration::Turing, 0x1e04, "TU104"),
    (0x166, GpuGeneration::Turing, 0x1e07, "TU106"),
    (0x167, GpuGeneration::Turing, 0x1e82, "TU117"),
    (0x168, GpuGeneration::Turing, 0x1e84, "TU116"),
    (0x170, GpuGeneration::Ampere, 0x2200, "GA100"),
    (0x172, GpuGeneration::Ampere, 0x2204, "GA102"),
    (0x173, GpuGeneration::Ampere, 0x2206, "GA103"),
    (0x174, GpuGeneration::Ampere, 0x2208, "GA104"),
    (0x176, GpuGeneration::Ampere, 0x2216, "GA106"),
    (0x177, GpuGeneration::Ampere, 0x2220, "GA107"),
    (0x188, GpuGeneration::Ada, 0x2684, "AD102"),
    (0x189, GpuGeneration::Ada, 0x2704, "AD103"),
    (0x190, GpuGeneration::Ada, 0x2782, "AD104"),
    (0x191, GpuGeneration::Ada, 0x2786, "AD106"),
    (0x192, GpuGeneration::Ada, 0x2820, "AD107"),
];

#[test]
fn every_known_chip_is_detected() {
    for (chip, generation, device, name) in CHIPS {
        let spec = ChipsetSpec::detect_from_register(chip << 20).unwrap();
        assert_eq!(spec.generation, generation);
        assert_eq!(spec.device_id, device);
        assert_eq!(spec.name, name);
    }
}

#[test]
fn detection_ignores_low_bits() {
    let a = ChipsetSpec::detect_from_register(0x1620_0000).unwrap();
    let b = ChipsetSpec::detect_from_register(0x162F_FFFF).unwrap();
    assert_eq!(a, b);
    assert_eq!(b.name, "TU102");
}

#[test]
fn unknown_chips_are_no_device() {
    for reg in [0u32, 0x1630_0000, 0x1710_0000, 0x1930_0000, 0x0010_0000] {
        assert_eq!(ChipsetSpec::detect_from_register(reg), Err(Error::NoDevice));
    }
}

#[test]
fn supported_devices_are_detectable() {
    for (device, name) in supported_devices() {
        let hit = CHIPS
            .iter()
            .find(|c| c.2 == device)
            .expect("every supported device has a chip id");
        let spec = ChipsetSpec::detect_from_register(hit.0 << 20).unwrap();
        assert_eq!(spec.device_id, device);
        assert_eq!(spec.name, name);
    }
}

#[test]
fn chipset_new_keeps_fields() {
    let s = ChipsetSpec::new(GpuGeneration::Ada, 0x2820, "AD107");
    assert_eq!(s.generation, GpuGeneration::Ada);
    assert_eq!(s.device_id, 0x2820);
    assert_eq!(s.name, "AD107");
}

#[test]
fn every_error_has_its_errno_and_text() {
    let all = [
        (Error::NoMem, -12, "Out of memory"),
        (Error::Invalid, -22, "Invalid argument"),
        (Error::NoDevice, -19, "No such device"),
        (Error::Timeout, -110, "Timeout"),
        (Error::Io, -5, "I/O error"),
        (Error::Again, -11, "Try again"),
        (Error::Busy, -16, "Device busy"),
        (Error::NotSupported, -95, "Not supported"),
        (Error::PermissionDenied, -13, "Permission denied"),
    ];
    for (e, errno, text) in all {
        assert_eq!(e.to_errno(), errno);
        assert_eq!(e.message(), text);
    }
    for (a, ea, _) in all {
        for (b, eb, _) in all {
            assert_eq!(ea == eb, a == b);
        }
    }
}

#[test]
fn dma_buffer_starts_zeroed() {
    let b = DmaBuffer::new(0x1234, 0x5000, 16);
    assert_eq!(b.as_slice(), &[0u8; 16]);
    assert_eq!(b.virt_addr(), 0x1234);
    assert_eq!(b.dma_addr(), 0x5000);
}

#[test]
fn dma_write_out_of_bounds_is_invalid_and_changes_nothing() {
    let mut b = DmaBuffer::new(0, 0, 8);
    assert_eq!(b.write(5, &0x1122_3344u32), Err(Error::Invalid));
    assert_eq!(b.write(usize::MAX, &1u8), Err(Error::Invalid));
    assert_eq!(b.as_slice(), &[0u8; 8]);
    assert_eq!(b.read::<u64>(1), Err(Error::Invalid));
    assert_eq!(b.write(4, &0x1122_3344u32), Ok(()));
    assert_eq!(b.as_slice(), &[0, 0, 0, 0, 0x44, 0x33, 0x22, 0x11]);
}

#[test]
fn dma_write_then_read_at_end() {
    let mut b = DmaBuffer::new(0, 0, 4096);
    b.write(4088, &0x0102_0304_0506_0708u64).unwrap();
    assert_eq!(b.read::<u64>(4088), Ok(0x0102_0304_0506_0708u64));
    b.write(7, &0xabcdu16).unwrap();
    assert_eq!(b.read::<u16>(7), Ok(0xabcd));
    assert_eq!(b.read::<u8>(7), Ok(0xcd));
}

#[test]
fn dma_mut_slice_writes_through() {
    let mut b = DmaBuffer::new(0, 0, 4);
    b.as_mut_slice()[2] = 9;
    assert_eq!(b.read::<u8>(2), Ok(9));
}

#[test]
fn gem_object_attach() {
    let mut obj = GemObject::new(GemHandle(7), 100);
    obj.attach_dma_buffer(DmaBuffer::new(0, 0xabc, 100));
    assert_eq!(obj.dma_buffer().unwrap().dma_addr(), 0xabc);
    assert_eq!(obj.handle(), GemHandle(7));
    assert_eq!(obj.size(), 100);
}

#[test]
fn memory_flag_bits_are_independent() {
    for bits in 0u32..8 {
        let f = MemoryFlags::new(bits);
        assert_eq!(f.bits(), bits);
        assert_eq!(f.is_coherent(), bits & 1 != 0);
        assert_eq!(f.is_cached(), bits & 2 != 0);
        assert_eq!(f.is_write_combined(), bits & 4 != 0);
    }
}

#[test]
fn drm_handles_are_sequential_and_info_reports_sizes() {
    let mut drm = NovaDrm::new(0x2204, 1 << 30, 3);
    let mut handles = Vec::new();
    for size in [4096u64, 8192, 12288] {
        let mut req = GemCreateRequest { size, handle: 0, flags: 5 };
        drm.handle_gem_create(&mut req).unwrap();
        assert_eq!(req.flags, 5);
        handles.push((req.handle, size));
    }
    assert_eq!(handles.iter().map(|h| h.0).collect::<Vec<_>>(), vec![1, 2, 3]);
    for (h, size) in handles {
        let mut info = GemInfoRequest { handle: h, size: 0, offset: 99 };
        drm.handle_gem_info(&mut info).unwrap();
        assert_eq!(info.size, size);
        assert_eq!(info.offset, 0);
    }
    assert_eq!(drm.gem_object_count(), 3);
}

#[test]
fn drm_refused_create_changes_nothing() {
    let mut drm = NovaDrm::new(1, 2, 3);
    let mut req = GemCreateRequest { size: 0, handle: 77, flags: 0 };
    assert_eq!(drm.handle_gem_create(&mut req), Err(Error::Invalid));
    assert_eq!(req.handle, 77);
    assert_eq!(drm.gem_object_count(), 0);
    let mut ok = GemCreateRequest { size: 1, handle: 0, flags: 0 };
    drm.handle_gem_create(&mut ok).unwrap();
    assert_eq!(ok.handle, 1);
}

#[test]
fn drm_info_and_mmap_on_unknown_handle() {
    let mut drm = NovaDrm::new(1, 2, 3);
    let mut info = GemInfoRequest { handle: 1, size: 5, offset: 6 };
    assert_eq!(drm.handle_gem_info(&mut info), Err(Error::Invalid));
    assert_eq!((info.size, info.offset), (5, 6));
    let mut req = GemCreateRequest { size: 4096, handle: 0, flags: 0 };
    drm.handle_gem_create(&mut req).unwrap();
    let mut info0 = GemInfoRequest { handle: 0, size: 0, offset: 0 };
    assert_eq!(drm.handle_gem_info(&mut info0), Err(Error::Invalid));
    let mut m = GemMmapRequest { handle: 2, offset: 0, size: 1, addr: 9 };
    assert_eq!(drm.handle_gem_mmap(&mut m), Err(Error::Invalid));
    assert_eq!(m.addr, 9);
}

#[test]
fn drm_mmap_checks_range() {
    let mut drm = NovaDrm::new(1, 2, 3);
    let mut req = GemCreateRequest { size: 4096, handle: 0, flags: 0 };
    drm.handle_gem_create(&mut req).unwrap();
    for (offset, size, ok) in [
        (0u64, 4096u64, true),
        (3, 4093, true),
        (4096, 0, true),
        (3, 4096, false),
        (0, 4097, false),
        (4096, 4096, false),
        (u64::MAX, 2, false),
        (2, u64::MAX, false),
    ] {
        let mut m = GemMmapRequest { handle: 1, offset, size, addr: 9 };
        let r = drm.handle_gem_mmap(&mut m);
        if ok {
            assert_eq!(r, Ok(()));
            assert_eq!((m.addr, m.offset, m.size), (0, offset, size));
        } else {
            assert_eq!(r, Err(Error::Invalid));
            assert_eq!(m.addr, 9);
        }
    }
}

#[test]
fn drm_mmap_past_the_end_is_refused() {
    let mut drm = NovaDrm::new(0x2204, 8_589_934_592, 1);
    let mut c = GemCreateRequest { size: 4096, handle: 0, flags: 0 };
    drm.handle_gem_create(&mut c).unwrap();
    let mut m = GemMmapRequest { handle: c.handle, offset: 4096, size: 4096, addr: 0 };
    assert_eq!(drm.handle_gem_mmap(&mut m), Err(Error::Invalid));
}

#[test]
fn drm_getparam_every_parameter() {
    let drm = NovaDrm::new(0x2684, 24 << 30, 7);
    let expect = [
        (param::CHIPSET_ID, 0x2684u64),
        (param::VRAM_SIZE, 24 << 30),
        (param::DRIVER_VERSION, 1),
        (param::FIRMWARE_VERSION, 7),
    ];
    for (p, v) in expect {
        let mut req = GetParamRequest { param: p, value: 0 };
        drm.handle_getparam(&mut req).unwrap();
        assert_eq!(req.value, v);
    }
    let mut bad = GetParamRequest { param: 4, value: 11 };
    assert_eq!(drm.handle_getparam(&mut bad), Err(Error::Invalid));
    assert_eq!(bad.value, 11);
    assert_eq!(drm.device_id(), 0x2684);
    assert_eq!(drm.vram_size(), 24 << 30);
    assert_eq!(drm.driver_version(), 1);
    assert_eq!(drm.firmware_version(), 7);
}

#[test]
fn drm_ioctl_dispatch() {
    let mut drm = NovaDrm::new(1, 2, 3);
    let mut file = DrmFile::new(4);
    assert_eq!(drm.open(&mut file), Ok(()));
    assert_eq!(drm.ioctl(&file, ioctl::GETPARAM, param::VRAM_SIZE as u64), Ok(()));
    assert_eq!(drm.ioctl(&file, ioctl::GETPARAM, 9), Err(Error::Invalid));
    assert_eq!(drm.ioctl(&file, ioctl::GEM_INFO, 1), Err(Error::Invalid));
    assert_eq!(drm.ioctl(&file, ioctl::GEM_CREATE, 0), Err(Error::Invalid));
    assert_eq!(drm.gem_object_count(), 0);
    assert_eq!(drm.ioctl(&file, ioctl::GEM_CREATE, 4096), Ok(()));
    assert_eq!(drm.gem_object_count(), 1);
    assert_eq!(drm.ioctl(&file, ioctl::GEM_INFO, 1), Ok(()));
    assert_eq!(drm.ioctl(&file, ioctl::GEM_MMAP, 1), Ok(()));
    assert_eq!(drm.ioctl(&file, ioctl::GEM_MMAP, 2), Err(Error::Invalid));
    assert_eq!(drm.ioctl(&file, 0x42, 0), Err(Error::NotSupported));
    assert_eq!(drm.gem_object_count(), 1);
    assert_eq!(drm.close(&file), Ok(()));
}

#[test]
fn drm_file_authentication() {
    let mut f = DrmFile::new(3);
    assert!(!f.is_authenticated());
    f.authenticate();
    assert!(f.is_authenticated());
    assert_eq!(f.fd, 3);
}

#[test]
fn bar_checks_register_bounds() {
    let bar = Bar0::new(0x1000, 0x208);
    assert_eq!(bar.base_addr(), 0x1000);
    assert_eq!(bar.size(), 0x208);
    assert_eq!(bar.check_u32_access(regs::PMC_STATUS), Ok(()));
    assert_eq!(bar.check_u32_access(0x205), Err(Error::Invalid));
    assert_eq!(bar.check_u32_access(u32::MAX), Err(Error::Invalid));
    assert_eq!(Bar0::new(0, 3).check_u32_access(0), Err(Error::Invalid));
}

#[test]
fn gpu_bring_up() {
    let gpu = Gpu::new(Bar0::new(0, 16 << 20), 0x1720_00a1).unwrap();
    assert_eq!(gpu.spec().name, "GA102");
    assert!(gpu.firmware().is_loaded());
    assert_eq!(gpu.firmware().version(), 1);
    assert_eq!(gpu.bar().size(), 16 << 20);
    assert!(matches!(Gpu::new(Bar0::new(0, 3), 0x1620_0000), Err(Error::Invalid)));
    assert!(matches!(Gpu::new(Bar0::new(0, 4), 0x1620_0000), Ok(_)));
    assert!(matches!(Gpu::new(Bar0::new(0, 4), 0), Err(Error::NoDevice)));
}

#[test]
fn firmware_states() {
    let mut fw = Firmware::new();
    assert!(!fw.is_loaded());
    assert_eq!(fw.version(), 0);
    let d = Firmware::default();
    assert!(!d.is_loaded());
    let spec = ChipsetSpec::new(GpuGeneration::Turing, 0x1e02, "TU102");
    assert_eq!(fw.load(&spec), Ok(()));
    assert!(fw.is_loaded());
    assert_eq!(fw.version(), 1);
}

#[test]
fn nova_core_bring_up() {
    let mut core = NovaCore::new(0x8000, 1 << 24, 0x1920_0000).unwrap();
    assert_eq!(core.gpu().spec().device_id, 0x2820);
    assert_eq!(core.gpu_mut().bar().base_addr(), 0x8000);
    assert!(matches!(NovaCore::new(0, 0, 0x1920_0000), Err(Error::Invalid)));
}

/// Runs a reset against register reads that report idle on the
/// `idle_at`-th read of PMC_STATUS, returning the accesses and the result.
fn run_reset(gpu: &Gpu, idle_at: u32) -> (Vec<RegisterAccess>, Result<(), Error>) {
    let mut accesses = Vec::new();
    let mut reads = 0u32;
    let mut action = gpu.reset_start();
    loop {
        match action {
            ResetAction::Finish(r) => return (accesses, r),
            ResetAction::Access { access, then } => {
                accesses.push(access);
                let value = match access {
                    RegisterAccess::Read { .. } => {
                        reads += 1;
                        if reads == idle_at {
                            regs::PMC_STATUS_IDLE
                        } else {
                            0
                        }
                    }
                    RegisterAccess::Write { .. } => 0,
                };
                action = gpu.reset_continue(then, value);
            }
        }
    }
}

#[test]
fn reset_disables_polls_and_enables() {
    let gpu = Gpu::new(Bar0::new(0, 0x1000), 0x1620_0000).unwrap();
    let (accesses, r) = run_reset(&gpu, 3);
    assert_eq!(r, Ok(()));
    assert_eq!(
        accesses,
        vec![
            RegisterAccess::Write { offset: regs::PMC_ENABLE, value: 0 },
            RegisterAccess::Read { offset: regs::PMC_STATUS },
            RegisterAccess::Read { offset: regs::PMC_STATUS },
            RegisterAccess::Read { offset: regs::PMC_STATUS },
            RegisterAccess::Write { offset: regs::PMC_ENABLE, value: 0xffff_ffff },
        ]
    );
}

#[test]
fn reset_times_out_after_max_polls() {
    let gpu = Gpu::new(Bar0::new(0, 0x1000), 0x1620_0000).unwrap();
    let (accesses, r) = run_reset(&gpu, u32::MAX);
    assert_eq!(r, Err(Error::Timeout));
    assert_eq!(accesses.len() as u32, 1 + MAX_IDLE_POLLS);
    let (accesses, r) = run_reset(&gpu, MAX_IDLE_POLLS);
    assert_eq!(r, Ok(()));
    assert_eq!(accesses.len() as u32, 2 + MAX_IDLE_POLLS);
}

#[test]
fn reset_on_small_window_is_invalid() {
    let gpu = Gpu::new(Bar0::new(0, 0x203), 0x1620_0000).unwrap();
    let (accesses, r) = run_reset(&gpu, 1);
    assert_eq!(r, Err(Error::Invalid));
    assert!(accesses.is_empty());
    // PMC_ENABLE fits, PMC_STATUS does not
    let gpu = Gpu::new(Bar0::new(0, 0x207), 0x1620_0000).unwrap();
    let (accesses, r) = run_reset(&gpu, 1);
    assert_eq!(r, Err(Error::Invalid));
    assert_eq!(accesses.len(), 1);
}

#[test]
fn wait_for_idle_alone() {
    let gpu = Gpu::new(Bar0::new(0, 0x1000), 0x1620_0000).unwrap();
    match gpu.wait_for_idle_start() {
        ResetAction::Access { access, then } => {
            assert_eq!(access, RegisterAccess::Read { offset: regs::PMC_STATUS });
            assert_eq!(then, ResetPhase::Polling { attempt: 0, enable_after: false });
            assert!(matches!(gpu.reset_continue(then, 1), ResetAction::Finish(Ok(()))));
            assert!(matches!(
                gpu.reset_continue(then, 2),
                ResetAction::Access { then: ResetPhase::Polling { attempt: 1, .. }, .. }
            ));
        }
        ResetAction::Finish(_) => panic!("the window holds PMC_STATUS"),
    }
}

#[test]
fn pci_table_devices_are_detectable() {
    let table = generate_pci_table();
    for entry in table {
        assert_eq!(entry.vendor, NVIDIA_VENDOR_ID);
        assert!(CHIPS.iter().any(|c| c.2 == entry.device));
    }
    assert_eq!(table[14].device, 0x2820);
    let supported = supported_devices();
    for i in 0..15 {
        assert_eq!(table[i].device, supported[i].0);
    }
    // AD107, as detected, can be bound
    let ad107 = ChipsetSpec::detect_from_register(0x1920_0000).unwrap();
    assert!(table.iter().any(|e| e.device == ad107.device_id));
    let id = PciDeviceId::new(1, 2);
    assert_eq!((id.vendor, id.device), (1, 2));
}

#[test]
fn message_layouts() {
    let h = GspMessage::new(0x0403_0201, category::ERROR, 0x0605);
    assert_eq!(
        h.to_wire(),
        vec![1, 2, 3, 4, 0, 0, 5, 6, 0xff, 0, 0, 0, 0, 0, 0, 0]
    );
    assert_eq!(GspMessage::read_wire(&h.to_wire()), h);
    assert_eq!(GspMessage::wire_size(), 16);
    assert_eq!(JobSubmitMessage::wire_size(), 48);
    assert_eq!(MemoryAllocMessage::wire_size(), 40);
    let jc = JobCompleteMessage { header: h, fence_id: 0x1122_3344_5566_7788, status: 9 };
    assert_eq!(JobCompleteMessage::read_wire(&jc.to_wire()), jc);
    let mr = MemoryResponseMessage { header: h, handle: 5, gpu_addr: 0xdead_0000 };
    assert_eq!(MemoryResponseMessage::read_wire(&mr.to_wire()), mr);
    let em = ErrorMessage { header: h, error_code: 3, error_info: 4 };
    assert_eq!(ErrorMessage::read_wire(&em.to_wire()), em);
    assert_eq!(
        [JobType::Graphics, JobType::Compute, JobType::Copy, JobType::VideoDecode, JobType::VideoEncode]
            .map(|j| j.code()),
        [0, 1, 2, 3, 4]
    );
}

#[test]
fn ring_is_fifo() {
    let mut ring = RingBuffer::new(DmaBuffer::new(0, 0, 64));
    let a = GspMessage::new(1, category::SYNC, 16);
    let b = JobCompleteMessage { header: GspMessage::new(2, category::JOB_COMPLETE, 32), fence_id: 7, status: 0 };
    ring.write(&a).unwrap();
    ring.write(&b).unwrap();
    assert_eq!(ring.read::<GspMessage>(), Ok(Some(a)));
    assert_eq!(ring.read::<JobCompleteMessage>(), Ok(Some(b)));
    assert_eq!(ring.read::<GspMessage>(), Ok(None));
}

#[test]
fn ring_busy_and_wrap() {
    let mut ring = RingBuffer::new(DmaBuffer::new(0, 0, 40));
    let m = GspMessage::new(1, category::SYNC, 16);
    ring.write(&m).unwrap();
    ring.write(&m).unwrap();
    // 32 of 40 bytes pending, 7 free: a 16-byte message does not fit
    assert_eq!(ring.write(&m), Err(Error::Busy));
    assert_eq!(ring.available_read(), 32);
    assert_eq!(ring.read::<GspMessage>(), Ok(Some(m)));
    // 23 bytes free: the message wraps around the end of the buffer
    let w = GspMessage::new(2, category::SYNC, 16);
    assert_eq!(ring.write(&w), Ok(()));
    assert_eq!(ring.read::<GspMessage>(), Ok(Some(m)));
    assert_eq!(ring.peek::<GspMessage>(), Some(w));
    assert_eq!(ring.read::<GspMessage>(), Ok(Some(w)));
    assert_eq!(ring.read::<GspMessage>(), Ok(None));
    assert_eq!(ring.available_read(), 0);
}

#[test]
fn ring_of_six_keeps_accepting() {
    let mut ring = RingBuffer::new(DmaBuffer::new(0, 0, 6));
    for v in 0u32..20 {
        assert_eq!(ring.write(&v), Ok(()));
        assert_eq!(ring.read::<u32>(), Ok(Some(v)));
    }
    assert_eq!(ring.write(&1u32), Ok(()));
    assert_eq!(ring.write(&2u8), Ok(()));
    assert_eq!(ring.write(&3u8), Err(Error::Busy));
    ring.discard(4);
    assert_eq!(ring.read::<u8>(), Ok(Some(2)));
}

#[test]
fn gsp_submit_and_alloc() {
    let mut gsp = GspClient::new(DmaBuffer::new(0, 0x1000_0000, 4096), 0x9000);
    gsp.set_context_handle(1);
    assert_eq!(gsp.mailbox().base_addr(), 0x9000);
    let cmd = DmaBuffer::new(0, 0x2000_0000, 1024);
    assert_eq!(gsp.submit_job(JobType::Graphics, &cmd, 42), Ok(()));
    assert_eq!(gsp.alloc_memory(8192, MemoryFlags::COHERENT), Ok(0));
    // the queue only carries the driver's own messages: none is a response
    assert_eq!(gsp.poll_responses(), Ok(vec![]));
}

#[test]
fn gsp_queue_full() {
    let mut gsp = GspClient::new(DmaBuffer::new(0, 0, 64), 0);
    let cmd = DmaBuffer::new(0, 0, 8);
    assert_eq!(gsp.submit_job(JobType::Compute, &cmd, 1), Ok(()));
    assert_eq!(gsp.submit_job(JobType::Compute, &cmd, 2), Err(Error::Busy));
    assert_eq!(gsp.alloc_memory(1, 0), Err(Error::Busy));
}

#[test]
fn gsp_poll_returns_responses_in_order() {
    let mut ring = RingBuffer::new(DmaBuffer::new(0, 0, 80));
    let jc = JobCompleteMessage {
        header: GspMessage::new(1, category::JOB_COMPLETE, 32),
        fence_id: 42,
        status: 0,
    };
    let mr = MemoryResponseMessage {
        header: GspMessage::new(2, category::MEMORY_RESPONSE, 32),
        handle: 7,
        gpu_addr: 0x1_0000,
    };
    let em = ErrorMessage { header: GspMessage::new(3, category::ERROR, 32), error_code: 5, error_info: 6 };
    ring.write(&jc).unwrap();
    ring.write(&mr).unwrap();
    assert_eq!(ring.read::<JobCompleteMessage>(), Ok(Some(jc)));
    // the third message wraps around the end of the buffer
    ring.write(&em).unwrap();
    let mut gsp = GspClient::with_queue(ring, 0);
    assert_eq!(
        gsp.poll_responses(),
        Ok(vec![
            GspResponse::MemoryAlloc { handle: 7, addr: 0x1_0000 },
            GspResponse::Error { code: 5, info: 6 },
        ])
    );
    assert_eq!(gsp.poll_responses(), Ok(vec![]));
}

#[test]
fn gsp_poll_single_response() {
    let mut ring = RingBuffer::new(DmaBuffer::new(0, 0, 4096));
    let jc = JobCompleteMessage {
        header: GspMessage::new(9, category::JOB_COMPLETE, 32),
        fence_id: 0xfeed,
        status: 3,
    };
    ring.write(&jc).unwrap();
    let mut gsp = GspClient::with_queue(ring, 0);
    assert_eq!(gsp.poll_responses(), Ok(vec![GspResponse::JobComplete { fence_id: 0xfeed, status: 3 }]));
}

#[test]
fn gsp_poll_leaves_incomplete_message() {
    let mut ring = RingBuffer::new(DmaBuffer::new(0, 0, 64));
    ring.write(&GspMessage::new(1, category::JOB_COMPLETE, 32)).unwrap();
    let mut gsp = GspClient::with_queue(ring, 0);
    assert_eq!(gsp.poll_responses(), Ok(vec![]));
    assert_eq!(gsp.poll_responses(), Ok(vec![]));
}

#[test]
fn gsp_poll_skips_other_messages_by_size() {
    let mut ring = RingBuffer::new(DmaBuffer::new(0, 0, 256));
    let mut other = GspMessage::new(1, category::SYNC, 24);
    ring.write(&other).unwrap();
    ring.write(&0xffu64).unwrap();
    // a header giving a size below its own is skipped as a bare header
    other.size = 3;
    ring.write(&other).unwrap();
    let em = ErrorMessage { header: GspMessage::new(2, category::ERROR, 32), error_code: 1, error_info: 2 };
    ring.write(&em).unwrap();
    let mut gsp = GspClient::with_queue(ring, 0);
    assert_eq!(gsp.poll_responses(), Ok(vec![GspResponse::Error { code: 1, info: 2 }]));
}

#[test]
fn gsp_queue_buffer_and_reload() {
    let mut gsp = GspClient::new(DmaBuffer::new(0x4000, 0x8000, 64), 0);
    let cmd = DmaBuffer::new(0, 0x2000, 8);
    gsp.submit_job(JobType::Compute, &cmd, 1).unwrap();
    let bytes = gsp.queue_buffer().as_slice().to_vec();
    assert_eq!(gsp.queue_buffer().virt_addr(), 0x4000);
    assert_eq!(gsp.queue_buffer().dma_addr(), 0x8000);
    assert_eq!(bytes[8], category::JOB_SUBMIT);
    assert_eq!(bytes[6], 48);
    let mut changed = bytes.clone();
    changed[20] = 0x77;
    gsp.load_queue(&changed);
    assert_eq!(gsp.queue_buffer().as_slice(), &changed[..]);
    assert_eq!(gsp.poll_responses(), Ok(vec![]));
}

#[test]
fn mailbox_regs_address() {
    assert_eq!(MailboxRegs::new(0x77).base_addr(), 0x77);
}
