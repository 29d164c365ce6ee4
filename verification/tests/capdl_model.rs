use sel4_support::capdl::cap;
use sel4_support::capdl::cap_table::{
    lookup_slot, ArchivedPageTableEntry, HasArchivedCapTable, HasCapTable, IRQ_SLOT_NOTIFICATION,
    TCB_SLOT_CSPACE, TCB_SLOT_FAULT_EP, TCB_SLOT_IPC_BUFFER, TCB_SLOT_VCPU, TCB_SLOT_VSPACE,
};
use sel4_support::capdl::embedded_frames::EmbeddedFramesData;
use sel4_support::capdl::error::{CSlotAllocatorError, CapDLInitializerError, KernelError};
use sel4_support::capdl::fill;
use sel4_support::capdl::fill::{
    IndirectBytesContent, IndirectDeflatedBytesContent, SelfContained, SelfContainedContent,
};
use sel4_support::capdl::frame_init::{
    copy_out_deflated, ArchivedFill, ArchivedFillEntryContentBootInfoId, ArchivedFrameInit,
    BytesContent, Content, CopyOutError, DeflatedBytesContent, EmbeddedFrameOffset, Fill,
    FillEntry, FillEntryContent, FillEntryContentBootInfo, FillEntryContentBootInfoId, FrameInit,
    GetEmbeddedFrameOffset, NeverEmbedded,
};
use sel4_support::capdl::indirect::Indirect;
use sel4_support::capdl::inspect::{EmbeddedFrameIndex, PackedContent};
use sel4_support::capdl::inspect_archived::IsArchivedObject;
use sel4_support::capdl::object;
use sel4_support::capdl::object_name::{ObjectName, ObjectNamesLevel, Unnamed};
use sel4_support::capdl::spec::{
    ArchivedCap, ArchivedNamedObject, ArchivedObject, ArchivedRights, ArchivedSpec, ArchivedWord,
    Cap, IrqEntry, NamedObject, Object, Rights, Spec, TryFromCapError, TryFromObjectError,
    UntypedCover,
};
use sel4_support::capdl::when_sel4::{vm_attributes_from_whether_cached, HasVmAttributes};
use sel4_support::sel4::object::{Arch, BootInfoExtraId, CapRights, VmAttributes};

fn rw() -> Rights {
    Rights { read: true, write: true, grant: false, grant_reply: false }
}

fn tcb_extra() -> object::TcbExtraInfo {
    object::TcbExtraInfo {
        ipc_buffer_addr: 0x1000,
        affinity: 0,
        prio: 100,
        max_prio: 120,
        resume: true,
        ip: 0x40_0000,
        sp: 0x80_0000,
        gprs: vec![1, 2, 3],
        master_fault_ep: Some(9),
    }
}

fn tcb() -> object::Tcb {
    object::Tcb {
        slots: vec![
            (TCB_SLOT_VSPACE, Cap::PageTable(cap::PageTable { object: 11 })),
            (TCB_SLOT_CSPACE, Cap::CNode(cap::CNode { object: 10, guard: 0, guard_size: 52 })),
            (TCB_SLOT_IPC_BUFFER, Cap::Frame(cap::Frame { object: 12, rights: rw(), cached: true })),
            (TCB_SLOT_FAULT_EP, Cap::Endpoint(cap::Endpoint { object: 13, badge: 7, rights: rw() })),
            (TCB_SLOT_CSPACE, Cap::CNode(cap::CNode { object: 99, guard: 1, guard_size: 1 })),
        ],
        extra: Box::new(tcb_extra()),
    }
}

fn data_entry(start: u64, end: u64, name: &str) -> FillEntry<String> {
    FillEntry { range: start..end, content: FillEntryContent::Data(String::from(name)) }
}

fn bootinfo_entry(start: u64, end: u64) -> FillEntry<String> {
    FillEntry {
        range: start..end,
        content: FillEntryContent::BootInfo(FillEntryContentBootInfo {
            id: FillEntryContentBootInfoId::Fdt,
            offset: 16,
        }),
    }
}

fn frame(size_bits: u8, paddr: Option<u64>, entries: Vec<FillEntry<String>>) -> Object<String, NeverEmbedded> {
    Object::Frame(object::Frame { size_bits, paddr, init: FrameInit::Fill(Fill { entries }) })
}

fn named(name: &str, object: Object<String, NeverEmbedded>) -> NamedObject<Option<String>, String, NeverEmbedded> {
    NamedObject { name: Some(String::from(name)), object }
}

fn sample_spec() -> Spec<Option<String>, String, NeverEmbedded> {
    Spec {
        objects: vec![
            named("root_frame", frame(12, None, vec![data_entry(0, 4, "a"), data_entry(8, 10, "b")])),
            named("thread", Object::Tcb(tcb())),
            named("empty_frame", frame(12, None, vec![])),
            named("late_frame", frame(12, None, vec![data_entry(0, 3, "c")])),
            named("ep", Object::Endpoint),
            named("boot_frame", frame(12, None, vec![bootinfo_entry(0, 8), data_entry(8, 9, "d")])),
            named("big_frame", frame(21, None, vec![data_entry(0, 2, "e")])),
            named("device_frame", frame(12, Some(0x9000_0000), vec![data_entry(0, 1, "f")])),
            named("ut", Object::Untyped(object::Untyped { size_bits: 20, paddr: Some(0x8000_0000) })),
        ],
        irqs: vec![IrqEntry { irq: 33, handler: 4 }],
        asid_slots: vec![5, 6],
        root_objects: 0..3,
        untyped_covers: vec![UntypedCover { parent: 8, children: 3..8 }],
    }
}

#[test]
fn object_paddr_and_cap_obj() {
    let spec = sample_spec();
    assert_eq!(spec.objects[0].object.paddr(), None);
    assert_eq!(spec.objects[7].object.paddr(), Some(0x9000_0000));
    assert_eq!(spec.objects[8].object.paddr(), Some(0x8000_0000));
    assert_eq!(spec.objects[1].object.paddr(), None);

    assert_eq!(Cap::Untyped(cap::Untyped { object: 3 }).obj(), 3);
    assert_eq!(Cap::Frame(cap::Frame { object: 12, rights: rw(), cached: false }).obj(), 12);
    assert_eq!(Cap::ArmSmc(cap::ArmSmc { object: 77 }).obj(), 77);
    assert_eq!(ArchivedCap::Reply(cap::ArchivedReply { object: 5 }).obj(), 5);
}

#[test]
fn caps_and_objects_as_their_kinds() {
    let cnode = Cap::CNode(cap::CNode { object: 10, guard: 2, guard_size: 3 });
    assert_eq!(cnode.as_cnode(), Ok(&cap::CNode { object: 10, guard: 2, guard_size: 3 }));
    assert_eq!(cnode.as_frame(), Err(TryFromCapError));
    assert_eq!(cnode.as_tcb(), Err(TryFromCapError));
    assert_eq!(TryFromCapError.message(), "object type mismatch");
    assert_eq!(TryFromObjectError.message(), "object type mismatch");

    let spec = sample_spec();
    assert!(spec.objects[1].object.as_tcb().is_ok());
    assert_eq!(spec.objects[1].object.as_frame().err(), Some(TryFromObjectError));
    assert_eq!(spec.objects[0].object.as_frame().map(|f| f.size_bits), Ok(12));
    assert_eq!(
        spec.objects[8].object.as_untyped(),
        Ok(&object::Untyped { size_bits: 20, paddr: Some(0x8000_0000) })
    );
}

#[test]
fn slot_lookup_finds_the_first_entry() {
    let tcb = tcb();
    assert_eq!(
        tcb.maybe_slot(TCB_SLOT_CSPACE),
        Some(&Cap::CNode(cap::CNode { object: 10, guard: 0, guard_size: 52 }))
    );
    assert_eq!(tcb.maybe_slot(TCB_SLOT_VCPU), None);
    assert_eq!(tcb.slots().len(), 5);
    assert_eq!(lookup_slot(tcb.slots(), 1), Some(&Cap::PageTable(cap::PageTable { object: 11 })));
    let none: &[(u32, Cap)] = &[];
    assert_eq!(lookup_slot(none, 0), None);
}

#[test]
fn tcb_accessors() {
    let tcb = tcb();
    assert_eq!(tcb.cspace(), &cap::CNode { object: 10, guard: 0, guard_size: 52 });
    assert_eq!(tcb.vspace(), &cap::PageTable { object: 11 });
    assert_eq!(tcb.ipc_buffer().object, 12);
    assert_eq!(tcb.mcs_fault_ep().map(|ep| ep.badge), Some(7));
    assert_eq!(tcb.sc(), None);
    assert_eq!(tcb.temp_fault_ep(), None);
    assert_eq!(tcb.bound_notification(), None);
    assert_eq!(tcb.vcpu(), None);
}

fn archived_rights() -> ArchivedRights {
    ArchivedRights { read: true, write: false, grant: true, grant_reply: false }
}

fn archived_tcb() -> object::ArchivedTcb {
    object::ArchivedTcb {
        slots: vec![
            (0, ArchivedCap::CNode(cap::ArchivedCNode {
                object: 20,
                guard: ArchivedWord(0),
                guard_size: ArchivedWord(50),
            })),
            (1, ArchivedCap::PageTable(cap::ArchivedPageTable { object: 21 })),
            (4, ArchivedCap::Frame(cap::ArchivedFrame {
                object: 22,
                rights: archived_rights(),
                cached: false,
            })),
            (6, ArchivedCap::SchedContext(cap::ArchivedSchedContext { object: 23 })),
            (7, ArchivedCap::Endpoint(cap::ArchivedEndpoint {
                object: 24,
                badge: ArchivedWord(5),
                rights: archived_rights(),
            })),
            (8, ArchivedCap::Notification(cap::ArchivedNotification {
                object: 25,
                badge: ArchivedWord(0),
                rights: archived_rights(),
            })),
            (9, ArchivedCap::VCpu(cap::ArchivedVCpu { object: 26 })),
        ],
        extra: Box::new(object::ArchivedTcbExtraInfo {
            ipc_buffer_addr: ArchivedWord(0x2000),
            affinity: ArchivedWord(1),
            prio: 1,
            max_prio: 2,
            resume: false,
            ip: ArchivedWord(3),
            sp: ArchivedWord(4),
            gprs: vec![],
            master_fault_ep: None,
        }),
    }
}

#[test]
fn archived_tcb_accessors() {
    let tcb = archived_tcb();
    assert_eq!(tcb.cspace().object, 20);
    assert_eq!(tcb.cspace().guard_size, ArchivedWord(50));
    assert_eq!(tcb.vspace().object, 21);
    assert_eq!(tcb.ipc_buffer().object, 22);
    assert_eq!(tcb.mcs_fault_ep(), None);
    assert_eq!(tcb.sc().map(|c| c.object), Some(23));
    assert_eq!(tcb.temp_fault_ep().map(|c| c.object), Some(24));
    assert_eq!(tcb.bound_notification().map(|c| c.object), Some(25));
    assert_eq!(tcb.vcpu().map(|c| c.object), Some(26));
    assert_eq!(tcb.maybe_slot(5), None);
    assert_eq!(HasArchivedCapTable::slots(&tcb).len(), 7);
}

#[test]
fn irq_notifications() {
    let notification = cap::ArchivedNotification {
        object: 30,
        badge: ArchivedWord(1),
        rights: archived_rights(),
    };
    let slots = vec![(IRQ_SLOT_NOTIFICATION, ArchivedCap::Notification(notification))];
    assert_eq!(object::ArchivedIrq { slots: slots.clone() }.notification(), Some(&notification));
    assert_eq!(object::ArchivedIrq { slots: vec![] }.notification(), None);
    let arm = object::ArchivedArmIrq {
        slots: slots.clone(),
        extra: Box::new(object::ArchivedArmIrqExtraInfo {
            trigger: ArchivedWord(0),
            target: ArchivedWord(0),
        }),
    };
    assert_eq!(arm.notification().map(|n| n.object), Some(30));
    let msi = object::ArchivedIrqMsi {
        slots: slots.clone(),
        extra: Box::new(object::ArchivedIrqMsiExtraInfo {
            handle: ArchivedWord(0),
            pci_bus: ArchivedWord(0),
            pci_dev: ArchivedWord(0),
            pci_func: ArchivedWord(0),
        }),
    };
    assert_eq!(msi.notification().map(|n| n.object), Some(30));
    let ioapic = object::ArchivedIrqIOApic {
        slots: vec![],
        extra: Box::new(object::ArchivedIrqIOApicExtraInfo {
            ioapic: ArchivedWord(0),
            pin: ArchivedWord(0),
            level: ArchivedWord(0),
            polarity: ArchivedWord(0),
        }),
    };
    assert_eq!(ioapic.notification(), None);
    let riscv = object::ArchivedRiscvIrq {
        slots,
        extra: object::ArchivedRiscvIrqExtraInfo { trigger: ArchivedWord(0) },
    };
    assert_eq!(riscv.notification().map(|n| n.object), Some(30));

    let plain = object::Irq {
        slots: vec![(0, Cap::Notification(cap::Notification { object: 31, badge: 0, rights: rw() }))],
    };
    assert_eq!(plain.notification().map(|n| n.object), Some(31));
}

#[test]
fn page_table_entries() {
    let frame = cap::ArchivedFrame { object: 1, rights: archived_rights(), cached: true };
    let table = cap::ArchivedPageTable { object: 2 };
    let mixed = object::ArchivedPageTable {
        is_root: true,
        level: Some(0),
        slots: vec![(3, ArchivedCap::PageTable(table)), (5, ArchivedCap::Frame(frame))],
    };
    let entries = mixed.entries();
    assert_eq!(entries.len(), 2);
    assert_eq!(entries[0].0, 3);
    assert_eq!(entries[0].1.page_table(), Some(&table));
    assert_eq!(entries[0].1.frame(), None);
    assert_eq!(entries[1].0, 5);
    assert_eq!(entries[1].1.frame(), Some(&frame));
    assert_eq!(entries[1].1.page_table(), None);

    let frames_only = object::ArchivedPageTable {
        is_root: false,
        level: None,
        slots: vec![(0, ArchivedCap::Frame(frame)), (7, ArchivedCap::Frame(frame))],
    };
    assert_eq!(frames_only.frames(), vec![(0, &frame), (7, &frame)]);
    let tables_only = object::ArchivedPageTable {
        is_root: false,
        level: None,
        slots: vec![(1, ArchivedCap::PageTable(table))],
    };
    assert_eq!(tables_only.page_tables(), vec![(1, &table)]);

    assert_eq!(
        ArchivedPageTableEntry::try_from(&ArchivedCap::Frame(frame)),
        Ok(ArchivedPageTableEntry::Frame(&frame))
    );
    assert_eq!(
        ArchivedPageTableEntry::try_from(&ArchivedCap::Tcb(cap::ArchivedTcb { object: 1 })),
        Err(TryFromCapError)
    );
}

#[test]
fn frame_init_views() {
    let fill: FrameInit<u8, u16> = FrameInit::Fill(Fill { entries: vec![] });
    let embedded: FrameInit<u8, u16> = FrameInit::Embedded(7);
    assert!(fill.is_fill());
    assert!(!fill.is_embedded());
    assert!(fill.as_fill().is_some());
    assert_eq!(fill.as_embedded(), None);
    assert!(embedded.is_embedded());
    assert!(!embedded.is_fill());
    assert_eq!(embedded.as_embedded(), Some(&7));
    assert!(embedded.as_fill().is_none());

    let never: FrameInit<u8, NeverEmbedded> = FrameInit::Fill(Fill {
        entries: vec![FillEntry { range: 0..1, content: FillEntryContent::Data(9) }],
    });
    assert_eq!(never.as_fill_infallible().entries.len(), 1);

    let archived: ArchivedFrameInit<u8, u16> = ArchivedFrameInit::Fill(ArchivedFill { entries: vec![] });
    assert!(archived.as_fill().is_some());
    let archived: ArchivedFrameInit<u8, u16> = ArchivedFrameInit::Embedded(3);
    assert!(archived.as_fill().is_none());
}

#[test]
fn fill_entry_content_views() {
    let data: FillEntryContent<u8> = FillEntryContent::Data(5);
    let info = FillEntryContentBootInfo { id: FillEntryContentBootInfoId::Fdt, offset: 3 };
    let boot: FillEntryContent<u8> = FillEntryContent::BootInfo(info);
    assert!(data.is_data());
    assert!(!data.is_bootinfo());
    assert_eq!(data.as_data(), Some(&5));
    assert_eq!(data.as_bootinfo(), None);
    assert!(boot.is_bootinfo());
    assert!(!boot.is_data());
    assert_eq!(boot.as_bootinfo(), Some(&info));
    assert_eq!(boot.as_data(), None);
}

#[test]
fn fill_emptiness_and_bootinfo() {
    let empty: Fill<String> = Fill { entries: vec![] };
    assert!(empty.is_empty());
    assert!(!empty.depends_on_bootinfo());
    let plain = Fill { entries: vec![data_entry(0, 1, "x"), data_entry(1, 2, "y")] };
    assert!(!plain.is_empty());
    assert!(!plain.depends_on_bootinfo());
    let last = Fill { entries: vec![data_entry(0, 1, "x"), bootinfo_entry(1, 2)] };
    assert!(last.depends_on_bootinfo());
    let first = Fill { entries: vec![bootinfo_entry(1, 2), data_entry(0, 1, "x")] };
    assert!(first.depends_on_bootinfo());
}

fn plain_frame(size_bits: u8, paddr: Option<u64>, entries: Vec<FillEntry<String>>) -> object::Frame<String, NeverEmbedded> {
    object::Frame { size_bits, paddr, init: FrameInit::Fill(Fill { entries }) }
}

#[test]
fn can_embed_needs_every_condition() {
    let good = plain_frame(12, None, vec![data_entry(0, 1, "x")]);
    assert!(good.can_embed(12, true));
    assert!(!good.can_embed(12, false));
    assert!(!good.can_embed(16, true));
    assert!(!plain_frame(12, Some(0x1000), vec![data_entry(0, 1, "x")]).can_embed(12, true));
    assert!(!plain_frame(12, None, vec![]).can_embed(12, true));
    assert!(!plain_frame(12, None, vec![data_entry(0, 1, "x"), bootinfo_entry(1, 2)]).can_embed(12, true));
}

#[test]
fn embedded_frame_offset() {
    let offset = EmbeddedFrameOffset::new(0x3000);
    assert_eq!(offset.offset(), 0x3000);
    assert_eq!(offset.get_embedded_frame(), offset);
    assert_eq!(EmbeddedFrameOffset::new(0).offset(), 0);
}

#[test]
fn bytes_content_copies_out() {
    let content = BytesContent::pack(&[1, 2, 3]);
    assert_eq!(content.bytes, vec![1, 2, 3]);
    let mut dst = [0u8; 3];
    assert_eq!(content.copy_out(&mut dst), Ok(()));
    assert_eq!(dst, [1, 2, 3]);
    let mut short = [9u8; 2];
    assert_eq!(content.copy_out(&mut short), Err(CopyOutError::LengthMismatch));
    assert_eq!(short, [9, 9]);
    let empty = BytesContent::pack(&[]);
    assert_eq!(empty.copy_out(&mut []), Ok(()));
}

#[test]
fn deflated_content_round_trips() {
    let raw: Vec<u8> = (0..4096u32).map(|i| (i % 7) as u8).collect();
    let content = DeflatedBytesContent::pack(&raw);
    assert!(content.deflated_bytes != raw);
    assert!(content.deflated_bytes.len() < raw.len());
    let mut dst = vec![0xffu8; raw.len()];
    assert_eq!(content.copy_out(&mut dst), Ok(()));
    assert_eq!(dst, raw);

    let mut short = vec![0u8; raw.len() - 1];
    assert!(content.copy_out(&mut short).is_err());
    let mut long = vec![0u8; raw.len() + 1];
    assert_eq!(content.copy_out(&mut long), Err(CopyOutError::LengthMismatch));
    assert_eq!(&long[..raw.len()], &raw[..]);

    let mut out = [0u8; 4];
    assert_eq!(copy_out_deflated(&[0xff, 0xff, 0xff], &mut out), Err(CopyOutError::Corrupt));
    assert_eq!(out.len(), 4);
}

#[test]
fn self_contained_and_indirect_content() {
    assert_eq!(fill::BytesContent::pack(&[4, 5]), vec![4, 5]);
    let bytes = [7u8, 8, 9];
    let content = fill::BytesContent { bytes: &bytes };
    let mut dst = [0u8; 3];
    assert_eq!(content.self_contained_copy_out(&mut dst), Ok(()));
    assert_eq!(dst, bytes);
    let wrapped = SelfContained::new(content);
    let mut dst = [0u8; 3];
    assert_eq!(fill::Content::copy_out(&wrapped, &(), &mut dst), Ok(()));
    assert_eq!(dst, bytes);
    assert!(wrapped.inner().bytes == &bytes[..]);

    let source = [10u8, 11, 12, 13, 14];
    let indirect = IndirectBytesContent { bytes_range: 1..4 };
    let mut dst = [0u8; 3];
    assert_eq!(fill::Content::copy_out(&indirect, &source[..], &mut dst), Ok(()));
    assert_eq!(dst, [11, 12, 13]);
    let mut dst = [0u8; 2];
    assert_eq!(
        fill::Content::copy_out(&indirect, &source[..], &mut dst),
        Err(CopyOutError::LengthMismatch)
    );
    let outside = IndirectBytesContent { bytes_range: 3..6 };
    let mut dst = [0u8; 3];
    assert_eq!(
        fill::Content::copy_out(&outside, &source[..], &mut dst),
        Err(CopyOutError::OutOfRange)
    );
    let backwards = IndirectBytesContent { bytes_range: 3..2 };
    assert_eq!(
        fill::Content::copy_out(&backwards, &source[..], &mut []),
        Err(CopyOutError::OutOfRange)
    );

    let raw = vec![3u8; 500];
    let deflated = fill::DeflatedBytesContent::pack(&raw);
    assert!(deflated != raw);
    let self_contained = fill::DeflatedBytesContent { deflated_bytes: &deflated };
    let mut dst = vec![0u8; 500];
    assert_eq!(self_contained.self_contained_copy_out(&mut dst), Ok(()));
    assert_eq!(dst, raw);
    let mut source = vec![0xaau8; 3];
    source.extend_from_slice(&deflated);
    source.push(0xbb);
    let indirect = IndirectDeflatedBytesContent { deflated_bytes_range: 3..3 + deflated.len() };
    let mut dst = vec![0u8; 500];
    assert_eq!(fill::Content::copy_out(&indirect, &source[..], &mut dst), Ok(()));
    assert_eq!(dst, raw);
    let outside = IndirectDeflatedBytesContent { deflated_bytes_range: 0..source.len() + 1 };
    assert_eq!(
        fill::Content::copy_out(&outside, &source[..], &mut dst),
        Err(CopyOutError::OutOfRange)
    );
}

#[test]
fn object_names() {
    assert_eq!("tcb_a".object_name(), Some("tcb_a"));
    assert_eq!(String::from("tcb_b").object_name(), Some("tcb_b"));
    assert_eq!(Some(String::from("x")).object_name(), Some("x"));
    assert_eq!(None::<String>.object_name(), None);
    assert_eq!(Unnamed.object_name(), None);
    assert_eq!(Some(Unnamed).object_name(), None);
}

#[test]
fn object_names_level_apply() {
    let spec = sample_spec();
    let thread = &spec.objects[1];
    let frame = &spec.objects[0];
    assert_eq!(ObjectNamesLevel::All.apply(thread), Some(&thread.name));
    assert_eq!(ObjectNamesLevel::All.apply(frame), Some(&frame.name));
    assert_eq!(ObjectNamesLevel::JustTcbs.apply(thread), Some(&thread.name));
    assert_eq!(ObjectNamesLevel::JustTcbs.apply(frame), None);
    assert_eq!(ObjectNamesLevel::NoNames.apply(thread), None);
    assert_eq!(ObjectNamesLevel::NoNames.apply(frame), None);
}

#[test]
fn names_level_is_applied_to_a_spec() {
    let mut spec = sample_spec();
    spec.apply_names_level(&ObjectNamesLevel::JustTcbs);
    for (i, named) in spec.objects.iter().enumerate() {
        if i == 1 {
            assert_eq!(named.name.as_deref(), Some("thread"));
        } else {
            assert_eq!(named.name, None);
        }
    }
    assert_eq!(spec.objects.len(), 9);
    assert!(spec.objects[1].object == Object::Tcb(tcb()));

    let mut spec = sample_spec();
    spec.apply_names_level(&ObjectNamesLevel::All);
    assert!(spec == sample_spec());
    spec.apply_names_level(&ObjectNamesLevel::NoNames);
    assert!(spec.objects.iter().all(|named| named.name.is_none()));
    assert_eq!(spec.irqs, sample_spec().irqs);
}

#[test]
fn traverse_data_maps_every_piece() {
    let spec = sample_spec();
    let mut seen = Vec::new();
    let mapped: Spec<Option<String>, usize, NeverEmbedded> = spec.traverse_data(|data: &String| {
        seen.push(data.clone());
        data.len() + 100
    });
    assert_eq!(seen, vec!["a", "b", "c", "d", "e", "f"]);
    assert_eq!(mapped.objects.len(), 9);
    assert_eq!(mapped.irqs, spec.irqs);
    assert_eq!(mapped.asid_slots, spec.asid_slots);
    assert_eq!(mapped.root_objects, spec.root_objects);
    assert_eq!(mapped.untyped_covers, spec.untyped_covers);
    for (before, after) in spec.objects.iter().zip(mapped.objects.iter()) {
        assert_eq!(before.name, after.name);
    }
    assert!(mapped.objects[1].object == Object::Tcb(tcb()));
    assert!(mapped.objects[4].object == Object::Endpoint);
    match &mapped.objects[5].object {
        Object::Frame(frame) => {
            assert_eq!(frame.size_bits, 12);
            let fill = frame.init.as_fill().unwrap();
            assert_eq!(fill.entries.len(), 2);
            assert_eq!(fill.entries[0].range, 0..8);
            assert!(fill.entries[0].content.is_bootinfo());
            assert_eq!(fill.entries[1].range, 8..9);
            assert_eq!(fill.entries[1].content.as_data(), Some(&101));
        }
        _ => panic!("expected a frame"),
    }
    match &mapped.objects[7].object {
        Object::Frame(frame) => assert_eq!(frame.paddr, Some(0x9000_0000)),
        _ => panic!("expected a frame"),
    }
}

#[test]
fn traverse_data_with_length_gives_the_length() {
    let spec = sample_spec();
    let mapped = spec.traverse_data_with_length(|data: &String, length: u64| (data.clone(), length));
    match &mapped.objects[0].object {
        Object::Frame(frame) => {
            let fill = frame.init.as_fill().unwrap();
            assert_eq!(fill.entries[0].content.as_data(), Some(&(String::from("a"), 4)));
            assert_eq!(fill.entries[1].content.as_data(), Some(&(String::from("b"), 2)));
        }
        _ => panic!("expected a frame"),
    }
}

#[test]
fn fallible_traversals_stop_at_the_first_failure() {
    let spec = sample_spec();
    let mut calls = 0;
    let failed: Result<Spec<Option<String>, u8, NeverEmbedded>, String> =
        spec.traverse_data_fallible(|data: &String| {
            calls += 1;
            if data == "c" {
                Err(format!("no {data}"))
            } else {
                Ok(0u8)
            }
        });
    assert_eq!(failed.err(), Some(String::from("no c")));
    assert_eq!(calls, 3);

    let ok: Result<Spec<Option<String>, u64, NeverEmbedded>, ()> =
        spec.traverse_data_with_length_fallible(|_data: &String, length: u64| Ok(length));
    let ok = ok.unwrap();
    match &ok.objects[3].object {
        Object::Frame(frame) => {
            assert_eq!(frame.init.as_fill().unwrap().entries[0].content.as_data(), Some(&3))
        }
        _ => panic!("expected a frame"),
    }
    let failed: Result<Spec<Option<String>, u64, NeverEmbedded>, u64> =
        spec.traverse_data_with_length_fallible(|_data: &String, length: u64| {
            if length == 2 {
                Err(length)
            } else {
                Ok(length)
            }
        });
    assert_eq!(failed.err(), Some(2));
}

#[test]
fn traverse_frame_init_sees_roots() {
    let spec = sample_spec();
    let mut roots = Vec::new();
    let mapped: Result<Spec<Option<String>, u8, u16>, ()> =
        spec.traverse_frame_init(|frame: &object::Frame<String, NeverEmbedded>, is_root: bool| {
            roots.push(is_root);
            if frame.init.as_fill_infallible().is_empty() {
                Ok(FrameInit::Embedded(1u16))
            } else {
                Ok(FrameInit::Fill(Fill { entries: vec![] }))
            }
        });
    let mapped = mapped.unwrap();
    assert_eq!(roots, vec![true, true, false, false, false, false]);
    match &mapped.objects[2].object {
        Object::Frame(frame) => assert_eq!(frame.init.as_embedded(), Some(&1)),
        _ => panic!("expected a frame"),
    }
    match &mapped.objects[0].object {
        Object::Frame(frame) => assert!(frame.init.is_fill()),
        _ => panic!("expected a frame"),
    }
}

#[test]
fn split_embedded_frames_embeds_what_can_be() {
    let spec = sample_spec();
    let split = spec.split_embedded_frames(true, 12);
    let embedded: Vec<bool> = split
        .objects
        .iter()
        .filter_map(|named| match &named.object {
            Object::Frame(frame) => Some(frame.init.is_embedded()),
            _ => None,
        })
        .collect();
    assert_eq!(embedded, vec![true, false, false, false, false, false]);
    match &split.objects[0].object {
        Object::Frame(frame) => {
            let apart = frame.init.as_embedded().unwrap();
            assert_eq!(apart.entries, vec![data_entry(0, 4, "a"), data_entry(8, 10, "b")]);
        }
        _ => panic!("expected a frame"),
    }
    match &split.objects[3].object {
        Object::Frame(frame) => {
            assert_eq!(frame.init.as_fill().unwrap().entries, vec![data_entry(0, 3, "c")])
        }
        _ => panic!("expected a frame"),
    }

    let kept = spec.split_embedded_frames(false, 12);
    assert!(kept.objects.iter().all(|named| match &named.object {
        Object::Frame(frame) => frame.init.is_fill(),
        _ => true,
    }));
    let other_granule = spec.split_embedded_frames(true, 16);
    assert!(other_granule.objects.iter().all(|named| match &named.object {
        Object::Frame(frame) => frame.init.is_fill(),
        _ => true,
    }));
}

#[test]
fn traverse_embedded_frames_maps_only_embedded_content() {
    let spec = sample_spec().split_embedded_frames(true, 12);
    let counted = spec.traverse_embedded_frames(|fill: &Fill<String>| fill.entries.len());
    match &counted.objects[0].object {
        Object::Frame(frame) => assert_eq!(frame.init.as_embedded(), Some(&2)),
        _ => panic!("expected a frame"),
    }
    match &counted.objects[3].object {
        Object::Frame(frame) => {
            assert_eq!(frame.init.as_fill().unwrap().entries, vec![data_entry(0, 3, "c")])
        }
        _ => panic!("expected a frame"),
    }
    let failed: Result<Spec<Option<String>, String, u8>, &str> =
        spec.traverse_embedded_frames_fallible(|_fill: &Fill<String>| Err("no"));
    assert_eq!(failed.err(), Some("no"));
    let ok: Result<Spec<Option<String>, String, u8>, &str> =
        spec.traverse_embedded_frames_fallible(|_fill: &Fill<String>| Ok(4));
    assert!(ok.is_ok());
}

#[test]
fn fill_traverse() {
    let fill = Fill { entries: vec![data_entry(2, 5, "x"), bootinfo_entry(5, 6), data_entry(6, 8, "yy")] };
    let mapped = fill.traverse(|range: &std::ops::Range<u64>, data: &String| {
        (range.end - range.start) as usize + data.len()
    });
    assert_eq!(mapped.entries.len(), 3);
    assert_eq!(mapped.entries[0].range, 2..5);
    assert_eq!(mapped.entries[0].content.as_data(), Some(&4));
    assert!(mapped.entries[1].content.is_bootinfo());
    assert_eq!(mapped.entries[2].content.as_data(), Some(&4));

    let failed: Result<Fill<u8>, u64> =
        fill.traverse_fallible(|range: &std::ops::Range<u64>, _data: &String| {
            if range.start == 6 {
                Err(range.start)
            } else {
                Ok(1)
            }
        });
    assert_eq!(failed.err(), Some(6));
    let ok: Result<Fill<u8>, u64> =
        fill.traverse_fallible(|_range: &std::ops::Range<u64>, _data: &String| Ok(1));
    assert_eq!(ok.unwrap().entries.len(), 3);
}

fn letter_writer(data: &String, buf: &mut [u8]) -> bool {
    let letter = data.as_bytes()[0];
    for b in buf.iter_mut() {
        *b = letter;
    }
    letter == b'e'
}

#[test]
fn embed_fill_holds_embedded_frames_apart() {
    let spec = sample_spec();
    let (made, frame_data) = spec.embed_fill(true, 12, letter_writer);
    assert_eq!(frame_data.len(), 1);
    assert_eq!(frame_data[0].len(), 4096);
    assert_eq!(&frame_data[0][..4], b"aaaa");
    assert_eq!(&frame_data[0][4..8], &[0, 0, 0, 0]);
    assert_eq!(&frame_data[0][8..10], b"bb");
    assert!(frame_data[0][10..].iter().all(|b| *b == 0));
    match &made.objects[0].object {
        Object::Frame(frame) => {
            assert_eq!(frame.init.as_embedded(), Some(&EmbeddedFrameIndex { index: 0 }))
        }
        _ => panic!("expected a frame"),
    }
    match &made.objects[3].object {
        Object::Frame(frame) => {
            let fill = frame.init.as_fill().unwrap();
            assert_eq!(fill.entries.len(), 1);
            assert_eq!(fill.entries[0].range, 0..3);
            match fill.entries[0].content.as_data() {
                Some(PackedContent::Bytes(content)) => assert_eq!(content.bytes, b"ccc".to_vec()),
                _ => panic!("expected bytes"),
            }
        }
        _ => panic!("expected a frame"),
    }
    match &made.objects[6].object {
        Object::Frame(frame) => {
            let fill = frame.init.as_fill().unwrap();
            match fill.entries[0].content.as_data() {
                Some(PackedContent::DeflatedBytes(content)) => {
                    let mut dst = [0u8; 2];
                    assert_eq!(content.copy_out(&mut dst), Ok(()));
                    assert_eq!(&dst, b"ee");
                }
                _ => panic!("expected deflated bytes"),
            }
        }
        _ => panic!("expected a frame"),
    }
    match &made.objects[5].object {
        Object::Frame(frame) => {
            let fill = frame.init.as_fill().unwrap();
            assert!(fill.entries[0].content.is_bootinfo());
            assert!(fill.entries[1].content.is_data());
        }
        _ => panic!("expected a frame"),
    }
    assert!(made.objects[1].object == Object::Tcb(tcb()));
    assert_eq!(made.objects[1].name.as_deref(), Some("thread"));

    let (kept, no_data) = spec.embed_fill(false, 12, letter_writer);
    assert!(no_data.is_empty());
    assert!(kept.objects.iter().all(|named| match &named.object {
        Object::Frame(frame) => frame.init.is_fill(),
        _ => true,
    }));

    let mut calls = 0;
    let failed = spec.embed_fill_fallible(true, 12, |data: &String, _buf: &mut [u8]| {
        calls += 1;
        if data == "b" {
            Err(5u8)
        } else {
            Ok(false)
        }
    });
    assert_eq!(failed.err(), Some(5));
    assert_eq!(calls, 2);
}

#[test]
fn embedded_frames_data_aligns_and_appends() {
    let mut data = EmbeddedFramesData::new(4096);
    assert_eq!(data.alignment, 4096);
    assert!(data.data.is_empty());
    data.align_to(8);
    assert!(data.data.is_empty());
    assert_eq!(data.append(&[1, 2, 3]), 0);
    data.align_to(8);
    assert_eq!(data.data, vec![1, 2, 3, 0, 0, 0, 0, 0]);
    data.align_to(8);
    assert_eq!(data.data.len(), 8);
    assert_eq!(data.append(&[9]), 8);
    data.align_to(1);
    assert_eq!(data.data.len(), 9);
    data.align_to(16);
    assert_eq!(data.data.len(), 16);
    assert_eq!(data.data[8], 9);
    assert!(data.data[9..].iter().all(|b| *b == 0));
    assert_eq!(data.append(&[]), 16);
}

fn archived_spec() -> ArchivedSpec<Option<String>, u8, u16> {
    let named = |name: &str, object| ArchivedNamedObject { name: Some(String::from(name)), object };
    ArchivedSpec {
        objects: vec![
            named("ep", ArchivedObject::Endpoint),
            named("tcb_a", ArchivedObject::Tcb(archived_tcb())),
            named("ut", ArchivedObject::Untyped(object::ArchivedUntyped { size_bits: 12, paddr: None })),
            named("tcb_b", ArchivedObject::Tcb(object::ArchivedTcb { slots: vec![], ..archived_tcb() })),
        ],
        irqs: vec![],
        asid_slots: vec![],
        root_objects: 1..3,
        untyped_covers: vec![],
    }
}

#[test]
fn archived_spec_inspection() {
    let spec = archived_spec();
    assert_eq!(spec.num_objects(), 4);
    assert_eq!(spec.named_object(2).name.as_deref(), Some("ut"));
    assert_eq!(spec.name(3).as_deref(), Some("tcb_b"));
    assert!(*spec.object(0) == ArchivedObject::Endpoint);
    let roots = spec.root_objects();
    assert_eq!(roots.len(), 2);
    assert_eq!(roots[0].name.as_deref(), Some("tcb_a"));
    assert_eq!(roots[1].name.as_deref(), Some("ut"));
    assert_eq!(spec.named_objects().len(), 4);
    let objects = spec.objects();
    assert_eq!(objects.len(), 4);
    assert!(*objects[2] == ArchivedObject::Untyped(object::ArchivedUntyped { size_bits: 12, paddr: None }));
    assert_eq!(objects[2].paddr(), None);

    let tcbs: Vec<(u32, &object::ArchivedTcb)> = spec.filter_objects();
    assert_eq!(tcbs.len(), 2);
    assert_eq!(tcbs[0].0, 1);
    assert_eq!(tcbs[1].0, 3);
    assert_eq!(tcbs[0].1.slots.len(), 7);
    let untypeds: Vec<(u32, &object::ArchivedUntyped)> = spec.filter_objects();
    assert_eq!(untypeds, vec![(2, &object::ArchivedUntyped { size_bits: 12, paddr: None })]);
    let cnodes: Vec<(u32, &object::ArchivedCNode)> = spec.filter_objects();
    assert!(cnodes.is_empty());

    let bare: Vec<(u32, &object::ArchivedTcb)> =
        spec.filter_objects_with(|tcb: &object::ArchivedTcb| tcb.slots.is_empty());
    assert_eq!(bare.len(), 1);
    assert_eq!(bare[0].0, 3);

    let found: Result<&object::ArchivedTcb, TryFromObjectError> = spec.lookup_object(1);
    assert!(found.is_ok());
    let missed: Result<&object::ArchivedTcb, TryFromObjectError> = spec.lookup_object(0);
    assert_eq!(missed.err(), Some(TryFromObjectError));
    assert!(object::ArchivedTcb::from_object(spec.object(3)).is_some());
    assert!(<object::ArchivedFrame<u8, u16> as IsArchivedObject<u8, u16>>::from_object(spec.object(3)).is_none());
}

#[test]
fn indirect_values() {
    let value = 5u32;
    let borrowed = Indirect::from_borrowed(&value);
    assert_eq!(*borrowed.inner(), 5);
    assert_eq!(*borrowed.const_inner(), 5);
    let owned: Indirect<'_, u32> = Indirect::from_owned(Box::new(6));
    assert_eq!(*owned.inner(), 6);
    assert_eq!(*owned.clone().inner(), 6);
    let again = borrowed.clone();
    assert_eq!(*again.const_inner(), 5);
}

#[test]
fn archived_values_in_kernel_terms() {
    assert_eq!(ArchivedWord(0xdead_beef).to_sel4(), 0xdead_beef);
    let rights = ArchivedRights { read: true, write: false, grant: true, grant_reply: false };
    assert_eq!(
        rights.to_sel4(),
        CapRights { grant_reply: false, grant: true, read: true, write: false }
    );
    assert_eq!(CapRights::new(true, false, false, true), CapRights {
        grant_reply: true,
        grant: false,
        read: false,
        write: true
    });
    assert_eq!(ArchivedFillEntryContentBootInfoId::Fdt.to_sel4(), BootInfoExtraId::Fdt);

    let frame = cap::ArchivedFrame { object: 1, rights, cached: false };
    assert_eq!(ArchivedCap::Frame(frame).rights(), Some(rights.to_sel4()));
    let endpoint = cap::ArchivedEndpoint { object: 1, badge: ArchivedWord(3), rights };
    assert_eq!(ArchivedCap::Endpoint(endpoint).rights(), Some(rights.to_sel4()));
    assert_eq!(ArchivedCap::Tcb(cap::ArchivedTcb { object: 1 }).rights(), None);

    assert_eq!(vm_attributes_from_whether_cached(Arch::AArch64, true), VmAttributes::DefaultAttributes);
    assert_eq!(vm_attributes_from_whether_cached(Arch::AArch64, false), VmAttributes::NoAttributes);
    assert_eq!(vm_attributes_from_whether_cached(Arch::Riscv64, false), VmAttributes::NoAttributes);
    assert_eq!(vm_attributes_from_whether_cached(Arch::X86_64, false), VmAttributes::CacheDisabled);
    assert_eq!(vm_attributes_from_whether_cached(Arch::X86_64, true), VmAttributes::DefaultAttributes);
    assert_eq!(frame.vm_attributes(Arch::X86_64), VmAttributes::CacheDisabled);
    assert_eq!(
        cap::ArchivedFrame { cached: true, ..frame }.vm_attributes(Arch::AArch32),
        VmAttributes::DefaultAttributes
    );
    assert_eq!(
        cap::ArchivedPageTable { object: 2 }.vm_attributes(Arch::Riscv32),
        VmAttributes::DefaultAttributes
    );
    assert_eq!(VmAttributes::default(), VmAttributes::DefaultAttributes);
}

#[test]
fn initializer_errors_wrap_their_causes() {
    assert!(matches!(
        CapDLInitializerError::from(CSlotAllocatorError::OutOfSlots),
        CapDLInitializerError::CSlotAllocatorError(CSlotAllocatorError::OutOfSlots)
    ));
    assert!(matches!(
        CapDLInitializerError::from(KernelError::RangeError),
        CapDLInitializerError::SeL4Error(KernelError::RangeError)
    ));
    let overflow = u8::try_from(300u32).unwrap_err();
    assert!(matches!(
        CapDLInitializerError::from(overflow),
        CapDLInitializerError::TryFromIntError(_)
    ));
}
