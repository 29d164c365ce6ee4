use sel4_support::capdl::cap;
use sel4_support::capdl::frame_init::{
    ArchivedFrameInit, Fill, FillEntry, FillEntryContent, FrameInit, NeverEmbedded,
};
use sel4_support::capdl::inspect::PackedContent;
use sel4_support::capdl::object;
use sel4_support::capdl::spec::{
    ArchivedCap, ArchivedObject, ArchivedRights, ArchivedWord, NamedObject, Object, Spec,
};
use sel4_support::sel4::object::{Arch, CNodeCapData, KernelFeatures, ObjectBlueprint};

fn piece(start: u64, end: u64, name: &str) -> FillEntry<String> {
    FillEntry { range: start..end, content: FillEntryContent::Data(String::from(name)) }
}

fn frame_of(size_bits: u8, entries: Vec<FillEntry<String>>) -> NamedObject<(), String, NeverEmbedded> {
    NamedObject {
        name: (),
        object: Object::Frame(object::Frame { size_bits, paddr: None, init: FrameInit::Fill(Fill { entries }) }),
    }
}

fn two_frames() -> Spec<(), String, NeverEmbedded> {
    Spec {
        objects: vec![
            frame_of(12, vec![piece(0, 4, "a"), piece(2, 6, "b"), piece(9, 10, "c")]),
            frame_of(12, vec![piece(0, 2, "d"), piece(1, 4, "e")]),
        ],
        irqs: vec![],
        asid_slots: vec![],
        root_objects: 0..1,
        untyped_covers: vec![],
    }
}

fn all_rights() -> ArchivedRights {
    ArchivedRights { read: true, write: true, grant: true, grant_reply: true }
}

#[test]
fn cnode_cap_data_word_layout() {
    assert_eq!(CNodeCapData::new(0, 0).into_word(), 0);
    assert_eq!(CNodeCapData::new(5, 3).into_word(), 5 * 64 + 3);
    assert_eq!(CNodeCapData::new(1, 63).into_word(), 127);
    assert_eq!(CNodeCapData::new(u64::MAX, 65).into_word(), 0xffff_ffff_ffff_ffc1);
    assert_eq!(CNodeCapData::new(0x0400_0000_0000_0000, 0).into_word(), 0);
}

#[test]
fn archived_cap_badge() {
    let endpoint =
        ArchivedCap::Endpoint(cap::ArchivedEndpoint { object: 1, badge: ArchivedWord(7), rights: all_rights() });
    assert_eq!(endpoint.badge(), Some(7));
    let notification = ArchivedCap::Notification(cap::ArchivedNotification {
        object: 2,
        badge: ArchivedWord(0),
        rights: all_rights(),
    });
    assert_eq!(notification.badge(), Some(0));
    let cnode = ArchivedCap::CNode(cap::ArchivedCNode {
        object: 3,
        guard: ArchivedWord(2),
        guard_size: ArchivedWord(10),
    });
    assert_eq!(cnode.badge(), Some(2 * 64 + 10));
    let tcb = ArchivedCap::Tcb(cap::ArchivedTcb { object: 4 });
    assert_eq!(tcb.badge(), None);
}

#[test]
fn a_failing_traversal_has_seen_every_piece_before() {
    let spec = two_frames();
    let mut seen: Vec<String> = Vec::new();
    let failed: Result<Spec<(), usize, NeverEmbedded>, String> = spec.traverse_data_fallible(|data: &String| {
        seen.push(data.clone());
        if data == "d" {
            Err(String::from("stop"))
        } else {
            Ok(data.len())
        }
    });
    assert_eq!(failed.err(), Some(String::from("stop")));
    assert_eq!(seen, vec!["a", "b", "c", "d"]);

    let mut lengths: Vec<u64> = Vec::new();
    let failed: Result<Spec<(), u64, NeverEmbedded>, u64> =
        spec.traverse_data_with_length_fallible(|_data: &String, length: u64| {
            lengths.push(length);
            if length == 1 {
                Err(length)
            } else {
                Ok(length)
            }
        });
    assert_eq!(failed.err(), Some(1));
    assert_eq!(lengths, vec![4, 4, 1]);

    let fill = Fill { entries: vec![piece(0, 1, "x"), piece(1, 2, "y"), piece(2, 3, "z")] };
    let mut starts: Vec<u64> = Vec::new();
    let failed: Result<Fill<u8>, u64> = fill.traverse_fallible(|range: &std::ops::Range<u64>, _data: &String| {
        starts.push(range.start);
        if range.start == 1 {
            Err(range.end)
        } else {
            Ok(0u8)
        }
    });
    assert_eq!(failed.err(), Some(2));
    assert_eq!(starts, vec![0, 1]);
}

#[test]
fn pieces_of_a_held_apart_frame_are_written_in_order_over_zeros() {
    let spec = two_frames();
    let mut given: Vec<Vec<u8>> = Vec::new();
    let made = spec.embed_fill_fallible(true, 12, |data: &String, buf: &mut [u8]| -> Result<bool, ()> {
        given.push(buf.to_vec());
        buf[0] = data.as_bytes()[0];
        Ok(false)
    });
    let (after, frame_data) = made.unwrap();
    assert_eq!(
        given,
        vec![vec![0, 0, 0, 0], vec![0, 0, 0, 0], vec![0], vec![0, 0], vec![0, 0, 0]]
    );
    assert_eq!(frame_data.len(), 1);
    assert_eq!(frame_data[0].len(), 4096);
    assert_eq!(&frame_data[0][..10], &[b'a', 0, b'b', 0, 0, 0, 0, 0, 0, b'c']);
    assert!(frame_data[0][10..].iter().all(|b| *b == 0));
    match &after.objects[1].object {
        Object::Frame(frame) => {
            let fill = frame.init.as_fill().unwrap();
            assert_eq!(fill.entries.len(), 2);
            match fill.entries[0].content.as_data() {
                Some(PackedContent::Bytes(content)) => assert_eq!(content.bytes, vec![b'd', 0]),
                _ => panic!("expected bytes"),
            }
            match fill.entries[1].content.as_data() {
                Some(PackedContent::Bytes(content)) => assert_eq!(content.bytes, vec![b'e', 0, 0]),
                _ => panic!("expected bytes"),
            }
        }
        _ => panic!("expected a frame"),
    }

    let mut before: Vec<Vec<u8>> = Vec::new();
    let (_, frame_data) = spec.embed_fill(true, 12, |data: &String, buf: &mut [u8]| {
        before.push(buf.to_vec());
        for b in buf.iter_mut() {
            *b = data.as_bytes()[0];
        }
        false
    });
    assert_eq!(before[1], vec![b'a', b'a', 0, 0]);
    assert_eq!(&frame_data[0][..10], b"aabbbb\0\0\0c");
}

fn features(arch: Arch, virtualization: bool, mcs: bool) -> KernelFeatures {
    KernelFeatures { arch, virtualization, mcs }
}

fn table(is_root: bool, level: Option<u8>) -> ArchivedObject<(), ()> {
    ArchivedObject::PageTable(object::ArchivedPageTable { is_root, level, slots: vec![] })
}

#[test]
fn blueprints_of_archived_objects() {
    let plain = features(Arch::AArch64, false, false);
    let untyped: ArchivedObject<(), ()> =
        ArchivedObject::Untyped(object::ArchivedUntyped { size_bits: 20, paddr: None });
    assert_eq!(untyped.blueprint(&plain), Some(ObjectBlueprint::Untyped { size_bits: 20 }));
    let endpoint: ArchivedObject<(), ()> = ArchivedObject::Endpoint;
    assert_eq!(endpoint.blueprint(&plain), Some(ObjectBlueprint::Endpoint));
    let notification: ArchivedObject<(), ()> = ArchivedObject::Notification;
    assert_eq!(notification.blueprint(&plain), Some(ObjectBlueprint::Notification));
    let cnode: ArchivedObject<(), ()> =
        ArchivedObject::CNode(object::ArchivedCNode { size_bits: 8, slots: vec![] });
    assert_eq!(cnode.blueprint(&plain), Some(ObjectBlueprint::CNode { size_bits: 8 }));
    let pool: ArchivedObject<(), ()> =
        ArchivedObject::AsidPool(object::ArchivedAsidPool { high: ArchivedWord(1) });
    assert_eq!(pool.blueprint(&plain), Some(ObjectBlueprint::AsidPool));
    let tcb: ArchivedObject<(), ()> = ArchivedObject::Tcb(object::ArchivedTcb {
        slots: vec![],
        extra: Box::new(object::ArchivedTcbExtraInfo {
            ipc_buffer_addr: ArchivedWord(0x2000),
            affinity: ArchivedWord(0),
            prio: 1,
            max_prio: 1,
            resume: true,
            ip: ArchivedWord(0),
            sp: ArchivedWord(0),
            gprs: vec![],
            master_fault_ep: None,
        }),
    });
    assert_eq!(tcb.blueprint(&plain), Some(ObjectBlueprint::Tcb));
    let frame: ArchivedObject<(), ()> = ArchivedObject::Frame(object::ArchivedFrame {
        size_bits: 21,
        paddr: None,
        init: ArchivedFrameInit::Embedded(()),
    });
    assert_eq!(frame.blueprint(&plain), Some(ObjectBlueprint::Frame { size_bits: 21 }));
    let ports: ArchivedObject<(), ()> = ArchivedObject::IOPorts(object::ArchivedIOPorts {
        start_port: ArchivedWord(0),
        end_port: ArchivedWord(8),
    });
    assert_eq!(ports.blueprint(&plain), None);
    let irq: ArchivedObject<(), ()> = ArchivedObject::Irq(object::ArchivedIrq { slots: vec![] });
    assert_eq!(irq.blueprint(&plain), None);
    let smc: ArchivedObject<(), ()> = ArchivedObject::ArmSmc;
    assert_eq!(smc.blueprint(&plain), None);
}

#[test]
fn blueprints_that_depend_on_the_kernel() {
    let vcpu: ArchivedObject<(), ()> = ArchivedObject::VCpu;
    assert_eq!(vcpu.blueprint(&features(Arch::AArch64, true, false)), Some(ObjectBlueprint::VCpu));
    assert_eq!(vcpu.blueprint(&features(Arch::X86_64, true, false)), Some(ObjectBlueprint::VCpu));
    assert_eq!(vcpu.blueprint(&features(Arch::AArch64, false, false)), None);
    assert_eq!(vcpu.blueprint(&features(Arch::AArch32, true, false)), None);
    assert_eq!(vcpu.blueprint(&features(Arch::Riscv64, true, false)), None);

    let reply: ArchivedObject<(), ()> = ArchivedObject::Reply;
    assert_eq!(reply.blueprint(&features(Arch::AArch64, false, true)), Some(ObjectBlueprint::Reply));
    assert_eq!(reply.blueprint(&features(Arch::AArch64, false, false)), None);
    let context: ArchivedObject<(), ()> = ArchivedObject::SchedContext(object::ArchivedSchedContext {
        size_bits: 9,
        extra: object::ArchivedSchedContextExtraInfo { period: 1, budget: 1, badge: ArchivedWord(0) },
    });
    assert_eq!(
        context.blueprint(&features(Arch::Riscv64, false, true)),
        Some(ObjectBlueprint::SchedContext { size_bits: 9 })
    );
    assert_eq!(context.blueprint(&features(Arch::Riscv64, false, false)), None);

    assert_eq!(table(true, None).blueprint(&features(Arch::AArch64, false, false)), Some(ObjectBlueprint::VSpace));
    assert_eq!(table(false, None).blueprint(&features(Arch::AArch64, false, false)), Some(ObjectBlueprint::PT));
    assert_eq!(table(true, None).blueprint(&features(Arch::AArch32, false, false)), Some(ObjectBlueprint::PD));
    assert_eq!(table(false, None).blueprint(&features(Arch::AArch32, false, false)), Some(ObjectBlueprint::PT));
    assert_eq!(table(true, None).blueprint(&features(Arch::Riscv64, false, false)), Some(ObjectBlueprint::PageTable));
    assert_eq!(table(false, Some(1)).blueprint(&features(Arch::Riscv32, false, false)), Some(ObjectBlueprint::PageTable));
    assert_eq!(
        table(true, Some(0)).blueprint(&features(Arch::X86_64, false, false)),
        Some(ObjectBlueprint::PagingStructure { level: 0 })
    );
    assert_eq!(
        table(false, Some(2)).blueprint(&features(Arch::X86_64, false, false)),
        Some(ObjectBlueprint::PagingStructure { level: 2 })
    );
}
