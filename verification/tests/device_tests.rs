use metalshade::device::{find_memory_type, select_device_queue, QueueFamilyCaps};
use metalshade::Fatal;

const HOST_VISIBLE: u32 = 0x2;
const HOST_COHERENT: u32 = 0x4;
const DEVICE_LOCAL: u32 = 0x1;

#[test]
fn memory_type_first_match() {
    // type 0 lacks the flags, type 1 has them, type 2 also matches but
    // comes later: the lookup returns the first suitable index.
    let flags = vec![
        DEVICE_LOCAL,
        HOST_VISIBLE | HOST_COHERENT,
        HOST_VISIBLE | HOST_COHERENT | DEVICE_LOCAL,
    ];
    let r = find_memory_type(&flags, 0b111, HOST_VISIBLE | HOST_COHERENT);
    assert_eq!(r, Ok(1));
}

#[test]
fn memory_type_respects_type_bits() {
    // type 1 has the right flags but the resource forbids it (bit unset).
    let flags = vec![DEVICE_LOCAL, HOST_VISIBLE | HOST_COHERENT, HOST_VISIBLE | HOST_COHERENT];
    let r = find_memory_type(&flags, 0b101, HOST_VISIBLE | HOST_COHERENT);
    assert_eq!(r, Ok(2));
}

#[test]
fn memory_type_none_found() {
    let flags = vec![DEVICE_LOCAL, DEVICE_LOCAL];
    let r = find_memory_type(&flags, 0b11, HOST_VISIBLE);
    assert_eq!(r, Err(Fatal::NoSuitableMemoryType));
}

#[test]
fn queue_selection_first_suitable() {
    let devices = vec![
        vec![QueueFamilyCaps { graphics: true, present: false }],
        vec![
            QueueFamilyCaps { graphics: false, present: true },
            QueueFamilyCaps { graphics: true, present: true },
        ],
    ];
    assert_eq!(select_device_queue(&devices), Ok((1, 1)));
}

#[test]
fn queue_selection_no_device() {
    let devices: Vec<Vec<QueueFamilyCaps>> = vec![];
    assert_eq!(select_device_queue(&devices), Err(Fatal::NoDeviceFound));
}

#[test]
fn queue_selection_no_queue() {
    let devices = vec![
        vec![QueueFamilyCaps { graphics: true, present: false }],
        vec![QueueFamilyCaps { graphics: false, present: true }],
    ];
    assert_eq!(select_device_queue(&devices), Err(Fatal::NoQueueFound));
}
