use metalshade::uniform::{UniformBlock, UniformBlockExt};

fn block(res: (f32, f32, f32), time: f32, mouse: [f32; 4]) -> UniformBlock {
    UniformBlock {
        res_x: res.0.to_bits(),
        res_y: res.1.to_bits(),
        res_z: res.2.to_bits(),
        time: time.to_bits(),
        mouse_x: mouse[0].to_bits(),
        mouse_y: mouse[1].to_bits(),
        mouse_z: mouse[2].to_bits(),
        mouse_w: mouse[3].to_bits(),
    }
}

#[test]
fn uniform_write_reads_back_identically() {
    // resolution (800, 600, 1), time 1.5: a stage that echoes its declared
    // inputs sees exactly these values.
    let u = block((800.0, 600.0, 1.0), 1.5, [0.0, 0.0, 0.0, 0.0]);
    let bytes = u.to_bytes();
    assert_eq!(bytes.len(), 32);
    let r = UniformBlock::from_bytes(&bytes);
    assert_eq!(r, u);
    assert_eq!(f32::from_bits(r.res_x), 800.0);
    assert_eq!(f32::from_bits(r.res_y), 600.0);
    assert_eq!(f32::from_bits(r.res_z), 1.0);
    assert_eq!(f32::from_bits(r.time), 1.5);
}

#[test]
fn uniform_layout_is_little_endian_in_order() {
    let u = block((800.0, 600.0, 1.0), 1.5, [2.0, 3.0, 4.0, 5.0]);
    let bytes = u.to_bytes();
    assert_eq!(&bytes[0..4], &800.0f32.to_bits().to_le_bytes());
    assert_eq!(&bytes[4..8], &600.0f32.to_bits().to_le_bytes());
    assert_eq!(&bytes[8..12], &1.0f32.to_bits().to_le_bytes());
    assert_eq!(&bytes[12..16], &1.5f32.to_bits().to_le_bytes());
    assert_eq!(&bytes[16..20], &2.0f32.to_bits().to_le_bytes());
    assert_eq!(&bytes[28..32], &5.0f32.to_bits().to_le_bytes());
}

#[test]
fn extended_uniform_layout() {
    let ext = UniformBlockExt {
        base: block((1280.0, 720.0, 1.0), 0.25, [1.0, 2.0, 3.0, 4.0]),
        scroll_x: 0.5f32.to_bits(),
        scroll_y: 6.0f32.to_bits(),
        button_left: 0.1f32.to_bits(),
        button_right: 0.0f32.to_bits(),
        button_middle: 0.0f32.to_bits(),
        button_4: 0.0f32.to_bits(),
        button_5: 0.0f32.to_bits(),
        pan_x: 12.0f32.to_bits(),
        pan_y: (-8.0f32).to_bits(),
    };
    let bytes = ext.to_bytes();
    assert_eq!(bytes.len(), 68);
    assert_eq!(&bytes[0..4], &1280.0f32.to_bits().to_le_bytes());
    assert_eq!(&bytes[32..36], &0.5f32.to_bits().to_le_bytes());
    assert_eq!(&bytes[36..40], &6.0f32.to_bits().to_le_bytes());
    assert_eq!(&bytes[60..64], &12.0f32.to_bits().to_le_bytes());
    assert_eq!(&bytes[64..68], &(-8.0f32).to_bits().to_le_bytes());
}
