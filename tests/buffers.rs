use hatchery::memory::{
    copy_region, plan_staged_upload, staging_usage, upload_target_usage, BufferInfo, CopyError,
    MemoryKind, MemoryModel, StagedUpload,
};
use hatchery::usage::BufferUsage;

fn storage_and_source() -> BufferUsage {
    BufferUsage::storage_buffer().union(&BufferUsage::transfer_src())
}

#[test]
fn usage_union_and_contains() {
    let u = BufferUsage::vertex_buffer().union(&BufferUsage::storage_buffer());
    assert!(u.vertex_buffer && u.storage_buffer);
    assert!(!u.transfer_src && !u.transfer_dst && !u.index_buffer && !u.uniform_buffer);
    assert!(u.contains(&BufferUsage::vertex_buffer()));
    assert!(u.contains(&BufferUsage::empty()));
    assert!(!u.contains(&BufferUsage::index_buffer()));
    assert!(!BufferUsage::empty().contains(&BufferUsage::uniform_buffer()));
}

#[test]
fn staging_plan_for_device_upload() {
    let plan = plan_staged_upload(BufferUsage::storage_buffer(), 1023);
    assert_eq!(
        plan,
        StagedUpload {
            staging: BufferInfo {
                kind: MemoryKind::Shared,
                usage: BufferUsage::transfer_src(),
                len: 1023,
            },
            target: BufferInfo {
                kind: MemoryKind::Device,
                usage: BufferUsage::storage_buffer().union(&BufferUsage::transfer_dst()),
                len: 1023,
            },
        }
    );
    assert_eq!(staging_usage(), BufferUsage::transfer_src());
    let t = upload_target_usage(BufferUsage::vertex_buffer());
    assert!(t.vertex_buffer && t.transfer_dst && !t.transfer_src);
}

#[test]
fn copy_region_takes_shorter_length() {
    let src = BufferInfo { kind: MemoryKind::Shared, usage: BufferUsage::transfer_src(), len: 10 };
    let dst = BufferInfo { kind: MemoryKind::Device, usage: BufferUsage::transfer_dst(), len: 4 };
    assert_eq!(copy_region(&src, &dst), Ok(4));
    let big = BufferInfo { len: 40, ..dst };
    assert_eq!(copy_region(&src, &big), Ok(10));
}

#[test]
fn copy_region_errors() {
    let src = BufferInfo { kind: MemoryKind::Shared, usage: BufferUsage::transfer_src(), len: 10 };
    let dst = BufferInfo { kind: MemoryKind::Device, usage: BufferUsage::transfer_dst(), len: 4 };
    assert_eq!(copy_region(&dst, &dst), Err(CopyError::MissingTransferSrc));
    assert_eq!(copy_region(&src, &src), Err(CopyError::MissingTransferDst));
    let empty = BufferInfo { len: 0, ..dst };
    assert_eq!(copy_region(&src, &empty), Err(CopyError::EmptyRegion));
}

#[test]
fn shared_buffer_round_trip() {
    let data: Vec<f32> = vec![1.5, -2.0, 3.25, 0.0, 7.0];
    let mut mem: MemoryModel<f32> = MemoryModel::new();
    let h = mem.shared_from_iter(BufferUsage::storage_buffer(), data.clone());
    assert_eq!(mem.len(h), 5);
    assert_eq!(mem.read(h), Some(data));
    assert_eq!(mem.info(h).kind, MemoryKind::Shared);
}

#[test]
fn new_buffers_are_zeroed() {
    let mut mem: MemoryModel<u32> = MemoryModel::new();
    let h = mem.new_shared(BufferUsage::storage_buffer(), 3, 0);
    assert_eq!(mem.read(h), Some(vec![0, 0, 0]));
    let d = mem.new_device(BufferUsage::storage_buffer(), 3, 0);
    assert_eq!(mem.len(d), 3);
    assert_eq!(mem.read(d), None);
    assert_eq!(mem.buffer_count(), 2);
}

#[test]
fn device_buffer_round_trip_through_staging() {
    let data: Vec<[f32; 2]> = vec![[1.0, 2.0], [3.0, 4.0], [-5.5, 6.0]];
    let mut mem: MemoryModel<[f32; 2]> = MemoryModel::new();
    let dev = mem.device_from_iter(storage_and_source(), data.clone(), [0.0, 0.0]);
    assert_eq!(dev, 1);
    assert_eq!(mem.buffer_count(), 2);
    let info = mem.info(dev);
    assert_eq!(info.kind, MemoryKind::Device);
    assert_eq!(info.len, 3);
    assert!(info.usage.transfer_dst && info.usage.storage_buffer);
    assert_eq!(mem.info(0).usage, BufferUsage::transfer_src());
    assert_eq!(mem.read(dev), None);
    let back = mem.new_shared(BufferUsage::transfer_dst(), 3, [0.0, 0.0]);
    assert_eq!(mem.copy(dev, back), Ok(3));
    assert_eq!(mem.read(back), Some(data));
}

#[test]
fn copy_refusals_change_nothing() {
    let mut mem: MemoryModel<u8> = MemoryModel::new();
    let dev = mem.device_from_iter(BufferUsage::storage_buffer(), vec![1, 2, 3], 0);
    let back = mem.new_shared(BufferUsage::transfer_dst(), 3, 9);
    assert_eq!(mem.copy(dev, back), Err(CopyError::MissingTransferSrc));
    assert_eq!(mem.read(back), Some(vec![9, 9, 9]));
    let src = mem.shared_from_iter(BufferUsage::transfer_src(), vec![4, 5]);
    assert_eq!(mem.copy(back, src), Err(CopyError::MissingTransferSrc));
    assert_eq!(mem.copy(src, src), Err(CopyError::MissingTransferDst));
    let both = mem.shared_from_iter(
        BufferUsage::transfer_src().union(&BufferUsage::transfer_dst()),
        vec![7],
    );
    assert_eq!(mem.copy(both, both), Err(CopyError::SameBuffer));
    assert_eq!(mem.copy(src, back), Ok(2));
    assert_eq!(mem.read(back), Some(vec![4, 5, 9]));
}

#[test]
fn device_upload_of_1023_tens() {
    let data: Vec<f32> = vec![10.0; 1023];
    let mut mem: MemoryModel<f32> = MemoryModel::new();
    let dev = mem.device_from_iter(storage_and_source(), data, 0.0);
    let out = mem.new_shared(BufferUsage::storage_buffer().union(&BufferUsage::transfer_dst()), 1023, 0.0);
    assert_eq!(mem.copy(dev, out), Ok(1023));
    let back = mem.read(out).unwrap();
    assert_eq!(back.len(), 1023);
    let min = back.iter().cloned().fold(f32::INFINITY, f32::min);
    assert_eq!(min, 10.0);
}

#[test]
fn particle_positions_read_back_unchanged() {
    let positions: Vec<[f32; 3]> = vec![
        [0.0, 0.0, 0.0],
        [1.0, 0.0, 0.0],
        [0.0, 1.0, 0.0],
        [0.0, 0.0, 1.0],
        [-1.0, -1.0, -1.0],
    ];
    let mut mem: MemoryModel<[f32; 3]> = MemoryModel::new();
    let points = mem.shared_from_iter(BufferUsage::vertex_buffer(), positions.clone());
    let draw = hatchery::mesh::instanced_draw(6, mem.len(points) as u32);
    assert_eq!(draw.instance_count, 5);
    assert_eq!(draw.index_count, 6);
    assert_eq!(mem.read(points), Some(positions));
}
