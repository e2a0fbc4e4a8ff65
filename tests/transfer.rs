use sdl3_gpu::error::Error;
use sdl3_gpu::formats::{BufferUsageFlags, BufferUsages, ShaderFormat, ShaderFormats, TransferBufferUsage};
use sdl3_gpu::info::{BufferRegion, TextureRegion, TextureTransferInfo, TransferBufferLocation};
use sdl3_gpu::registry::{Device, Registry};
use sdl3_gpu::resources::TransferBuffer;

fn transfer_buffer(reg: &mut Registry, d: &Device, raw: u64, size: u32) -> TransferBuffer {
    match d
        .create_transfer_buffer()
        .with_usage(TransferBufferUsage::Upload)
        .with_size(size)
        .build(reg, raw, String::new())
    {
        Ok(t) => t,
        Err(_) => panic!("transfer buffer creation must succeed"),
    }
}

#[test]
fn upload_scenario() {
    let mut reg = Registry::new();
    let flags = ShaderFormats::of(ShaderFormat::SpirV);
    assert!(flags.contains(ShaderFormat::SpirV));
    let d = match Device::new(&mut reg, 0x10, String::new()) {
        Ok(d) => d,
        Err(_) => panic!("device creation must succeed"),
    };
    let buffer = match d.create_buffer().with_usage(BufferUsages::of(BufferUsageFlags::Vertex)).with_size(256).build(&mut reg, 0x20, String::new()) {
        Ok(b) => b,
        Err(_) => panic!("buffer creation must succeed"),
    };
    assert_eq!(buffer.len(), 256);
    let tb = transfer_buffer(&mut reg, &d, 0x30, 256);
    let mapping = match tb.map(&mut reg, std::mem::size_of::<u32>(), 0x7000, String::new()) {
        Ok(m) => m,
        Err(_) => panic!("mapping must succeed"),
    };
    assert_eq!(mapping.count(), 64);
    assert_eq!(mapping.mem(), 0x7000);
    assert!(tb.is_mapped(&reg));
    assert_eq!(mapping.unmap(&mut reg), 0x30);
    assert!(!tb.is_mapped(&reg));
    let mut cmd = match d.acquire_command_buffer(0x100, String::new()) {
        Ok(c) => c,
        Err(_) => panic!("command buffer must be acquired"),
    };
    let pass = match d.begin_copy_pass(&mut cmd, 0x300, String::new()) {
        Ok(p) => p,
        Err(_) => panic!("copy pass must begin"),
    };
    let location = TransferBufferLocation::new().with_transfer_buffer(&tb).with_offset(0);
    let region = BufferRegion::new().with_buffer(&buffer).with_offset(0).with_size(256);
    assert_eq!(region.size, 256);
    assert_eq!(region.buffer, 0x20);
    assert!(pass.upload_to_gpu_buffer(&reg, &location, &region, false).is_ok());
    assert!(d.end_copy_pass(&mut cmd, pass).is_ok());
    assert!(cmd.submit(true, String::new()).is_ok());
}

#[test]
fn mapping_twice_is_rejected() {
    let mut reg = Registry::new();
    let d = match Device::new(&mut reg, 0x10, String::new()) {
        Ok(d) => d,
        Err(_) => panic!("device creation must succeed"),
    };
    let tb = transfer_buffer(&mut reg, &d, 0x30, 64);
    let clone = tb.share(&mut reg);
    let _m = tb.map(&mut reg, 1, 0x7000, String::new());
    assert!(matches!(clone.map(&mut reg, 1, 0x7000, String::new()), Err(Error::AlreadyMapped)));
}

#[test]
fn null_mapping_is_an_error() {
    let mut reg = Registry::new();
    let d = match Device::new(&mut reg, 0x10, String::new()) {
        Ok(d) => d,
        Err(_) => panic!("device creation must succeed"),
    };
    let tb = transfer_buffer(&mut reg, &d, 0x30, 64);
    match tb.map(&mut reg, 4, 0, String::from("map failed")) {
        Err(Error::MapFailed(m)) => assert_eq!(m, "map failed"),
        _ => panic!("a null mapping must be an error"),
    }
    assert!(!tb.is_mapped(&reg));
}

#[test]
fn mapping_count_rounds_down() {
    let mut reg = Registry::new();
    let d = match Device::new(&mut reg, 0x10, String::new()) {
        Ok(d) => d,
        Err(_) => panic!("device creation must succeed"),
    };
    let tb = transfer_buffer(&mut reg, &d, 0x30, 10);
    match tb.map(&mut reg, 4, 0x7000, String::new()) {
        Ok(m) => assert_eq!(m.count(), 2),
        Err(_) => panic!("mapping must succeed"),
    }
}

#[test]
fn upload_while_mapped_is_rejected() {
    let mut reg = Registry::new();
    let d = match Device::new(&mut reg, 0x10, String::new()) {
        Ok(d) => d,
        Err(_) => panic!("device creation must succeed"),
    };
    let tb = transfer_buffer(&mut reg, &d, 0x30, 64);
    let _m = tb.map(&mut reg, 4, 0x7000, String::new());
    let mut cmd = match d.acquire_command_buffer(0x100, String::new()) {
        Ok(c) => c,
        Err(_) => panic!("command buffer must be acquired"),
    };
    let pass = match d.begin_copy_pass(&mut cmd, 0x300, String::new()) {
        Ok(p) => p,
        Err(_) => panic!("copy pass must begin"),
    };
    let location = TransferBufferLocation::new().with_transfer_buffer(&tb);
    let region = BufferRegion::new().with_size(64);
    assert!(matches!(pass.upload_to_gpu_buffer(&reg, &location, &region, true), Err(Error::StillMapped)));
    let info = TextureTransferInfo::new().with_transfer_buffer(&tb).with_pixels_per_row(4);
    let tregion = TextureRegion::new().with_width(4).with_height(4).with_depth(1);
    assert_eq!((tregion.w, tregion.h, tregion.d), (4, 4, 1));
    assert!(matches!(pass.upload_to_gpu_texture(&reg, &info, &tregion, false), Err(Error::StillMapped)));
}

#[test]
fn remap_after_unmap_succeeds() {
    let mut reg = Registry::new();
    let d = match Device::new(&mut reg, 0x10, String::new()) {
        Ok(d) => d,
        Err(_) => panic!("device creation must succeed"),
    };
    let tb = transfer_buffer(&mut reg, &d, 0x30, 64);
    let first = match tb.map(&mut reg, 8, 0x7000, String::new()) {
        Ok(m) => m,
        Err(_) => panic!("first mapping must succeed"),
    };
    assert_eq!(first.count(), 8);
    assert_eq!(first.transfer_buffer(), 0x30);
    first.unmap(&mut reg);
    let second = match tb.map(&mut reg, 2, 0x8000, String::new()) {
        Ok(m) => m,
        Err(_) => panic!("mapping again after unmap must succeed"),
    };
    assert_eq!(second.count(), 32);
}

fn copy_pass_setup(reg: &mut Registry) -> (Device, TransferBuffer, sdl3_gpu::commands::CopyPass) {
    let d = match Device::new(reg, 0x10, String::new()) {
        Ok(d) => d,
        Err(_) => panic!("device creation must succeed"),
    };
    let tb = transfer_buffer(reg, &d, 0x30, 64);
    let mut cmd = match d.acquire_command_buffer(0x100, String::new()) {
        Ok(c) => c,
        Err(_) => panic!("command buffer must be acquired"),
    };
    let pass = match d.begin_copy_pass(&mut cmd, 0x300, String::new()) {
        Ok(p) => p,
        Err(_) => panic!("copy pass must begin"),
    };
    (d, tb, pass)
}

#[test]
fn upload_without_transfer_buffer_is_refused() {
    let mut reg = Registry::new();
    let (_d, _tb, pass) = copy_pass_setup(&mut reg);
    let location = TransferBufferLocation::new();
    let region = BufferRegion::new().with_size(64);
    assert!(matches!(
        pass.upload_to_gpu_buffer(&reg, &location, &region, false),
        Err(Error::UnknownTransferBuffer)
    ));
    let info = TextureTransferInfo::new();
    assert!(matches!(
        pass.upload_to_gpu_texture(&reg, &info, &TextureRegion::new(), false),
        Err(Error::UnknownTransferBuffer)
    ));
}

#[test]
fn upload_with_mismatched_handle_is_refused() {
    let mut reg = Registry::new();
    let (_d, tb, pass) = copy_pass_setup(&mut reg);
    let mut location = TransferBufferLocation::new().with_transfer_buffer(&tb);
    location.transfer_buffer = 0x31;
    assert!(matches!(
        pass.upload_to_gpu_buffer(&reg, &location, &BufferRegion::new(), false),
        Err(Error::UnknownTransferBuffer)
    ));
}

#[test]
fn upload_from_released_transfer_buffer_is_refused() {
    let mut reg = Registry::new();
    let (_d, tb, pass) = copy_pass_setup(&mut reg);
    let location = TransferBufferLocation::new().with_transfer_buffer(&tb);
    assert!(pass.upload_to_gpu_buffer(&reg, &location, &BufferRegion::new(), false).is_ok());
    assert!(tb.release(&mut reg).is_some());
    assert!(matches!(
        pass.upload_to_gpu_buffer(&reg, &location, &BufferRegion::new(), false),
        Err(Error::UnknownTransferBuffer)
    ));
}
