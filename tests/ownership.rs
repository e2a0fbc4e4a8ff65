use sdl3_gpu::error::Error;
use sdl3_gpu::formats::{BufferUsageFlags, BufferUsages};
use sdl3_gpu::registry::{Device, Registry, Release, ResourceKind};
use sdl3_gpu::resources::{Buffer, Texture};
use sdl3_gpu::info::TextureCreateInfo;

fn device(reg: &mut Registry, raw: u64) -> Device {
    match Device::new(reg, raw, String::new()) {
        Ok(d) => d,
        Err(_) => panic!("device creation with a non-null handle must succeed"),
    }
}

fn buffer(reg: &mut Registry, d: &Device, raw: u64, size: u32) -> Buffer {
    match d.create_buffer().with_usage(BufferUsages::of(BufferUsageFlags::Vertex)).with_size(size).build(reg, raw, String::new()) {
        Ok(b) => b,
        Err(_) => panic!("buffer creation with a non-null handle must succeed"),
    }
}

#[test]
fn device_creation_fails_on_null_handle() {
    let mut reg = Registry::new();
    match Device::new(&mut reg, 0, String::from("no compatible backend")) {
        Err(Error::Native(m)) => assert_eq!(m, "no compatible backend"),
        _ => panic!("a null device handle must be an error"),
    }
}

#[test]
fn buffer_has_requested_length() {
    let mut reg = Registry::new();
    let d = device(&mut reg, 0x10);
    let b = buffer(&mut reg, &d, 0x20, 256);
    assert_eq!(b.len(), 256);
    assert_eq!(b.raw(), 0x20);
}

#[test]
fn buffer_creation_failure_carries_message() {
    let mut reg = Registry::new();
    let d = device(&mut reg, 0x10);
    match d.create_buffer().with_size(16).build(&mut reg, 0, String::from("out of memory")) {
        Err(Error::Native(m)) => assert_eq!(m, "out of memory"),
        _ => panic!("a null buffer handle must be an error"),
    }
}

#[test]
fn clones_release_exactly_once_in_creation_order() {
    let mut reg = Registry::new();
    let d = device(&mut reg, 0x10);
    let b = buffer(&mut reg, &d, 0x20, 64);
    let clones: Vec<Buffer> = (0..5).map(|_| b.share(&mut reg)).collect();
    let mut releases = Vec::new();
    for c in clones {
        if let Some(r) = c.release(&mut reg) {
            releases.push(r);
        }
    }
    if let Some(r) = b.release(&mut reg) {
        releases.push(r);
    }
    assert_eq!(releases, vec![Release { device: 0x10, kind: ResourceKind::Buffer, raw: 0x20 }]);
}

#[test]
fn clones_release_exactly_once_first_handle_first() {
    let mut reg = Registry::new();
    let d = device(&mut reg, 0x10);
    let s = match d.create_sampler(&mut reg, 0x30, String::new()) {
        Ok(s) => s,
        Err(_) => panic!("sampler creation must succeed"),
    };
    let c1 = s.share(&mut reg);
    let c2 = c1.share(&mut reg);
    assert_eq!(s.release(&mut reg), None);
    assert_eq!(c2.release(&mut reg), None);
    assert_eq!(
        c1.release(&mut reg),
        Some(Release { device: 0x10, kind: ResourceKind::Sampler, raw: 0x30 })
    );
}

#[test]
fn single_handle_releases_on_drop() {
    let mut reg = Registry::new();
    let d = device(&mut reg, 0x10);
    let b = buffer(&mut reg, &d, 0x20, 8);
    assert_eq!(
        b.release(&mut reg),
        Some(Release { device: 0x10, kind: ResourceKind::Buffer, raw: 0x20 })
    );
}

#[test]
fn device_dropped_first_skips_release() {
    let mut reg = Registry::new();
    let d = device(&mut reg, 0x10);
    let b = buffer(&mut reg, &d, 0x20, 8);
    let c = b.share(&mut reg);
    assert_eq!(d.release(&mut reg), Some(0x10));
    assert_eq!(b.release(&mut reg), None);
    assert_eq!(c.release(&mut reg), None);
}

#[test]
fn device_destroyed_with_last_reference_only() {
    let mut reg = Registry::new();
    let d = device(&mut reg, 0x10);
    let d2 = d.share(&mut reg);
    let b = buffer(&mut reg, &d, 0x20, 8);
    assert_eq!(d.release(&mut reg), None);
    assert!(reg.owner_alive(b.resource()));
    assert_eq!(
        b.release(&mut reg),
        Some(Release { device: 0x10, kind: ResourceKind::Buffer, raw: 0x20 })
    );
    assert_eq!(d2.release(&mut reg), Some(0x10));
}

#[test]
fn owned_texture_keeps_size_and_releases() {
    let mut reg = Registry::new();
    let d = device(&mut reg, 0x10);
    let info = TextureCreateInfo::new().with_width(640).with_height(480);
    let t: Texture<'static> = match d.create_texture(&mut reg, &info, 0x40, String::new()) {
        Ok(t) => t,
        Err(_) => panic!("texture creation must succeed"),
    };
    assert_eq!((t.width(), t.height()), (640, 480));
    assert!(!t.is_swapchain());
    let t2 = t.share(&mut reg);
    assert_eq!(t.release(&mut reg), None);
    assert_eq!(
        t2.release(&mut reg),
        Some(Release { device: 0x10, kind: ResourceKind::Texture, raw: 0x40 })
    );
}

#[test]
fn shader_and_pipeline_build() {
    let mut reg = Registry::new();
    let d = device(&mut reg, 0x10);
    let code = [1u8, 2, 3];
    let builder = d
        .create_shader()
        .with_code(sdl3_gpu::formats::ShaderFormat::SpirV, &code, sdl3_gpu::formats::ShaderStage::Fragment)
        .with_entrypoint("frag_main")
        .with_samplers(2);
    assert_eq!(builder.entrypoint, "frag_main");
    assert_eq!(builder.num_samplers, 2);
    assert_eq!(builder.code.len(), 3);
    let shader = match builder.build(&mut reg, 0x50, String::new()) {
        Ok(s) => s,
        Err(_) => panic!("shader creation must succeed"),
    };
    let p = d.create_graphics_pipeline().with_fragment_shader(&shader).with_vertex_shader(&shader);
    assert_eq!(p.fragment_shader, 0x50);
    assert_eq!(p.vertex_shader, 0x50);
    match p.build(&mut reg, 0, String::from("bad pipeline")) {
        Err(Error::Native(m)) => assert_eq!(m, "bad pipeline"),
        _ => panic!("a null pipeline handle must be an error"),
    }
}

#[test]
fn default_shader_entrypoint_is_main() {
    let mut reg = Registry::new();
    let d = device(&mut reg, 0x10);
    assert_eq!(d.create_shader().entrypoint, "main");
}

#[test]
fn buffer_builder_starts_without_usage() {
    let mut reg = Registry::new();
    let d = device(&mut reg, 0x10);
    let b = d.create_buffer();
    assert_eq!(b.usage(), BufferUsages::empty());
    let both = BufferUsages::of(BufferUsageFlags::Vertex).union(BufferUsages::of(BufferUsageFlags::Index));
    let b = b.with_usage(both);
    assert!(b.usage().contains(BufferUsageFlags::Vertex));
    assert!(b.usage().contains(BufferUsageFlags::Index));
    assert_eq!(b.usage().bits, 3);
}
