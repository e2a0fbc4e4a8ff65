use sdl3_gpu::commands::{CommandBuffer, PassKind};
use sdl3_gpu::error::Error;
use sdl3_gpu::registry::{Device, Registry};

fn setup(reg: &mut Registry) -> (Device, CommandBuffer) {
    let d = match Device::new(reg, 0x10, String::new()) {
        Ok(d) => d,
        Err(_) => panic!("device creation must succeed"),
    };
    let c = match d.acquire_command_buffer(0x100, String::new()) {
        Ok(c) => c,
        Err(_) => panic!("command buffer acquisition must succeed"),
    };
    (d, c)
}

#[test]
fn acquire_command_buffer_fails_on_null() {
    let mut reg = Registry::new();
    let (d, _) = setup(&mut reg);
    match d.acquire_command_buffer(0, String::from("device lost")) {
        Err(Error::Native(m)) => assert_eq!(m, "device lost"),
        _ => panic!("a null command buffer must be an error"),
    }
}

#[test]
fn new_command_buffer_has_no_pass() {
    let mut reg = Registry::new();
    let (_, c) = setup(&mut reg);
    assert_eq!(c.open_pass(), None);
    assert!(c.may_begin_pass());
    assert_eq!(c.raw(), 0x100);
}

#[test]
fn second_render_pass_is_rejected() {
    let mut reg = Registry::new();
    let (d, mut c) = setup(&mut reg);
    let first = d.begin_render_pass(&mut c, 0x200, String::new());
    assert!(first.is_ok());
    match d.begin_render_pass(&mut c, 0x201, String::new()) {
        Err(Error::PassAlreadyOpen) => {}
        _ => panic!("a second render pass must be rejected"),
    }
    assert_eq!(c.open_pass(), Some(PassKind::Render));
}

#[test]
fn copy_and_compute_rejected_while_render_open() {
    let mut reg = Registry::new();
    let (d, mut c) = setup(&mut reg);
    let _rp = d.begin_render_pass(&mut c, 0x200, String::new());
    assert!(matches!(d.begin_copy_pass(&mut c, 0x300, String::new()), Err(Error::PassAlreadyOpen)));
    assert!(matches!(d.begin_compute_pass(&mut c, 0x400, String::new()), Err(Error::PassAlreadyOpen)));
}

#[test]
fn end_then_begin_other_kind_succeeds() {
    let mut reg = Registry::new();
    let (d, mut c) = setup(&mut reg);
    let rp = match d.begin_render_pass(&mut c, 0x200, String::new()) {
        Ok(p) => p,
        Err(_) => panic!("first pass must begin"),
    };
    assert_eq!(rp.raw(), 0x200);
    assert!(d.end_render_pass(&mut c, rp).is_ok());
    assert_eq!(c.open_pass(), None);
    let cp = match d.begin_copy_pass(&mut c, 0x300, String::new()) {
        Ok(p) => p,
        Err(_) => panic!("a copy pass must begin after the render pass ended"),
    };
    assert_eq!(c.open_pass(), Some(PassKind::Copy));
    assert!(d.end_copy_pass(&mut c, cp).is_ok());
    let kp = match d.begin_compute_pass(&mut c, 0x400, String::new()) {
        Ok(p) => p,
        Err(_) => panic!("a compute pass must begin after the copy pass ended"),
    };
    assert!(d.end_compute_pass(&mut c, kp).is_ok());
    assert!(c.submit(true, String::new()).is_ok());
}

#[test]
fn native_begin_failure_leaves_no_pass_open() {
    let mut reg = Registry::new();
    let (d, mut c) = setup(&mut reg);
    match d.begin_render_pass(&mut c, 0, String::from("bad target")) {
        Err(Error::Native(m)) => assert_eq!(m, "bad target"),
        _ => panic!("a null pass must be an error"),
    }
    assert_eq!(c.open_pass(), None);
}

#[test]
fn ending_a_pass_of_another_buffer_is_rejected() {
    let mut reg = Registry::new();
    let (d, mut c) = setup(&mut reg);
    let mut other = match d.acquire_command_buffer(0x101, String::new()) {
        Ok(o) => o,
        Err(_) => panic!("second command buffer must be acquired"),
    };
    let _mine = d.begin_render_pass(&mut c, 0x200, String::new());
    let theirs = match d.begin_render_pass(&mut other, 0x201, String::new()) {
        Ok(p) => p,
        Err(_) => panic!("pass on the other buffer must begin"),
    };
    let theirs = match d.end_render_pass(&mut c, theirs) {
        Err((pass, Error::NoPassOpen)) => pass,
        _ => panic!("ending another buffer's pass must be refused"),
    };
    assert_eq!(theirs.raw(), 0x201);
    assert!(d.end_render_pass(&mut other, theirs).is_ok());
    assert_eq!(c.open_pass(), Some(PassKind::Render));
}

#[test]
fn submit_reports_native_failure() {
    let mut reg = Registry::new();
    let (_, c) = setup(&mut reg);
    match c.submit(false, String::from("queue full")) {
        Err(Error::Native(m)) => assert_eq!(m, "queue full"),
        _ => panic!("a failed submission must be an error"),
    }
}

#[test]
fn cancel_returns_native_handle() {
    let mut reg = Registry::new();
    let (_, c) = setup(&mut reg);
    assert_eq!(c.cancel(), 0x100);
}

#[test]
fn swapchain_texture_is_borrowed_and_never_released() {
    let mut reg = Registry::new();
    let (_, mut c) = setup(&mut reg);
    {
        let t = match c.acquire_swapchain_texture(true, 0x500, 800, 600, String::new()) {
            Ok(t) => t,
            Err(_) => panic!("swapchain acquisition must succeed"),
        };
        assert!(t.is_swapchain());
        assert_eq!((t.raw(), t.width(), t.height()), (0x500, 800, 600));
        let t2 = t.share(&mut reg);
        assert_eq!(t.release(&mut reg), None);
        assert_eq!(t2.release(&mut reg), None);
    }
    assert!(c.submit(true, String::new()).is_ok());
}

#[test]
fn swapchain_acquire_failure_is_reported() {
    let mut reg = Registry::new();
    let (_, mut c) = setup(&mut reg);
    match c.wait_and_acquire_swapchain_texture(false, 0, 0, 0, String::from("timeout")) {
        Err(Error::Native(m)) => assert_eq!(m, "timeout"),
        _ => panic!("a failed acquisition must be an error"),
    }
}

#[test]
fn error_messages() {
    assert_eq!(Error::Native(String::from("x")).message(), "x");
    assert_eq!(Error::PassAlreadyOpen.message(), "a pass is already open on this command buffer");
    assert_eq!(Error::MapFailed(String::from("y")).message(), "y");
    assert_eq!(Error::PassStillOpen.message(), "a pass is still open on this command buffer");
    assert_eq!(Error::SwapchainUnavailable.message(), "no swapchain image is ready");
}

#[test]
fn submit_with_open_pass_is_refused() {
    let mut reg = Registry::new();
    let (d, mut c) = setup(&mut reg);
    let _pass = d.begin_copy_pass(&mut c, 0x300, String::new());
    assert!(matches!(c.submit(true, String::new()), Err(Error::PassStillOpen)));
}

#[test]
fn swapchain_success_without_image_is_unavailable() {
    let mut reg = Registry::new();
    let (_, mut c) = setup(&mut reg);
    assert!(matches!(
        c.acquire_swapchain_texture(true, 0, 0, 0, String::new()),
        Err(Error::SwapchainUnavailable)
    ));
    assert!(matches!(
        c.wait_and_acquire_swapchain_texture(true, 0, 0, 0, String::new()),
        Err(Error::SwapchainUnavailable)
    ));
}

#[test]
fn swapchain_texture_can_be_a_color_target() {
    let mut reg = Registry::new();
    let (d, mut c) = setup(&mut reg);
    {
        let t = match c.wait_and_acquire_swapchain_texture(true, 0x500, 800, 600, String::new()) {
            Ok(t) => t,
            Err(_) => panic!("swapchain acquisition must succeed"),
        };
        let target = sdl3_gpu::info::ColorTargetInfo::new().with_texture(&t);
        assert_eq!(target.texture, 0x500);
    }
    let rp = match d.begin_render_pass(&mut c, 0x200, String::new()) {
        Ok(p) => p,
        Err(_) => panic!("render pass must begin"),
    };
    assert!(d.end_render_pass(&mut c, rp).is_ok());
    assert!(c.submit(true, String::new()).is_ok());
}
