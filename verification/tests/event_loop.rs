use carbo::event::{Event, WindowEvent, WindowingEvent, WinitEventLoopEvent};
use carbo::executor::{launch_outcome, EventLoopCommand};
use carbo::window_handle::WindowHandle;
use carbo::winit_app::{Delivery, Forward, LoopAction, WindowSpec, WinitApp};

type F = Forward<&'static str, u32, String>;

#[test]
fn build_window_command_builds_main_window() {
    let app = WinitApp::new("carbo");
    assert_eq!(
        app.run_command(EventLoopCommand::BuildWindow),
        LoopAction::BuildWindow(WindowSpec { title: "carbo", logical_width: 800, logical_height: 600 })
    );
    assert_eq!(app.main_window().title, "carbo");
}

#[test]
fn exit_command_leaves_loop() {
    let app = WinitApp::new("cambo");
    assert_eq!(app.run_command(EventLoopCommand::ExitEventLoop), LoopAction::Exit);
    assert_eq!(app.main_window().title, "cambo");
}

#[test]
fn lifecycle_callbacks_are_forwarded() {
    let app = WinitApp::new("carbo");
    let r: F = app.resumed();
    assert_eq!(r, Forward { event: Event::Windowing(WindowingEvent::EventLoop(WinitEventLoopEvent::Resumed)), delivery: Delivery::Required });
    let s: F = app.suspended();
    assert_eq!(s, Forward { event: Event::Windowing(WindowingEvent::EventLoop(WinitEventLoopEvent::Suspended)), delivery: Delivery::Required });
    let e: F = app.exiting();
    assert_eq!(e, Forward { event: Event::Windowing(WindowingEvent::EventLoop(WinitEventLoopEvent::Exiting)), delivery: Delivery::BestEffort });
}

#[test]
fn window_device_and_built_callbacks_are_forwarded() {
    let app = WinitApp::new("carbo");
    let w: F = app.window_event(42, WindowEvent::Resized { width: 2, height: 3 });
    assert_eq!(w.event, Event::Windowing(WindowingEvent::Window(42, WindowEvent::Resized { width: 2, height: 3 })));
    assert_eq!(w.delivery, Delivery::Required);
    let d: F = app.device_event();
    assert_eq!(d.event, Event::Windowing(WindowingEvent::Device));
    let b: F = app.window_built("main");
    assert_eq!(b.event, Event::Windowing(WindowingEvent::WindowBuilt("main")));
    assert_eq!(b.delivery, Delivery::Required);
}

#[test]
fn launched_renderer_is_paired_with_its_window() {
    let e: Event<&'static str, WindowHandle<&'static str, u32>, String> = launch_outcome("main", Ok(5));
    match e {
        Event::RendererSpawned(h) => {
            assert_eq!(*h.window(), "main");
            assert_eq!(*h.renderer(), 5);
        }
        other => panic!("unexpected event {:?}", other),
    }
}

#[test]
fn failed_launch_is_critical() {
    let e: Event<&'static str, WindowHandle<&'static str, u32>, String> =
        launch_outcome("main", Err("failed to create vello renderer".to_string()));
    assert_eq!(e, Event::CriticalFailure("failed to create vello renderer".to_string()));
}

#[test]
fn window_handle_holds_both() {
    let h = WindowHandle::new(1u8, 2u16);
    assert_eq!((*h.window(), *h.renderer()), (1, 2));
}
