use carbo::app::{AppState, Effect, Flow};
use carbo::event::{Event, WindowEvent, WindowingEvent};
use carbo::executor::{launch_outcome, Command, EventLoopCommand};
use carbo::renderer::{RendererAction, RendererState};
use carbo::event::ScaleFactor;
use carbo::surface::SurfaceConfig;
use carbo::window_handle::WindowHandle;
use carbo::winit_app::{LoopAction, WinitApp};

type Handle = WindowHandle<&'static str, u32>;

#[test]
fn main_window_starts_up() {
    let loop_side = WinitApp::new("carbo");
    let mut app: AppState<u8, Handle> = AppState::new(9);

    let resumed = loop_side.resumed::<&'static str, Handle, String>();
    let r = app.handle_event(resumed.event);
    assert_eq!(r.effects, vec![Effect::Command(Command::EventLoopCommand(EventLoopCommand::BuildWindow))]);

    match loop_side.run_command(EventLoopCommand::BuildWindow) {
        LoopAction::BuildWindow(spec) => assert_eq!((spec.title, spec.logical_width, spec.logical_height), ("carbo", 800, 600)),
        LoopAction::Exit => panic!("expected a window to be built"),
    }
    let built = loop_side.window_built::<&'static str, Handle, String>("window-1");
    let r = app.handle_event(built.event);
    assert_eq!(r.effects, vec![Effect::Command(Command::SpawnRenderer("window-1", 9))]);

    let spawned: Event<&'static str, Handle, String> = launch_outcome("window-1", Ok(77));
    let r = app.handle_event(spawned);
    assert_eq!(r.effects, vec![Effect::RequestRedraw]);
    assert_eq!(r.flow, Flow::Continue);
    let h = app.get_window_handle().expect("window kept");
    assert_eq!((*h.window(), *h.renderer()), ("window-1", 77));
}

#[test]
fn resize_then_redraw_draws_at_new_size() {
    let mut app: AppState<u8, u32> = AppState::new(1);
    let _ = app.handle_event::<&'static str, String>(Event::RendererSpawned(4));
    let mut renderer = RendererState::new(SurfaceConfig::for_window_size(800, 600), ScaleFactor { bits: 0 });
    let events: Vec<Event<&'static str, u32, String>> = vec![
        Event::Windowing(WindowingEvent::Window(1, WindowEvent::Resized { width: 0, height: 720 })),
        Event::Windowing(WindowingEvent::Window(1, WindowEvent::RedrawRequested)),
    ];
    let mut frames = Vec::new();
    for e in events {
        let r = app.handle_event(e);
        for effect in r.effects {
            if let Effect::Renderer(cmd) = effect {
                if let RendererAction::Render(full) = renderer.handle_command(cmd) {
                    frames.push(full);
                }
            }
        }
    }
    assert_eq!(frames.len(), 1);
    assert_eq!((frames[0].width, frames[0].height, frames[0].frame_count), (1, 720, 0));
    assert_eq!(renderer.frame_count(), 1);
}

#[test]
fn failed_launch_shuts_down_with_report() {
    let mut app: AppState<u8, Handle> = AppState::new(9);
    let _ = app.handle_event::<&'static str, String>(Event::Windowing(WindowingEvent::WindowBuilt("w")));
    let failed: Event<&'static str, Handle, String> = launch_outcome("w", Err("no device".to_string()));
    let r = app.handle_event(failed);
    assert_eq!(r.effects, vec![Effect::Command(Command::EventLoopCommand(EventLoopCommand::ExitEventLoop))]);
    assert_eq!(r.flow, Flow::Exit(Err("no device".to_string())));
    assert!(app.get_window_handle().is_none());
}

#[test]
fn scale_change_then_redraw_draws_at_new_scale() {
    let mut app: AppState<u8, u32> = AppState::new(1);
    let _ = app.handle_event::<&'static str, String>(Event::RendererSpawned(4));
    let mut renderer = RendererState::new(SurfaceConfig::for_window_size(640, 480), ScaleFactor { bits: 1.0f64.to_bits() });
    let two = ScaleFactor { bits: 2.0f64.to_bits() };
    let events: Vec<Event<&'static str, u32, String>> = vec![
        Event::Windowing(WindowingEvent::Window(1, WindowEvent::RedrawRequested)),
        Event::Windowing(WindowingEvent::Window(1, WindowEvent::ScaleFactorChanged { scale_factor: two })),
        Event::Windowing(WindowingEvent::Window(1, WindowEvent::RedrawRequested)),
        Event::Windowing(WindowingEvent::Window(1, WindowEvent::RedrawRequested)),
    ];
    let mut frames = Vec::new();
    let mut redraws = 0;
    for e in events {
        for effect in app.handle_event(e).effects {
            match effect {
                Effect::Renderer(cmd) => {
                    if let RendererAction::Render(full) = renderer.handle_command(cmd) {
                        frames.push(full);
                    }
                }
                Effect::RequestRedraw => redraws += 1,
                Effect::Command(_) | Effect::Warn(_) => panic!("no command or warning expected"),
            }
        }
    }
    assert_eq!(redraws, 1);
    let scales: Vec<f64> = frames.iter().map(|f| f64::from_bits(f.scale_factor.bits)).collect();
    assert_eq!(scales, vec![1.0, 2.0, 2.0]);
    let numbers: Vec<u64> = frames.iter().map(|f| f.frame_count).collect();
    assert_eq!(numbers, vec![0, 1, 2]);
    assert!(frames.iter().all(|f| (f.width, f.height) == (640, 480)));
}

#[test]
fn loop_handles_events_in_order_and_stops_at_the_first_ending_one() {
    let mut app: AppState<u8, u32> = AppState::new(3);
    let events: Vec<Event<&'static str, u32, String>> = vec![
        Event::Windowing(WindowingEvent::Window(1, WindowEvent::RedrawRequested)),
        Event::RendererSpawned(8),
        Event::Windowing(WindowingEvent::Window(1, WindowEvent::Resized { width: 4, height: 5 })),
        Event::CriticalFailure("lost device".to_string()),
        Event::Windowing(WindowingEvent::WindowBuilt("never handled")),
    ];
    let mut effects = Vec::new();
    let mut outcome = None;
    for e in events {
        let r = app.handle_event(e);
        effects.extend(r.effects);
        if let Flow::Exit(o) = r.flow {
            outcome = Some(o);
            break;
        }
    }
    assert_eq!(
        effects,
        vec![
            Effect::Warn(carbo::app::Warning::FrameWithoutWindow),
            Effect::RequestRedraw,
            Effect::Renderer(carbo::renderer::RendererCommand::Resized(4, 5)),
            Effect::RequestRedraw,
            Effect::Command(Command::EventLoopCommand(EventLoopCommand::ExitEventLoop)),
        ]
    );
    assert_eq!(outcome, Some(Err("lost device".to_string())));
    assert!(app.get_window_handle().is_none());
}
