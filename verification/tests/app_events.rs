use carbo::app::{is_slow_cycle, AppState, Effect, Flow, Reaction, Warning, SLOW_CYCLE_NANOS};
use carbo::event::{Event, ScaleFactor, WindowEvent, WindowingEvent, WinitEventLoopEvent};
use carbo::executor::{Command, EventLoopCommand};
use carbo::renderer::{FrameInput, RendererCommand};

type TestEvent = Event<&'static str, u32, String>;
type TestReaction = Reaction<&'static str, u8, String>;

fn with_window() -> AppState<u8, u32> {
    let mut state: AppState<u8, u32> = AppState::new(7);
    let _ = state.handle_event::<&'static str, String>(Event::RendererSpawned(11));
    state
}

fn window_event(e: WindowEvent) -> TestEvent {
    Event::Windowing(WindowingEvent::Window(3, e))
}

#[test]
fn new_state_has_no_window() {
    let state: AppState<u8, u32> = AppState::new(7);
    assert_eq!(state.get_window_handle(), None);
    assert_eq!(*state.gpu(), 7);
}

#[test]
fn resumed_asks_to_build_window() {
    let mut state: AppState<u8, u32> = AppState::new(7);
    let r: TestReaction = state.handle_event(Event::Windowing(WindowingEvent::EventLoop(
        WinitEventLoopEvent::Resumed,
    )));
    assert_eq!(r.effects, vec![Effect::Command(Command::EventLoopCommand(EventLoopCommand::BuildWindow))]);
    assert_eq!(r.flow, Flow::Continue);
    assert_eq!(state.get_window_handle(), None);
}

#[test]
fn window_built_asks_for_renderer_on_gpu() {
    let mut state: AppState<u8, u32> = AppState::new(7);
    let r: TestReaction = state.handle_event(Event::Windowing(WindowingEvent::WindowBuilt("main")));
    assert_eq!(r.effects, vec![Effect::Command(Command::SpawnRenderer("main", 7))]);
    assert_eq!(r.flow, Flow::Continue);
}

#[test]
fn renderer_spawned_keeps_handle_and_redraws() {
    let mut state: AppState<u8, u32> = AppState::new(7);
    let r: TestReaction = state.handle_event(Event::RendererSpawned(11));
    assert_eq!(r.effects, vec![Effect::RequestRedraw]);
    assert_eq!(r.flow, Flow::Continue);
    assert_eq!(state.get_window_handle(), Some(&11));
}

#[test]
fn suspended_drops_window() {
    let mut state = with_window();
    let r: TestReaction = state.handle_event(Event::Windowing(WindowingEvent::EventLoop(
        WinitEventLoopEvent::Suspended,
    )));
    assert!(r.effects.is_empty());
    assert_eq!(r.flow, Flow::Continue);
    assert_eq!(state.get_window_handle(), None);
}

#[test]
fn exiting_ends_loop_without_command() {
    let mut state = with_window();
    let r: TestReaction = state.handle_event(Event::Windowing(WindowingEvent::EventLoop(
        WinitEventLoopEvent::Exiting,
    )));
    assert!(r.effects.is_empty());
    assert_eq!(r.flow, Flow::Exit(Ok(())));
    assert_eq!(state.get_window_handle(), Some(&11));
}

#[test]
fn resize_goes_to_renderer_then_redraw() {
    let mut state = with_window();
    let r: TestReaction = state.handle_event(window_event(WindowEvent::Resized { width: 1024, height: 0 }));
    assert_eq!(
        r.effects,
        vec![Effect::Renderer(RendererCommand::Resized(1024, 0)), Effect::RequestRedraw]
    );
    assert_eq!(r.flow, Flow::Continue);
}

#[test]
fn scale_factor_goes_to_renderer_then_redraw() {
    let mut state = with_window();
    let s = ScaleFactor { bits: 2.0f64.to_bits() };
    let r: TestReaction = state.handle_event(window_event(WindowEvent::ScaleFactorChanged { scale_factor: s }));
    assert_eq!(
        r.effects,
        vec![Effect::Renderer(RendererCommand::ChangedScaleFactor(s)), Effect::RequestRedraw]
    );
    assert_eq!(f64::from_bits(s.bits), 2.0);
}

#[test]
fn redraw_request_sends_frame() {
    let mut state = with_window();
    let r: TestReaction = state.handle_event(window_event(WindowEvent::RedrawRequested));
    assert_eq!(r.effects, vec![Effect::Renderer(RendererCommand::FrameInput(FrameInput {}))]);
}

#[test]
fn other_window_and_device_events_redraw() {
    let mut state = with_window();
    let r: TestReaction = state.handle_event(window_event(WindowEvent::Other));
    assert_eq!(r.effects, vec![Effect::RequestRedraw]);
    let r: TestReaction = state.handle_event(Event::Windowing(WindowingEvent::Device));
    assert_eq!(r.effects, vec![Effect::RequestRedraw]);
    assert_eq!(r.flow, Flow::Continue);
}

#[test]
fn windowless_events_warn_or_do_nothing() {
    let cases: Vec<(TestEvent, Vec<Effect<&'static str, u8>>)> = vec![
        (window_event(WindowEvent::Resized { width: 5, height: 6 }), vec![Effect::Warn(Warning::ResizeWithoutWindow)]),
        (
            window_event(WindowEvent::ScaleFactorChanged { scale_factor: ScaleFactor { bits: 1 } }),
            vec![Effect::Warn(Warning::ScaleFactorChangeWithoutWindow)],
        ),
        (window_event(WindowEvent::RedrawRequested), vec![Effect::Warn(Warning::FrameWithoutWindow)]),
        (window_event(WindowEvent::Other), vec![]),
        (Event::Windowing(WindowingEvent::Device), vec![]),
    ];
    for (e, expected) in cases {
        let mut state: AppState<u8, u32> = AppState::new(7);
        let r: TestReaction = state.handle_event(e);
        assert_eq!(r.effects, expected);
        assert_eq!(r.flow, Flow::Continue);
        assert_eq!(state.get_window_handle(), None);
    }
}

#[test]
fn no_warnings_with_a_window() {
    let events: Vec<TestEvent> = vec![
        window_event(WindowEvent::Resized { width: 5, height: 6 }),
        window_event(WindowEvent::ScaleFactorChanged { scale_factor: ScaleFactor { bits: 1 } }),
        window_event(WindowEvent::RedrawRequested),
    ];
    for e in events {
        let mut state = with_window();
        let r: TestReaction = state.handle_event(e);
        assert!(r.effects.iter().all(|effect| !matches!(effect, Effect::Warn(_))));
    }
}

#[test]
fn slow_cycles_are_those_over_twenty_microseconds() {
    assert!(!is_slow_cycle(0));
    assert!(!is_slow_cycle(20_000));
    assert!(is_slow_cycle(20_001));
    assert!(is_slow_cycle(std::time::Duration::from_millis(3).as_nanos()));
    assert_eq!(SLOW_CYCLE_NANOS, 20_000);
}

#[test]
fn close_request_shuts_down() {
    let mut state = with_window();
    let r: TestReaction = state.handle_event(window_event(WindowEvent::CloseRequested));
    assert_eq!(r.effects, vec![Effect::Command(Command::EventLoopCommand(EventLoopCommand::ExitEventLoop))]);
    assert_eq!(r.flow, Flow::Exit(Ok(())));
    assert_eq!(state.get_window_handle(), None);
}

#[test]
fn exit_request_shuts_down() {
    let mut state = with_window();
    let r: TestReaction = state.handle_event(Event::ExitRequested);
    assert_eq!(r.effects, vec![Effect::Command(Command::EventLoopCommand(EventLoopCommand::ExitEventLoop))]);
    assert_eq!(r.flow, Flow::Exit(Ok(())));
    assert_eq!(state.get_window_handle(), None);
}

#[test]
fn critical_failure_shuts_down_with_report() {
    let mut state = with_window();
    let r: TestReaction = state.handle_event(Event::CriticalFailure("no adapter".to_string()));
    assert_eq!(r.effects, vec![Effect::Command(Command::EventLoopCommand(EventLoopCommand::ExitEventLoop))]);
    assert_eq!(r.flow, Flow::Exit(Err("no adapter".to_string())));
    assert_eq!(state.get_window_handle(), None);
}

#[test]
fn close_without_window_still_shuts_down() {
    let mut state: AppState<u8, u32> = AppState::new(7);
    let r: TestReaction = state.handle_event(window_event(WindowEvent::CloseRequested));
    assert_eq!(r.effects, vec![Effect::Command(Command::EventLoopCommand(EventLoopCommand::ExitEventLoop))]);
    assert_eq!(r.flow, Flow::Exit(Ok(())));
}

#[test]
fn loop_goes_on_for_every_other_event() {
    let events: Vec<TestEvent> = vec![
        Event::Windowing(WindowingEvent::EventLoop(WinitEventLoopEvent::Resumed)),
        Event::Windowing(WindowingEvent::EventLoop(WinitEventLoopEvent::Suspended)),
        window_event(WindowEvent::Resized { width: 1, height: 1 }),
        window_event(WindowEvent::ScaleFactorChanged { scale_factor: ScaleFactor { bits: 0 } }),
        window_event(WindowEvent::RedrawRequested),
        window_event(WindowEvent::Other),
        Event::Windowing(WindowingEvent::Device),
        Event::Windowing(WindowingEvent::WindowBuilt("w")),
        Event::RendererSpawned(12),
    ];
    for e in events {
        let mut state = with_window();
        let r: TestReaction = state.handle_event(e);
        assert_eq!(r.flow, Flow::Continue);
        assert!(!r.effects.contains(&Effect::Command(Command::EventLoopCommand(EventLoopCommand::ExitEventLoop))));
    }
}

#[test]
fn new_handle_replaces_old_one() {
    let mut state = with_window();
    let _: TestReaction = state.handle_event(Event::RendererSpawned(99));
    assert_eq!(state.get_window_handle(), Some(&99));
    assert_eq!(*state.gpu(), 7);
}
