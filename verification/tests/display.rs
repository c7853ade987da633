use surface_backed::backend::{AttachRequest, CurrencyError};
use surface_backed::context::{DebugCallbackBehavior, IncompatibleOpenGl};
use surface_backed::display::SurfaceBacked;
use surface_backed::platform::{PlatformContext, SurfaceTexture};

fn surface() -> SurfaceTexture {
    SurfaceTexture::new(40, 800, 480)
}

fn display() -> SurfaceBacked {
    match SurfaceBacked::new(PlatformContext::new(9, false, true), surface(), 4) {
        Ok(display) => display,
        Err(_) => panic!("a complete implementation was refused"),
    }
}

#[test]
fn treat_as_current_changes_the_currency_only() {
    assert_eq!(
        PlatformContext::new(9, false, false).treat_as_current(),
        PlatformContext::new(9, true, false)
    );
    assert_eq!(
        PlatformContext::new(9, true, true).treat_as_current(),
        PlatformContext::new(9, true, true)
    );
    assert!(PlatformContext::new(9, true, false).is_current());
    assert!(!PlatformContext::new(9, false, true).is_current());
}

#[test]
fn the_default_debug_behaviour_surfaces_errors() {
    assert_eq!(DebugCallbackBehavior::default(), DebugCallbackBehavior::DebugMessageOnError);
}

#[test]
fn checked_construction_refuses_an_incomplete_implementation() {
    let made = SurfaceBacked::new(PlatformContext::new(9, false, false), surface(), 4);
    assert!(matches!(made, Err(IncompatibleOpenGl)));
    let made = SurfaceBacked::with_debug(
        PlatformContext::new(9, true, false),
        DebugCallbackBehavior::PrintAll,
        surface(),
        4,
    );
    assert!(matches!(made, Err(IncompatibleOpenGl)));
}

#[test]
fn unchecked_construction_accepts_an_incomplete_implementation() {
    let made = SurfaceBacked::unchecked(PlatformContext::new(9, false, false), surface(), 4);
    let display = match made {
        Ok(display) => display,
        Err(_) => panic!("construction without the probe failed"),
    };
    assert_eq!(display.get_context().platform(), 9);
    assert!(!display.get_context().is_checked());
    assert_eq!(display.get_context().debug(), DebugCallbackBehavior::DebugMessageOnError);
    assert_eq!(*display.gl_context(), PlatformContext::new(9, true, false));
    let made = SurfaceBacked::unchecked_with_debug(
        PlatformContext::new(9, false, false),
        DebugCallbackBehavior::Ignore,
        surface(),
        4,
    );
    assert!(made.is_ok());
}

#[test]
fn construction_takes_the_context_as_current() {
    let display = display();
    assert_eq!(*display.gl_context(), PlatformContext::new(9, true, true));
    assert!(display.backend().is_current());
    assert_eq!(display.backend().texture_id(), 4);
    assert_eq!(*display.backend().surface_texture(), surface());
}

#[test]
fn new_probes_and_keeps_the_default_debug_behaviour() {
    let display = display();
    assert_eq!(display.get_context().platform(), 9);
    assert!(display.get_context().is_checked());
    assert_eq!(display.get_context().debug(), DebugCallbackBehavior::DebugMessageOnError);
}

#[test]
fn with_debug_keeps_the_behaviour_it_was_given() {
    let made = SurfaceBacked::with_debug(
        PlatformContext::new(9, false, true),
        DebugCallbackBehavior::PrintAll,
        surface(),
        4,
    );
    let display = match made {
        Ok(display) => display,
        Err(_) => panic!("a complete implementation was refused"),
    };
    assert!(display.is_checked());
    assert_eq!(display.debug(), DebugCallbackBehavior::PrintAll);
    let made = SurfaceBacked::unchecked_with_debug(
        PlatformContext::new(9, false, true),
        DebugCallbackBehavior::Ignore,
        surface(),
        4,
    );
    let display = match made {
        Ok(display) => display,
        Err(_) => panic!("construction without the probe failed"),
    };
    assert!(!display.is_checked());
    assert_eq!(display.debug(), DebugCallbackBehavior::Ignore);
    assert_eq!(display.platform(), 9);
}

#[test]
fn a_frame_has_the_size_of_the_surface_and_the_context_of_the_display() {
    let display = display();
    let frame = display.draw();
    assert_eq!(frame.get_dimensions(), (800, 480));
    assert_eq!(**frame.get_context(), **display.get_context());
    assert!(std::rc::Rc::ptr_eq(frame.get_context(), display.get_context()));
}

#[test]
fn a_resize_between_two_frames_shows_in_the_second() {
    let mut display = display();
    let first = display.draw();
    display.surface_resized(1024, 600);
    let second = display.draw();
    assert_eq!(first.get_dimensions(), (800, 480));
    assert_eq!(second.get_dimensions(), (1024, 600));
    let third = display.draw();
    assert_eq!(third.get_dimensions(), (1024, 600));
}

#[test]
fn finishing_a_frame_swaps_and_succeeds() {
    let display = display();
    let frame = display.draw();
    assert_eq!(frame.finish(display.backend()), Ok(()));
    assert_eq!(*display.gl_context(), PlatformContext::new(9, true, true));
    assert_eq!(display.backend().get_framebuffer_dimensions(), (800, 480));
}

#[test]
fn a_display_goes_through_a_transition_and_back() {
    let display = display();
    let (transition, ctx) = display.begin_make_current();
    assert_eq!(ctx, PlatformContext::new(9, true, true));
    let (display, answer) =
        transition.finish_make_current(Err(PlatformContext::new(9, false, true)));
    assert_eq!(answer, Err(CurrencyError::TransitionFailed));
    assert!(!display.backend().is_current());
    let (transition, ctx) = display.begin_make_current();
    assert_eq!(ctx, PlatformContext::new(9, false, true));
    let (display, answer) = transition.finish_make_current(Ok(ctx.treat_as_current()));
    assert_eq!(answer, Ok(AttachRequest { surface: 40, texture_id: 4 }));
    assert!(display.backend().is_current());
    assert_eq!(*display.gl_context(), PlatformContext::new(9, true, true));
    assert_eq!(display.platform(), 9);
    assert!(display.is_checked());
    assert_eq!(display.draw().get_dimensions(), (800, 480));
}
