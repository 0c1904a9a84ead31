use ifocus_core::controller::Controller;
use ifocus_core::controller::Transition;
use ifocus_core::errors::ModeError;
use ifocus_core::geometry::Dim;
use ifocus_core::geometry::GeometryRect;
use ifocus_core::geometry::Point;
use ifocus_core::geometry::screen_to_container;
use ifocus_core::locator::WindowHandle;
use ifocus_core::monitors::MonitorDescriptor;
use ifocus_core::state::AppState;
use ifocus_core::state::ModeState;
use ifocus_core::window::InsertionPoint;
use ifocus_core::window::WindowModel;
use ifocus_core::window::WindowOp;
use ifocus_core::window::apply_plan;

fn monitor(name: &str, x: i64, y: i64, w: u32, h: u32, primary: bool) -> MonitorDescriptor {
    MonitorDescriptor {
        name: name.to_string(),
        position: Point { x, y },
        size: Dim { width: w, height: h },
        scale_permille: 1000,
        is_primary: primary,
    }
}

fn two_displays() -> Vec<MonitorDescriptor> {
    vec![
        monitor("A", 0, 0, 1920, 1080, true),
        monitor("B", 1920, 0, 1280, 1024, false),
    ]
}

fn primary_rect() -> GeometryRect {
    GeometryRect { x: 0, y: 0, width: 1920, height: 1080 }
}

fn normal_window() -> WindowModel {
    WindowModel {
        position: Point { x: 100, y: 100 },
        size: Dim { width: 800, height: 600 },
        parent: None,
        decorations: true,
        resizable: true,
        always_on_top: false,
        at_bottom: false,
        min_size: None,
        max_size: None,
        focused: false,
        rounded_corners: false,
    }
}

fn insertion(raw: u64, x: i64, y: i64) -> InsertionPoint {
    InsertionPoint { handle: WindowHandle { raw }, origin: Point { x, y } }
}

#[test]
fn initial_state_both_false() {
    let c = Controller::new(true);
    let s = c.current_state();
    assert!(!s.wallpaper_docked);
    assert!(!s.mini_compact);
    let app = AppState::current(&s);
    assert!(!app.mini_mode);
}

#[test]
fn mini_toggle_enters_then_exits() {
    let mut c = Controller::new(true);
    let (t, plan) = c.set_mini_mode();
    assert_eq!(t, Transition::EnterMini);
    assert_eq!(plan[0], WindowOp::SetDecorations(false));
    assert_eq!(plan[1], WindowOp::SetResizable(false));
    assert_eq!(plan[2], WindowOp::SetAlwaysOnTop(true));
    let mini = Dim { width: 200, height: 35 };
    assert_eq!(plan[3], WindowOp::SetMinSize(Some(mini)));
    assert_eq!(plan[4], WindowOp::SetMaxSize(Some(mini)));
    assert_eq!(plan[5], WindowOp::SetSize(mini));
    assert_eq!(plan[6], WindowOp::RoundCorners);
    assert_eq!(plan.len(), 7);
    c.commit(t);
    assert!(c.current_state().mini_compact);
    assert!(!c.current_state().wallpaper_docked);

    let (t2, plan2) = c.set_mini_mode();
    assert_eq!(t2, Transition::ExitMini);
    assert_eq!(plan2[0], WindowOp::SetMinSize(Some(Dim { width: 600, height: 400 })));
    assert_eq!(plan2[1], WindowOp::SetMaxSize(None));
    assert_eq!(plan2[5], WindowOp::SetSize(Dim { width: 800, height: 600 }));
    assert_eq!(plan2[6], WindowOp::Center);
    assert_eq!(plan2.len(), 7);
    c.commit(t2);
    assert_eq!(
        c.current_state(),
        ModeState { wallpaper_docked: false, mini_compact: false }
    );
}

#[test]
fn unsupported_platform_is_rejected_first() {
    let c = Controller::new(false);
    let r = c.set_wallpaper_mode(&two_displays(), Some(0), Some(insertion(7, 0, 0)));
    assert!(matches!(r, Err(ModeError::UnsupportedPlatform)));
}

#[test]
fn missing_layer_is_rejected() {
    let c = Controller::new(true);
    let r = c.set_wallpaper_mode(&two_displays(), Some(0), None);
    assert!(matches!(r, Err(ModeError::DesktopLayerUnavailable)));
    assert!(!c.current_state().wallpaper_docked);
}

#[test]
fn invalid_monitor_index_changes_no_state() {
    let mut c = Controller::new(true);
    let before = c.current_state();
    let r = c.set_wallpaper_mode(&two_displays(), Some(2), Some(insertion(7, 0, 0)));
    assert!(matches!(r, Err(ModeError::InvalidMonitorIndex)));
    assert_eq!(c.current_state(), before);

    // The same rejection reaches a mini-compact controller untouched.
    let (t, _) = c.set_mini_mode();
    c.commit(t);
    let before2 = c.current_state();
    let r2 = c.set_wallpaper_mode(&two_displays(), Some(99), Some(insertion(7, 0, 0)));
    assert!(matches!(r2, Err(ModeError::InvalidMonitorIndex)));
    assert_eq!(c.current_state(), before2);
}

#[test]
fn no_primary_monitor_changes_no_state() {
    let c = Controller::new(true);
    let ms = vec![
        monitor("A", 0, 0, 1920, 1080, false),
        monitor("B", 1920, 0, 1280, 1024, false),
    ];
    let r = c.set_wallpaper_mode(&ms, None, Some(insertion(7, 0, 0)));
    assert!(matches!(r, Err(ModeError::NoPrimaryMonitor)));
    assert_eq!(
        c.current_state(),
        ModeState { wallpaper_docked: false, mini_compact: false }
    );
}

#[test]
fn default_selector_targets_primary_display() {
    let c = Controller::new(true);
    let ms = vec![
        monitor("A", -1920, 0, 1920, 1080, false),
        monitor("B", 0, 0, 2560, 1440, true),
    ];
    let ip = insertion(7, 0, 0);
    let plan = match c.set_wallpaper_mode(&ms, None, Some(ip)) {
        Ok((t, plan)) => {
            assert_eq!(t, Transition::EnterWallpaper);
            plan
        },
        Err(e) => panic!("unexpected error {:?}", e),
    };
    // The plan positions and sizes the window to the primary display's
    // rectangle in screen coordinates before reparenting.
    assert_eq!(plan[2], WindowOp::SetPosition(Point { x: 0, y: 0 }));
    assert_eq!(plan[3], WindowOp::SetSize(Dim { width: 2560, height: 1440 }));
}

#[test]
fn enter_plan_targets_each_listed_monitor() {
    let c = Controller::new(true);
    let ms = two_displays();
    let ip = insertion(42, 0, 0);
    for i in 0..ms.len() {
        let plan = c
            .prepare_enter_wallpaper(&ms, Some(i), Some(ip))
            .expect("entry must succeed for an in-range selector");
        let mut w = normal_window();
        apply_plan(&mut w, &plan, &primary_rect());
        // Reparented, so the absolute rectangle is the parent origin plus
        // the stored relative position.
        let origin = match w.parent {
            Some(p) => p.origin,
            None => Point { x: 0, y: 0 },
        };
        assert_eq!(origin.x + w.position.x, ms[i].position.x);
        assert_eq!(origin.y + w.position.y, ms[i].position.y);
        assert_eq!(w.size, ms[i].size);
    }
}

#[test]
fn two_display_docking_scenario() {
    // Two displays, primary at (0,0,1920,1080), secondary at
    // (1920,0,1280,1024); the insertion point's client area starts at
    // (10,20) on the screen.
    let c = Controller::new(true);
    let ms = two_displays();
    let ip = insertion(42, 10, 20);
    let (t, plan) = c
        .set_wallpaper_mode(&ms, Some(1), Some(ip))
        .expect("docking onto the secondary display must succeed");
    assert_eq!(t, Transition::EnterWallpaper);

    let mut w = normal_window();
    apply_plan(&mut w, &plan, &primary_rect());

    // Container-relative position: the target origin minus the insertion
    // point's own screen origin.
    assert_eq!(w.position, Point { x: 1910, y: -20 });
    // Absolute screen rectangle equals the secondary display's rectangle.
    assert_eq!(w.parent, Some(ip));
    assert_eq!(10 + w.position.x, 1920);
    assert_eq!(20 + w.position.y, 0);
    assert_eq!(w.size, Dim { width: 1280, height: 1024 });
    assert!(w.at_bottom);
    assert!(!w.decorations);
    assert!(!w.resizable);
}

#[test]
fn wallpaper_roundtrip_restores_window_and_state() {
    let mut c = Controller::new(true);
    let ms = two_displays();
    let ip = insertion(42, 0, 0);
    let before = c.current_state();

    let plan = c
        .prepare_enter_wallpaper(&ms, None, Some(ip))
        .expect("entry must succeed");
    let mut w = normal_window();
    apply_plan(&mut w, &plan, &primary_rect());
    c.commit(Transition::EnterWallpaper);
    assert!(c.current_state().wallpaper_docked);
    assert!(w.parent.is_some());

    let exit = c.prepare_exit_wallpaper();
    apply_plan(&mut w, &exit, &primary_rect());
    c.commit(Transition::ExitWallpaper);

    assert_eq!(c.current_state(), before);
    assert!(w.parent.is_none());
    assert!(w.decorations);
    assert!(w.resizable);
    assert!(!w.always_on_top);
    assert!(!w.at_bottom);
    assert!(w.focused);
    assert_eq!(w.size, Dim { width: 800, height: 600 });
    // Centered on the primary display: (1920-800)/2 and (1080-600)/2.
    assert_eq!(w.position, Point { x: 560, y: 240 });
}

#[test]
fn mini_toggle_keeps_wallpaper_axis() {
    let mut c = Controller::new(true);
    let ms = two_displays();
    let ip = insertion(42, 0, 0);
    let plan = c
        .prepare_enter_wallpaper(&ms, None, Some(ip))
        .expect("entry must succeed");
    let mut w = normal_window();
    apply_plan(&mut w, &plan, &primary_rect());
    c.commit(Transition::EnterWallpaper);

    // Toggle mini twice while docked: the wallpaper flag and the window's
    // parent stay put.
    let (t, mini_plan) = c.set_mini_mode();
    apply_plan(&mut w, &mini_plan, &primary_rect());
    c.commit(t);
    assert!(c.current_state().wallpaper_docked);
    assert!(c.current_state().mini_compact);
    assert_eq!(w.parent, Some(ip));

    let (t2, mini_exit) = c.set_mini_mode();
    apply_plan(&mut w, &mini_exit, &primary_rect());
    c.commit(t2);
    assert!(c.current_state().wallpaper_docked);
    assert!(!c.current_state().mini_compact);
    assert_eq!(w.parent, Some(ip));
}

#[test]
fn wallpaper_toggle_keeps_mini_axis() {
    let mut c = Controller::new(true);
    let (t, _) = c.set_mini_mode();
    c.commit(t);
    assert!(c.current_state().mini_compact);

    let ms = two_displays();
    let ip = insertion(42, 0, 0);
    let (t2, _) = c
        .set_wallpaper_mode(&ms, None, Some(ip))
        .expect("entry must succeed");
    c.commit(t2);
    assert!(c.current_state().wallpaper_docked);
    assert!(c.current_state().mini_compact);

    let (t3, _) = c
        .set_wallpaper_mode(&ms, None, Some(ip))
        .expect("the toggle exits when docked");
    assert_eq!(t3, Transition::ExitWallpaper);
    c.commit(t3);
    assert!(!c.current_state().wallpaper_docked);
    assert!(c.current_state().mini_compact);
}

#[test]
fn forced_exit_clears_both_flags() {
    let mut c = Controller::new(true);
    let ms = two_displays();
    let ip = insertion(42, 0, 0);
    let plan = c
        .prepare_enter_wallpaper(&ms, None, Some(ip))
        .expect("entry must succeed");
    let mut w = normal_window();
    apply_plan(&mut w, &plan, &primary_rect());
    c.commit(Transition::EnterWallpaper);
    let (t, mini_plan) = c.set_mini_mode();
    apply_plan(&mut w, &mini_plan, &primary_rect());
    c.commit(t);
    assert_eq!(
        c.current_state(),
        ModeState { wallpaper_docked: true, mini_compact: true }
    );

    let exit_plan = c.forced_exit();
    assert_eq!(
        c.current_state(),
        ModeState { wallpaper_docked: false, mini_compact: false }
    );
    // Wallpaper exit first, mini exit after: both attempted.
    assert_eq!(exit_plan.len(), 14);
    assert_eq!(exit_plan[0], WindowOp::Detach);
    assert_eq!(exit_plan[7], WindowOp::SetMinSize(Some(Dim { width: 600, height: 400 })));
}

#[test]
fn forced_exit_from_initial_state_is_empty() {
    let mut c = Controller::new(true);
    let plan = c.forced_exit();
    assert!(plan.is_empty());
    assert_eq!(
        c.current_state(),
        ModeState { wallpaper_docked: false, mini_compact: false }
    );
}

#[test]
fn forced_exit_mini_only() {
    let mut c = Controller::new(true);
    let (t, _) = c.set_mini_mode();
    c.commit(t);
    let plan = c.forced_exit();
    assert_eq!(plan.len(), 7);
    assert_eq!(plan[0], WindowOp::SetMinSize(Some(Dim { width: 600, height: 400 })));
    assert!(!c.current_state().mini_compact);
}

#[test]
fn mini_prepare_plans_match_toggle_plans() {
    let mut c = Controller::new(false);
    let enter = c.prepare_enter_mini();
    let (t, toggle_enter) = c.set_mini_mode();
    assert_eq!(enter, toggle_enter);
    c.commit(t);

    let exit = c.prepare_exit_mini();
    let (t2, toggle_exit) = c.set_mini_mode();
    assert_eq!(exit, toggle_exit);
    assert_eq!(t2, Transition::ExitMini);

    // Applying the mini roundtrip restores normal chrome on the model.
    let mut w = normal_window();
    apply_plan(&mut w, &enter, &primary_rect());
    assert!(w.always_on_top);
    assert_eq!(w.min_size, Some(Dim { width: 200, height: 35 }));
    assert_eq!(w.max_size, Some(Dim { width: 200, height: 35 }));
    assert!(w.rounded_corners);
    apply_plan(&mut w, &exit, &primary_rect());
    assert!(w.decorations);
    assert!(w.resizable);
    assert!(!w.always_on_top);
    assert_eq!(w.min_size, Some(Dim { width: 600, height: 400 }));
    assert_eq!(w.max_size, None);
}

#[test]
fn screen_to_container_subtracts_origin() {
    let p = screen_to_container(Point { x: 1920, y: 0 }, Point { x: 10, y: 20 });
    assert_eq!(p, Point { x: 1910, y: -20 });
}

#[test]
fn error_messages_are_fixed() {
    assert_eq!(
        ModeError::InvalidMonitorIndex.message(),
        "monitor index is out of range"
    );
    assert_eq!(
        ModeError::NoPrimaryMonitor.message(),
        "no monitor is flagged as primary"
    );
    assert_eq!(
        ModeError::DesktopLayerUnavailable.message(),
        "no desktop background container could be located"
    );
    assert_eq!(
        ModeError::UnsupportedPlatform.message(),
        "wallpaper docking is not supported on this platform"
    );
    assert_eq!(ModeError::WindowOperationFailed.message(), "a window operation failed");
}
