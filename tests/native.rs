use neuron_engine::platform::{LINUX_HEADLESS, LINUX_WAYLAND, LINUX_X11, WINDOWS, WINDOWS_HEADLESS};
use neuron_engine::win32::{
    is_color_light, is_dark_mode_internal, is_quit_message, make_colorref, Rgb,
    WindowClassAttributes, WM_QUIT,
};
use neuron_engine::window::window_title;
use neuron_engine::x11::{initial_geometry, is_delete_window_request, Geometry};
use neuron_engine::{Resolution, WindowAttributes, WindowPosition};

#[test]
fn default_window_attributes() {
    let a = WindowAttributes::default();
    assert!(a.title.is_none() && a.size.is_none() && a.position.is_none());
    assert!(a.has_close_button && a.has_minimize_button && a.has_maximize_button);
    assert!(!a.show_drop_shadow);
    assert!(a.show_border && a.show_title_bar);
    assert!(!a.initially_disabled && !a.is_dialog_box && !a.initially_minimized);
    assert!(a.resizable);
    assert!(!a.has_system_menu);
    assert!(a.initially_visible);
}

#[test]
fn attribute_values() {
    let p = WindowPosition::new(-3, 12);
    assert_eq!((p.x, p.y), (-3, 12));
    let r = Resolution::Logical { width: 800u32, height: 600u32 };
    let copy = r;
    assert_eq!(r, copy);
    assert_ne!(r, Resolution::Physical { width: 800, height: 600 });
}

#[test]
fn platform_names() {
    assert_eq!(WINDOWS, "windows");
    assert_eq!(WINDOWS_HEADLESS, "windows-headless");
    assert_eq!(LINUX_X11, "linux-x11");
    assert_eq!(LINUX_WAYLAND, "linux-wayland");
    assert_eq!(LINUX_HEADLESS, "linux-headless");
}

#[test]
fn color_lightness() {
    assert!(is_color_light(Rgb { r: 255, g: 255, b: 255 }));
    assert!(!is_color_light(Rgb { r: 0, g: 0, b: 0 }));
    // 5 * 200 + 2 * 12 + 0 = 1024 is not above the threshold; one more is.
    assert!(!is_color_light(Rgb { r: 12, g: 200, b: 0 }));
    assert!(is_color_light(Rgb { r: 12, g: 200, b: 1 }));
}

#[test]
fn dark_mode_follows_foreground_colour() {
    assert_eq!(is_dark_mode_internal(Some(Rgb { r: 255, g: 255, b: 255 })), Some(true));
    assert_eq!(is_dark_mode_internal(Some(Rgb { r: 0, g: 0, b: 0 })), Some(false));
    assert_eq!(is_dark_mode_internal(None), None);
}

#[test]
fn colorref_layout() {
    assert_eq!(make_colorref(0x12, 0x34, 0x56), 0x0056_3412);
    assert_eq!(make_colorref(255, 0, 0), 0x0000_00ff);
    assert_eq!(make_colorref(0, 0, 255), 0x00ff_0000);
}

#[test]
fn window_class_styles() {
    let style = |allow_close, show_drop_shadow| {
        WindowClassAttributes { allow_close, show_drop_shadow }.style()
    };
    assert_eq!(style(true, false), 0x0003);
    assert_eq!(style(false, false), 0x0203);
    assert_eq!(style(true, true), 0x0002_0003);
    assert_eq!(style(false, true), 0x0002_0203);
}

#[test]
fn delete_window_request() {
    assert!(is_delete_window_request(7, 32, 9, 7, 9));
    assert!(!is_delete_window_request(8, 32, 9, 7, 9));
    assert!(!is_delete_window_request(7, 16, 9, 7, 9));
    assert!(!is_delete_window_request(7, 32, 10, 7, 9));
    assert!(is_delete_window_request(7, 32, -1, 7, u64::MAX));
}

#[test]
fn title_defaults_to_window() {
    assert_eq!(window_title(None), "Window");
    assert_eq!(window_title(Some("Hello!".to_string())), "Hello!");
    assert_eq!(window_title(Some(String::new())), "");
}

#[test]
fn x11_geometry_defaults_and_requests() {
    assert_eq!(
        initial_geometry(None, None),
        Geometry { x: 0, y: 0, width: 800, height: 600 }
    );
    assert_eq!(
        initial_geometry(
            Some(WindowPosition::new(10, -20)),
            Some(Resolution::Physical { width: 1024, height: 768 })
        ),
        Geometry { x: 10, y: -20, width: 1024, height: 768 }
    );
    assert_eq!(
        initial_geometry(None, Some(Resolution::Logical { width: 640, height: 480 })),
        Geometry { x: 0, y: 0, width: 640, height: 480 }
    );
}

#[test]
fn quit_message() {
    assert!(is_quit_message(WM_QUIT));
    assert!(is_quit_message(0x0012));
    assert!(!is_quit_message(0x0010));
    assert!(!is_quit_message(0x0002));
}
