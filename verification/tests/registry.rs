use u_window::request::{ChangeProperty, CreateWindow, WINDOW_EVENT_MASK};
use u_window::{
    create_application, Atoms, Backend, Depth, Request, Screen, Setup, VisualRef, X11Application,
    X11Window,
};

type Rgb = (f64, f64, f64);

const ATOMS: Atoms = Atoms { wm_protocols: 300, wm_delete_window: 301 };

fn setup() -> Setup {
    Setup {
        roots: vec![Screen {
            root: 100,
            root_visual: 33,
            white_pixel: 0x00ff_ffff,
            allowed_depths: vec![Depth { visuals: vec![32] }, Depth { visuals: vec![33] }],
        }],
    }
}

fn application() -> X11Application<Rgb> {
    X11Application::new(&setup(), 0, ATOMS)
}

#[test]
fn new_application_is_empty() {
    let mut app = application();
    assert_eq!(app.windows_len(), 0);
    assert!(!app.should_quit());
    assert!(app.can_create_window());
    assert_eq!(app.wm_delete_window(), 301);
    assert_eq!(app.take_requests(), vec![]);
}

#[test]
fn create_application_gives_an_x11_application() {
    let mut app: X11Application<Rgb> = create_application(Backend::X11, &setup(), 0, ATOMS);
    assert_eq!(app.windows_len(), 0);
    assert!(!app.should_quit());
    assert!(app.can_create_window());
    assert_eq!(app.take_requests(), vec![]);
}

#[test]
fn application_without_a_screen_cannot_create_windows() {
    let app: X11Application<Rgb> = X11Application::new(&setup(), 1, ATOMS);
    assert!(!app.can_create_window());
    let app: X11Application<Rgb> = X11Application::new(&setup(), -1, ATOMS);
    assert!(!app.can_create_window());
}

#[test]
fn event_mask_selects_input_motion_crossing_and_exposure() {
    assert_eq!(WINDOW_EVENT_MASK, 0xbf7f);
}

#[test]
fn create_window_returns_and_registers_the_identifier() {
    let mut app = application();
    assert_eq!(app.create_window(7, 400, 300), 7);
    assert_eq!(app.windows_len(), 1);
    assert_eq!(app.get_window(7), Some(X11Window { id: 7, width: 400, height: 300 }));
}

#[test]
fn create_window_queues_creation_subscription_mapping_and_surface() {
    let mut app = application();
    app.create_window(7, 400, 300);
    assert_eq!(
        app.take_requests(),
        vec![
            Request::CreateWindow(CreateWindow {
                depth: 0,
                window: 7,
                parent: 100,
                x: 0,
                y: 0,
                width: 400,
                height: 300,
                border_width: 0,
                class: 1,
                visual: 33,
                back_pixel: 0x00ff_ffff,
                event_mask: 0xbf7f,
            }),
            Request::ChangeProperty(ChangeProperty {
                mode: 0,
                window: 7,
                property: 300,
                property_type: 4,
                format: 32,
                data: 301,
            }),
            Request::MapWindow { window: 7 },
            Request::Flush,
            Request::CreateSurface {
                window: 7,
                visual: VisualRef { screen: 0, depth: 1, visual: 0 },
                width: 400,
                height: 300,
            },
            Request::Flush,
        ]
    );
}

#[test]
fn create_window_keeps_the_largest_size() {
    let mut app = application();
    app.create_window(1, u16::MAX, u16::MAX);
    assert_eq!(
        app.get_window(1),
        Some(X11Window { id: 1, width: u16::MAX, height: u16::MAX })
    );
    let requests = app.take_requests();
    assert_eq!(
        requests[4],
        Request::CreateSurface {
            window: 1,
            visual: VisualRef { screen: 0, depth: 1, visual: 0 },
            width: 65535,
            height: 65535,
        }
    );
}

#[test]
fn created_windows_are_all_registered() {
    let mut app = application();
    let identifiers = [11u32, 5, 0, u32::MAX, 42];
    for (count, id) in identifiers.iter().enumerate() {
        assert_eq!(app.create_window(*id, 100 + count as u16, 200), *id);
        assert_eq!(app.windows_len(), count + 1);
        assert!(app.get_window(*id).is_some());
    }
    for (count, id) in identifiers.iter().enumerate() {
        assert_eq!(
            app.get_window(*id),
            Some(X11Window { id: *id, width: 100 + count as u16, height: 200 })
        );
    }
}

#[test]
fn create_window_with_a_registered_identifier_replaces_the_window() {
    let mut app = application();
    app.create_window(7, 400, 300);
    app.create_window(7, 10, 20);
    assert_eq!(app.windows_len(), 1);
    assert_eq!(app.get_window(7), Some(X11Window { id: 7, width: 10, height: 20 }));
}

#[test]
fn get_window_of_an_identifier_never_created_finds_nothing() {
    let mut app = application();
    assert_eq!(app.get_window(7), None);
    app.create_window(8, 400, 300);
    assert_eq!(app.get_window(7), None);
    app.destroy_window(8);
    assert_eq!(app.get_window(7), None);
}

#[test]
fn get_window_of_a_destroyed_window_finds_nothing() {
    let mut app = application();
    app.create_window(7, 400, 300);
    app.create_window(8, 400, 300);
    app.destroy_window(7);
    assert_eq!(app.get_window(7), None);
    assert_eq!(app.get_window(8), Some(X11Window { id: 8, width: 400, height: 300 }));
}

#[test]
fn destroy_window_takes_exactly_one_window_away() {
    let mut app = application();
    app.create_window(7, 400, 300);
    app.create_window(8, 400, 300);
    app.create_window(9, 400, 300);
    assert_eq!(app.windows_len(), 3);
    app.destroy_window(8);
    assert_eq!(app.windows_len(), 2);
    assert_eq!(app.get_window(8), None);
    app.destroy_window(7);
    assert_eq!(app.windows_len(), 1);
    app.destroy_window(9);
    assert_eq!(app.windows_len(), 0);
}

#[test]
fn destroy_window_queues_destruction_and_flush() {
    let mut app = application();
    app.create_window(7, 400, 300);
    app.take_requests();
    app.destroy_window(7);
    assert_eq!(
        app.take_requests(),
        vec![Request::DestroyWindow { window: 7 }, Request::Flush]
    );
}

#[test]
fn destroy_window_of_an_unregistered_identifier_leaves_the_registry() {
    let mut app = application();
    app.create_window(7, 400, 300);
    app.take_requests();
    app.destroy_window(8);
    assert_eq!(app.windows_len(), 1);
    assert_eq!(app.get_window(7), Some(X11Window { id: 7, width: 400, height: 300 }));
    assert_eq!(
        app.take_requests(),
        vec![Request::DestroyWindow { window: 8 }, Request::Flush]
    );
    app.destroy_window(7);
    app.destroy_window(7);
    assert_eq!(app.windows_len(), 0);
}

#[test]
fn quit_sets_the_flag() {
    let mut app = application();
    app.quit();
    assert!(app.should_quit());
    app.set_should_quit(false);
    assert!(!app.should_quit());
    app.set_should_quit(true);
    assert!(app.should_quit());
    assert_eq!(app.take_requests(), vec![]);
}

#[test]
fn flush_queues_a_flush() {
    let mut app = application();
    app.flush();
    app.flush();
    assert_eq!(app.take_requests(), vec![Request::Flush, Request::Flush]);
}

#[test]
fn take_requests_empties_the_queue() {
    let mut app = application();
    app.create_window(7, 400, 300);
    assert_eq!(app.take_requests().len(), 6);
    assert_eq!(app.take_requests(), vec![]);
    assert_eq!(app.windows_len(), 1);
}
