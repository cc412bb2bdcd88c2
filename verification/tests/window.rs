use u_window::request::PANGO_SCALE;
use u_window::{
    Atoms, Depth, DrawCommand, DrawError, Position, Request, Screen, Setup, TextLayout, Weight,
    X11Application, X11Window,
};

type Rgb = (f64, f64, f64);

const RED: Rgb = (1.0, 0.0, 0.0);

fn application_with_window() -> (X11Application<Rgb>, X11Window) {
    let setup = Setup {
        roots: vec![Screen {
            root: 100,
            root_visual: 33,
            white_pixel: 0x00ff_ffff,
            allowed_depths: vec![Depth { visuals: vec![33] }],
        }],
    };
    let mut app = X11Application::new(&setup, 0, Atoms { wm_protocols: 300, wm_delete_window: 301 });
    app.create_window(7, 400, 400);
    app.take_requests();
    let window = app.get_window(7).unwrap();
    (app, window)
}

fn draw(command: DrawCommand<Rgb>) -> Request<Rgb> {
    Request::Draw { window: 7, command }
}

#[test]
fn polygon_without_points_draws_nothing() {
    let (mut app, window) = application_with_window();
    assert_eq!(window.polygon(&mut app, &[], RED), Ok(()));
    assert_eq!(app.take_requests(), vec![]);
}

#[test]
fn polygon_with_one_point_draws_nothing() {
    let (mut app, window) = application_with_window();
    assert_eq!(window.polygon(&mut app, &[Position { x: 3, y: 4 }], RED), Ok(()));
    assert_eq!(window.polygon(&mut app, &[Position { x: 3, y: 4 }], RED), Ok(()));
    assert_eq!(app.take_requests(), vec![]);
}

#[test]
fn polygon_with_two_points_is_a_closed_filled_path() {
    let (mut app, window) = application_with_window();
    let points = [Position { x: 3, y: 4 }, Position { x: -5, y: 6 }];
    assert_eq!(window.polygon(&mut app, &points, RED), Ok(()));
    assert_eq!(
        app.take_requests(),
        vec![
            draw(DrawCommand::NewContext),
            draw(DrawCommand::SetSourceRgb((1.0, 0.0, 0.0))),
            draw(DrawCommand::MoveTo(Position { x: 3, y: 4 })),
            draw(DrawCommand::LineTo(Position { x: -5, y: 6 })),
            draw(DrawCommand::ClosePath),
            draw(DrawCommand::Fill),
        ]
    );
}

#[test]
fn polygon_goes_through_the_points_in_their_order() {
    let (mut app, window) = application_with_window();
    let points = [
        Position { x: 0, y: 0 },
        Position { x: 10, y: 0 },
        Position { x: 10, y: 10 },
        Position { x: 0, y: 10 },
        Position { x: i16::MIN, y: i16::MAX },
    ];
    assert_eq!(window.polygon(&mut app, &points, (0.25, 0.5, 0.75)), Ok(()));
    assert_eq!(
        app.take_requests(),
        vec![
            draw(DrawCommand::NewContext),
            draw(DrawCommand::SetSourceRgb((0.25, 0.5, 0.75))),
            draw(DrawCommand::MoveTo(Position { x: 0, y: 0 })),
            draw(DrawCommand::LineTo(Position { x: 10, y: 0 })),
            draw(DrawCommand::LineTo(Position { x: 10, y: 10 })),
            draw(DrawCommand::LineTo(Position { x: 0, y: 10 })),
            draw(DrawCommand::LineTo(Position { x: i16::MIN, y: i16::MAX })),
            draw(DrawCommand::ClosePath),
            draw(DrawCommand::Fill),
        ]
    );
}

#[test]
fn polygon_comes_behind_what_is_already_queued() {
    let (mut app, window) = application_with_window();
    app.flush();
    let points = [Position { x: 3, y: 4 }, Position { x: 5, y: 6 }];
    assert_eq!(window.polygon(&mut app, &points, RED), Ok(()));
    let requests = app.take_requests();
    assert_eq!(requests.len(), 7);
    assert_eq!(requests[0], Request::Flush);
    assert_eq!(requests[1], draw(DrawCommand::NewContext));
}

#[test]
fn pango_scale_is_1024() {
    assert_eq!(PANGO_SCALE, 1024);
}

#[test]
fn draw_text_lays_out_bold_text_at_the_position() {
    let (mut app, window) = application_with_window();
    assert_eq!(
        window.draw_text(&mut app, Position { x: 20, y: 30 }, RED, 50, "serif", "Hello World"),
        Ok(())
    );
    assert_eq!(
        app.take_requests(),
        vec![
            draw(DrawCommand::NewContext),
            draw(DrawCommand::Layout(TextLayout {
                text: "Hello World".to_string(),
                family: "serif".to_string(),
                absolute_size: 51200,
                weight: Weight::Bold,
            })),
            draw(DrawCommand::SetSourceRgb((1.0, 0.0, 0.0))),
            draw(DrawCommand::MoveTo(Position { x: 20, y: 30 })),
            draw(DrawCommand::ShowLayout),
        ]
    );
}

#[test]
fn draw_text_takes_the_largest_and_smallest_font_size() {
    let (mut app, window) = application_with_window();
    assert_eq!(
        window.draw_text(&mut app, Position { x: 0, y: 0 }, RED, 2097151, "", ""),
        Ok(())
    );
    assert_eq!(
        window.draw_text(&mut app, Position { x: 0, y: 0 }, RED, -2097152, "", ""),
        Ok(())
    );
    let requests = app.take_requests();
    assert_eq!(
        requests[1],
        draw(DrawCommand::Layout(TextLayout {
            text: String::new(),
            family: String::new(),
            absolute_size: 2147482624,
            weight: Weight::Bold,
        }))
    );
    assert_eq!(
        requests[6],
        draw(DrawCommand::Layout(TextLayout {
            text: String::new(),
            family: String::new(),
            absolute_size: i32::MIN,
            weight: Weight::Bold,
        }))
    );
}

#[test]
fn draw_text_keeps_text_beyond_ascii() {
    let (mut app, window) = application_with_window();
    assert_eq!(
        window.draw_text(&mut app, Position { x: 1, y: 2 }, RED, 12, "Noto Sans", "héllo 世界"),
        Ok(())
    );
    let requests = app.take_requests();
    assert_eq!(
        requests[1],
        draw(DrawCommand::Layout(TextLayout {
            text: "héllo 世界".to_string(),
            family: "Noto Sans".to_string(),
            absolute_size: 12288,
            weight: Weight::Bold,
        }))
    );
}

#[test]
fn window_flush_commits_the_surface_then_flushes_the_connection() {
    let (mut app, window) = application_with_window();
    assert_eq!(window.flush(&mut app), Ok(()));
    assert_eq!(
        app.take_requests(),
        vec![Request::FlushSurface { window: 7 }, Request::Flush]
    );
}

#[test]
fn drawing_on_a_destroyed_window_is_refused() {
    let (mut app, window) = application_with_window();
    app.destroy_window(7);
    app.take_requests();
    let points = [Position { x: 3, y: 4 }, Position { x: 5, y: 6 }];
    assert_eq!(window.polygon(&mut app, &points, RED), Err(DrawError::WindowDestroyed));
    assert_eq!(
        window.draw_text(&mut app, Position { x: 0, y: 0 }, RED, 10, "serif", "x"),
        Err(DrawError::WindowDestroyed)
    );
    assert_eq!(window.flush(&mut app), Err(DrawError::WindowDestroyed));
    assert!(!window.check_live(&app));
    assert_eq!(app.take_requests(), vec![]);
}

#[test]
fn drawing_with_the_handle_of_a_replaced_window_is_refused() {
    let (mut app, window) = application_with_window();
    app.create_window(7, 100, 100);
    app.take_requests();
    assert!(!window.check_live(&app));
    assert_eq!(window.flush(&mut app), Err(DrawError::WindowDestroyed));
    assert_eq!(app.take_requests(), vec![]);
    let replaced = app.get_window(7).unwrap();
    assert!(replaced.check_live(&app));
    assert_eq!(replaced.flush(&mut app), Ok(()));
}
