//! Drawing on a window: filled polygons and text.

use vstd::prelude::*;
use crate::request::{DrawCommand, Request, TextLayout, Weight, PANGO_SCALE};
use crate::x11::{ApplicationView, X11Application, X11Window};
use crate::Position;

verus! {

/// Why a drawing operation did nothing.
#[derive(Copy, Clone, Debug, PartialEq, Eq)]
pub enum DrawError {
    /// The application no longer has this window: it was destroyed, or its
    /// identifier now belongs to another window.
    WindowDestroyed,
}

/// The requests that fill the polygon through `points` with `color`: none
/// for fewer than two points; else a new context, the colour, a move to the
/// first point, a line to each further point in order, the closing of the
/// path and the fill.
pub open spec fn polygon_requests<C>(window: u32, points: Seq<Position>, color: C) -> Seq<
    Request<C>,
> {
    if points.len() < 2 {
        Seq::empty()
    } else {
        seq![
            Request::Draw { window, command: DrawCommand::NewContext },
            Request::Draw { window, command: DrawCommand::SetSourceRgb(color) },
            Request::Draw { window, command: DrawCommand::MoveTo(points[0]) },
        ] + Seq::new(
            (points.len() - 1) as nat,
            |i: int| Request::Draw { window, command: DrawCommand::LineTo(points[i + 1]) },
        ) + seq![
            Request::Draw { window, command: DrawCommand::ClosePath },
            Request::Draw { window, command: DrawCommand::Fill },
        ]
    }
}

/// Fewer than two points give no request at all. Two or more give a closed,
/// filled path through the points in their order: after the new context and
/// the colour, a move to the first point, then a line to each further point,
/// then the closing of the path and the fill.
pub proof fn lemma_polygon_path<C>(window: u32, points: Seq<Position>, color: C)
    ensures
        points.len() < 2 ==> polygon_requests(window, points, color) == Seq::<Request<C>>::empty(),
        points.len() >= 2 ==> {
            let requests = polygon_requests(window, points, color);
            let count = points.len() as int;
            &&& requests.len() == count + 4
            &&& requests[0] == Request::Draw { window, command: DrawCommand::<C>::NewContext }
            &&& requests[1] == Request::Draw { window, command: DrawCommand::SetSourceRgb(color) }
            &&& requests[2] == Request::Draw { window, command: DrawCommand::<C>::MoveTo(points[0]) }
            &&& forall|i: int|
                1 <= i < count ==> #[trigger] requests[i + 2] == Request::Draw {
                    window,
                    command: DrawCommand::<C>::LineTo(points[i]),
                }
            &&& requests[count + 2] == Request::Draw { window, command: DrawCommand::<C>::ClosePath }
            &&& requests[count + 3] == Request::Draw { window, command: DrawCommand::<C>::Fill }
        },
{
}

/// `requests` draw `content` on `window` in the bold face of `family` at
/// `font_size` device units, with its origin at `position`, filled with
/// `color`: a new context, the layout, the colour, a move to the origin, the
/// showing of the layout.
pub open spec fn is_text_requests<C>(
    requests: Seq<Request<C>>,
    window: u32,
    position: Position,
    color: C,
    font_size: i32,
    family: Seq<char>,
    content: Seq<char>,
) -> bool {
    &&& requests.len() == 5
    &&& requests[0] == Request::Draw { window, command: DrawCommand::<C>::NewContext }
    &&& requests[1] matches Request::Draw { window: on, command: DrawCommand::Layout(layout) }
    &&& on == window
    &&& layout.text@ == content
    &&& layout.family@ == family
    &&& layout.absolute_size == PANGO_SCALE * font_size
    &&& layout.weight == Weight::Bold
    &&& requests[2] == Request::Draw { window, command: DrawCommand::SetSourceRgb(color) }
    &&& requests[3] == Request::Draw { window, command: DrawCommand::<C>::MoveTo(position) }
    &&& requests[4] == Request::Draw { window, command: DrawCommand::<C>::ShowLayout }
}

/// The requests that show what was drawn on `window`: commit its surface,
/// then flush the connection.
pub open spec fn flush_requests<C>(window: u32) -> Seq<Request<C>> {
    seq![Request::FlushSurface { window }, Request::Flush]
}

impl X11Window {
    /// The application `app` still has this very window.
    pub open spec fn is_live<C>(self, app: ApplicationView<C>) -> bool {
        app.windows.contains_key(self.id) && app.windows[self.id] == self
    }

    /// Whether `app` still has this very window.
    pub fn check_live<C>(&self, app: &X11Application<C>) -> (live: bool)
        ensures
            live == self.is_live(app@),
    {
        match app.get_window(self.id) {
            Some(window) => window.width == self.width && window.height == self.height,
            None => false,
        }
    }

    /// Fills the polygon through `points` with `color`. Fewer than two points
    /// make no path: nothing is drawn.
    pub fn polygon<C>(&self, app: &mut X11Application<C>, points: &[Position], color: C) -> (drawn:
        Result<(), DrawError>)
        ensures
            drawn is Ok <==> self.is_live(old(app)@),
            self.is_live(old(app)@) ==> final(app)@ == old(app)@.issue(
                polygon_requests(self.id, points@, color),
            ),
            !self.is_live(old(app)@) ==> final(app)@ == old(app)@,
    {
        if !self.check_live(app) {
            return Err(DrawError::WindowDestroyed);
        }
        let window = self.id;
        if points.len() < 2 {
            assert(old(app)@.pending + Seq::<Request<C>>::empty() =~= old(app)@.pending);
            return Ok(());
        }
        app.issue(Request::Draw { window, command: DrawCommand::NewContext });
        app.issue(Request::Draw { window, command: DrawCommand::SetSourceRgb(color) });
        app.issue(Request::Draw { window, command: DrawCommand::MoveTo(points[0]) });
        let ghost head = seq![
            Request::Draw { window, command: DrawCommand::NewContext },
            Request::Draw { window, command: DrawCommand::SetSourceRgb(color) },
            Request::Draw { window, command: DrawCommand::MoveTo(points@[0]) },
        ];
        assert(app@.pending =~= old(app)@.pending + (head + Seq::new(
            0nat,
            |i: int| Request::Draw { window, command: DrawCommand::LineTo(points@[i + 1]) },
        )));
        let mut next: usize = 1;
        while next < points.len()
            invariant
                1 <= next <= points@.len(),
                app@ == old(app)@.issue(
                    head + Seq::new(
                        (next - 1) as nat,
                        |i: int|
                            Request::Draw { window, command: DrawCommand::LineTo(points@[i + 1]) },
                    ),
                ),
            decreases points@.len() - next,
        {
            app.issue(Request::Draw { window, command: DrawCommand::LineTo(points[next]) });
            assert(app@.pending =~= old(app)@.pending + (head + Seq::new(
                next as nat,
                |i: int| Request::Draw { window, command: DrawCommand::LineTo(points@[i + 1]) },
            )));
            next = next + 1;
        }
        app.issue(Request::Draw { window, command: DrawCommand::ClosePath });
        app.issue(Request::Draw { window, command: DrawCommand::Fill });
        assert(app@.pending =~= old(app)@.pending + polygon_requests(self.id, points@, color));
        Ok(())
    }

    /// Draws `content` in the bold face of `font_family` at `font_size`
    /// device units, with its origin at `position`, filled with `color`.
    pub fn draw_text<C>(
        &self,
        app: &mut X11Application<C>,
        position: Position,
        color: C,
        font_size: i32,
        font_family: &str,
        content: &str,
    ) -> (drawn: Result<(), DrawError>)
        requires
            i32::MIN <= PANGO_SCALE * font_size <= i32::MAX,
        ensures
            drawn is Ok <==> self.is_live(old(app)@),
            self.is_live(old(app)@) ==> {
                let queued = old(app)@.pending.len() as int;
                &&& final(app)@ == (ApplicationView { pending: final(app)@.pending, ..old(app)@ })
                &&& final(app)@.pending.len() == queued + 5
                &&& final(app)@.pending.subrange(0, queued) == old(app)@.pending
                &&& is_text_requests(
                    final(app)@.pending.subrange(queued, queued + 5),
                    self.id,
                    position,
                    color,
                    font_size,
                    font_family@,
                    content@,
                )
            },
            !self.is_live(old(app)@) ==> final(app)@ == old(app)@,
    {
        if !self.check_live(app) {
            return Err(DrawError::WindowDestroyed);
        }
        let window = self.id;
        let layout = TextLayout {
            text: content.to_owned(),
            family: font_family.to_owned(),
            absolute_size: PANGO_SCALE * font_size,
            weight: Weight::Bold,
        };
        app.issue(Request::Draw { window, command: DrawCommand::NewContext });
        app.issue(Request::Draw { window, command: DrawCommand::Layout(layout) });
        app.issue(Request::Draw { window, command: DrawCommand::SetSourceRgb(color) });
        app.issue(Request::Draw { window, command: DrawCommand::MoveTo(position) });
        app.issue(Request::Draw { window, command: DrawCommand::ShowLayout });
        proof {
            let queued = old(app)@.pending.len() as int;
            assert(app@.pending.subrange(0, queued) =~= old(app)@.pending);
        }
        Ok(())
    }

    /// Shows what was drawn: commits the surface, then flushes the
    /// application's connection.
    pub fn flush<C>(&self, app: &mut X11Application<C>) -> (flushed: Result<(), DrawError>)
        ensures
            flushed is Ok <==> self.is_live(old(app)@),
            self.is_live(old(app)@) ==> final(app)@ == old(app)@.issue(flush_requests(self.id)),
            !self.is_live(old(app)@) ==> final(app)@ == old(app)@,
    {
        if !self.check_live(app) {
            return Err(DrawError::WindowDestroyed);
        }
        app.issue(Request::FlushSurface { window: self.id });
        app.flush();
        assert(app@.pending =~= old(app)@.pending + flush_requests(self.id));
        Ok(())
    }
}

} // verus!
