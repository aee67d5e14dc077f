//! The paint loop's state: pen, stroke buffer, and frame description.
//!
//! Every pointer move appends exactly one vertex to one growing line strip,
//! colored with the stroke color while the pen is down and with the
//! background color while it is up; background-colored segments render
//! invisibly against the cleared frame, so pen-up travel acts as a gap in
//! the drawing without breaking the single connected strip.

use vstd::prelude::*;

use crate::color::Color;
use crate::ndc::NdcPoint;
use crate::ndc::spec_ndc_point;
use crate::pen::MouseButton;
use crate::pen::PenState;

verus! {

/// One vertex of the line strip: a position in normalized device
/// coordinates and an RGBA color. Immutable once created.
#[derive(Copy, Clone, PartialEq, Eq, Structural, Debug)]
pub struct Vertex {
    pub position: NdcPoint,
    pub color: Color,
}

/// The whole drawing state of the paint loop.
pub struct PaintState {
    /// Whether the pen is currently down.
    pub pen: PenState,
    /// The stroke buffer: one connected line strip, in insertion order.
    pub stroke: Vec<Vertex>,
    /// Whether the stroke buffer has grown since the backend last took a
    /// frame, so its GPU-resident mirror is stale.
    pub dirty: bool,
    /// The color of vertices appended while the pen is down.
    pub stroke_color: Color,
    /// The clear color, and the color of vertices appended while the pen
    /// is up.
    pub background: Color,
}

/// The mathematical value of a `PaintState`.
#[verifier::ext_equal]
pub ghost struct PaintView {
    pub pen: PenState,
    pub stroke: Seq<Vertex>,
    pub dirty: bool,
    pub stroke_color: Color,
    pub background: Color,
}

impl View for PaintState {
    type V = PaintView;

    open spec fn view(&self) -> PaintView {
        PaintView {
            pen: self.pen,
            stroke: self.stroke@,
            dirty: self.dirty,
            stroke_color: self.stroke_color,
            background: self.background,
        }
    }
}

/// An input event delivered to the paint loop by the windowing layer.
#[derive(Copy, Clone, PartialEq, Eq, Structural, Debug)]
pub enum Event {
    /// The pointer moved to window pixel coordinates (x, y). Off-window
    /// positions, reported during fast drags, pass through unclamped.
    CursorMoved { x: i32, y: i32 },
    /// A mouse button was pressed.
    MousePressed { button: MouseButton },
    /// A mouse button was released.
    MouseReleased { button: MouseButton },
    /// The fixed-cadence frame timer fired.
    TimerTick,
    /// The user asked to close the window.
    CloseRequested,
}

/// What the loop driver must do after an event has been applied.
#[derive(Copy, Clone, PartialEq, Eq, Structural, Debug)]
pub enum Action {
    /// Wait for the next event.
    Keep,
    /// Render one frame.
    Render,
    /// Leave the event loop; the session is over.
    Exit,
}

/// The color a vertex appended now would get: the stroke color while the
/// pen is down, the background color while it is up.
pub open spec fn vertex_color(v: PaintView) -> Color {
    if v.pen is Down {
        v.stroke_color
    } else {
        v.background
    }
}

/// The vertex that a pointer move to (x, y) appends under a framebuffer of
/// extent `w` x `h`.
pub open spec fn spec_moved_vertex(v: PaintView, x: int, y: int, w: int, h: int) -> Vertex {
    Vertex { position: spec_ndc_point(x, y, w, h), color: vertex_color(v) }
}

/// The state after one event under a framebuffer of extent `w` x `h`.
/// A pointer move appends exactly one vertex, whatever the pen state, and
/// marks the buffer dirty — unless the framebuffer is degenerate, in which
/// case the move is dropped. Button events drive the pen alone; the timer
/// and a close request change nothing.
pub open spec fn spec_step(v: PaintView, event: Event, w: int, h: int) -> PaintView {
    match event {
        Event::CursorMoved { x, y } => {
            if w > 0 && h > 0 {
                PaintView {
                    stroke: v.stroke.push(spec_moved_vertex(v, x as int, y as int, w, h)),
                    dirty: true,
                    ..v
                }
            } else {
                v
            }
        },
        Event::MousePressed { button } => PaintView { pen: v.pen.spec_after_press(button), ..v },
        Event::MouseReleased { button } => PaintView {
            pen: v.pen.spec_after_release(button),
            ..v
        },
        Event::TimerTick => v,
        Event::CloseRequested => v,
    }
}

/// The action that one event calls for.
pub open spec fn spec_action(event: Event) -> Action {
    match event {
        Event::TimerTick => Action::Render,
        Event::CloseRequested => Action::Exit,
        _ => Action::Keep,
    }
}

impl PaintState {
    /// A fresh session: pen up, empty stroke buffer, nothing to upload.
    pub fn new(stroke_color: Color, background: Color) -> (s: PaintState)
        ensures
            s.pen == PenState::Up,
            s.stroke@ == Seq::<Vertex>::empty(),
            !s.dirty,
            s.stroke_color == stroke_color,
            s.background == background,
    {
        let s = PaintState {
            pen: PenState::Up,
            stroke: Vec::new(),
            dirty: false,
            stroke_color,
            background,
        };
        proof {
            assert(s.stroke@ =~= Seq::<Vertex>::empty());
        }
        s
    }

    /// Applies a pointer move: appends exactly one vertex — positioned by
    /// the screen-to-NDC mapping, colored by the pen state — and marks the
    /// buffer dirty. A degenerate framebuffer (zero width or height) has no
    /// NDC mapping, so the move is dropped and the state is unchanged.
    pub fn on_cursor_moved(&mut self, x: i32, y: i32, width: u32, height: u32)
        ensures
            final(self)@ == spec_step(
                old(self)@,
                Event::CursorMoved { x, y },
                width as int,
                height as int,
            ),
            width > 0 && height > 0 ==> final(self).stroke@ == old(self).stroke@.push(
                spec_moved_vertex(old(self)@, x as int, y as int, width as int, height as int),
            ) && final(self).dirty,
            width == 0 || height == 0 ==> final(self)@ == old(self)@,
            final(self).stroke@.len() == old(self).stroke@.len() + (
                if width > 0 && height > 0 {
                    1int
                } else {
                    0int
                }
            ),
            final(self).pen == old(self).pen,
            final(self).stroke_color == old(self).stroke_color,
            final(self).background == old(self).background,
    {
        match crate::ndc::map_to_ndc(x, y, width, height) {
            Some(position) => {
                let color = if matches!(self.pen, PenState::Down) {
                    self.stroke_color
                } else {
                    self.background
                };
                self.stroke.push(Vertex { position, color });
                self.dirty = true;
            },
            None => {},
        }
        proof {
            assert(self@ =~= spec_step(
                old(self)@,
                Event::CursorMoved { x, y },
                width as int,
                height as int,
            ));
        }
    }

    /// Applies a mouse-button press to the pen; the stroke buffer is
    /// untouched.
    pub fn on_button_pressed(&mut self, button: MouseButton)
        ensures
            final(self)@ == spec_step(old(self)@, Event::MousePressed { button }, 0, 0),
            final(self).pen == old(self).pen.spec_after_press(button),
            final(self).stroke@ == old(self).stroke@,
            final(self).dirty == old(self).dirty,
            final(self).stroke_color == old(self).stroke_color,
            final(self).background == old(self).background,
    {
        self.pen = self.pen.after_press(button);
    }

    /// Applies a mouse-button release to the pen; the stroke buffer is
    /// untouched.
    pub fn on_button_released(&mut self, button: MouseButton)
        ensures
            final(self)@ == spec_step(old(self)@, Event::MouseReleased { button }, 0, 0),
            final(self).pen == old(self).pen.spec_after_release(button),
            final(self).stroke@ == old(self).stroke@,
            final(self).dirty == old(self).dirty,
            final(self).stroke_color == old(self).stroke_color,
            final(self).background == old(self).background,
    {
        self.pen = self.pen.after_release(button);
    }

    /// Dispatches one event, under the framebuffer extent current at
    /// delivery time, and says what the loop driver must do next: render a
    /// frame on a timer tick, leave the loop on a close request, and wait
    /// otherwise.
    pub fn handle_event(&mut self, event: Event, width: u32, height: u32) -> (action: Action)
        ensures
            final(self)@ == spec_step(old(self)@, event, width as int, height as int),
            action == spec_action(event),
    {
        match event {
            Event::CursorMoved { x, y } => {
                self.on_cursor_moved(x, y, width, height);
                Action::Keep
            },
            Event::MousePressed { button } => {
                self.on_button_pressed(button);
                Action::Keep
            },
            Event::MouseReleased { button } => {
                self.on_button_released(button);
                Action::Keep
            },
            Event::TimerTick => Action::Render,
            Event::CloseRequested => Action::Exit,
        }
    }

    /// Describes the frame to draw now and marks the buffer clean: the
    /// description carries the whole stroke buffer, so once the backend has
    /// drawn it the GPU-resident mirror is up to date.
    pub fn render(&mut self) -> (frame: Frame)
        ensures
            frame@ == spec_frame(old(self)@),
            final(self)@ == spec_rendered(old(self)@),
    {
        let vertices = copy_vertices(&self.stroke);
        self.dirty = false;
        Frame { clear_color: self.background, vertices }
    }
}

/// Everything a rendering backend needs for one frame: clear to
/// `clear_color`, then draw `vertices` as a single connected line strip.
#[derive(Clone, PartialEq, Eq, Debug)]
pub struct Frame {
    pub clear_color: Color,
    pub vertices: Vec<Vertex>,
}

/// The mathematical value of a `Frame`.
#[verifier::ext_equal]
pub ghost struct FrameView {
    pub clear_color: Color,
    pub vertices: Seq<Vertex>,
}

impl View for Frame {
    type V = FrameView;

    open spec fn view(&self) -> FrameView {
        FrameView { clear_color: self.clear_color, vertices: self.vertices@ }
    }
}

/// The frame a state describes: the background as clear color and the whole
/// stroke buffer as one line strip.
pub open spec fn spec_frame(v: PaintView) -> FrameView {
    FrameView { clear_color: v.background, vertices: v.stroke }
}

/// The state after a frame has been rendered: only the dirty flag falls.
pub open spec fn spec_rendered(v: PaintView) -> PaintView {
    PaintView { dirty: false, ..v }
}

/// Law: rendering is idempotent. Rendering changes nothing a frame depends
/// on, so a second render with no intervening input describes the same
/// frame — pixel for pixel — as the first.
pub proof fn lemma_render_idempotent(v: PaintView)
    ensures
        spec_frame(spec_rendered(v)) == spec_frame(v),
{
}

/// One delivered event together with the framebuffer extent current at
/// delivery time.
pub ghost struct Input {
    pub event: Event,
    pub width: int,
    pub height: int,
}

/// The state after a whole sequence of inputs, applied in delivery order.
pub open spec fn run(v: PaintView, inputs: Seq<Input>) -> PaintView
    decreases inputs.len(),
{
    if inputs.len() == 0 {
        v
    } else {
        run(
            spec_step(v, inputs[0].event, inputs[0].width, inputs[0].height),
            inputs.drop_first(),
        )
    }
}

/// Whether one input appends a vertex: a pointer move over a
/// non-degenerate framebuffer, whatever the pen state.
pub open spec fn appends_vertex(input: Input) -> bool {
    input.event is CursorMoved && input.width > 0 && input.height > 0
}

/// How many of the inputs append a vertex.
pub open spec fn count_appending(inputs: Seq<Input>) -> int
    decreases inputs.len(),
{
    if inputs.len() == 0 {
        0
    } else {
        (if appends_vertex(inputs[0]) {
            1int
        } else {
            0int
        }) + count_appending(inputs.drop_first())
    }
}

/// Law: every pointer move over a non-degenerate framebuffer appends
/// exactly one vertex, whatever the pen state, and no other input appends
/// any: a run grows the buffer by exactly the number of such moves. In
/// particular, N moves from an empty buffer leave exactly N vertices.
pub proof fn lemma_stroke_growth(v: PaintView, inputs: Seq<Input>)
    ensures
        run(v, inputs).stroke.len() == v.stroke.len() + count_appending(inputs),
    decreases inputs.len(),
{
    if inputs.len() > 0 {
        lemma_stroke_growth(
            spec_step(v, inputs[0].event, inputs[0].width, inputs[0].height),
            inputs.drop_first(),
        );
    }
}

/// Law: a run of nothing but pointer moves, each over a non-degenerate
/// framebuffer, grows the buffer by exactly one vertex per move: N moves
/// from an empty buffer leave exactly N vertices.
pub proof fn lemma_moves_append_one_each(v: PaintView, inputs: Seq<Input>)
    requires
        forall|i: int| 0 <= i < inputs.len() ==> appends_vertex(#[trigger] inputs[i]),
    ensures
        run(v, inputs).stroke.len() == v.stroke.len() + inputs.len(),
    decreases inputs.len(),
{
    if inputs.len() > 0 {
        let next = spec_step(v, inputs[0].event, inputs[0].width, inputs[0].height);
        assert(forall|i: int|
            0 <= i < inputs.drop_first().len() ==> appends_vertex(
                #[trigger] inputs.drop_first()[i],
            ));
        lemma_moves_append_one_each(next, inputs.drop_first());
    }
}

/// Law: the stroke buffer only grows. Every vertex ever appended remains,
/// in place: after any run the old buffer is a prefix of the new one.
pub proof fn lemma_stroke_monotone(v: PaintView, inputs: Seq<Input>)
    ensures
        v.stroke.is_prefix_of(run(v, inputs).stroke),
    decreases inputs.len(),
{
    if inputs.len() == 0 {
        assert(v.stroke =~= run(v, inputs).stroke.subrange(0, v.stroke.len() as int));
    } else {
        let next = spec_step(v, inputs[0].event, inputs[0].width, inputs[0].height);
        assert(v.stroke.is_prefix_of(next.stroke)) by {
            assert(v.stroke =~= next.stroke.subrange(0, v.stroke.len() as int));
        }
        lemma_stroke_monotone(next, inputs.drop_first());
        assert(v.stroke =~= run(v, inputs).stroke.subrange(0, v.stroke.len() as int));
    }
}

/// Law: the appended vertex's color encodes the pen state at the time of
/// the move: the configured stroke color while the pen is down, the
/// configured background color while it is up.
pub proof fn lemma_move_vertex_color(v: PaintView, x: int, y: int, w: int, h: int)
    ensures
        v.pen is Down ==> spec_moved_vertex(v, x, y, w, h).color == v.stroke_color,
        v.pen is Up ==> spec_moved_vertex(v, x, y, w, h).color == v.background,
{
}

/// Law: when the two configured colors differ, a vertex carries the stroke
/// color if and only if the pen was down at the time of the move.
pub proof fn lemma_move_vertex_color_iff(v: PaintView, x: int, y: int, w: int, h: int)
    requires
        v.stroke_color != v.background,
    ensures
        (spec_moved_vertex(v, x, y, w, h).color == v.stroke_color) <==> v.pen is Down,
{
}

/// Copies a vertex list element for element.
fn copy_vertices(src: &Vec<Vertex>) -> (out: Vec<Vertex>)
    ensures
        out@ == src@,
{
    let mut out: Vec<Vertex> = Vec::new();
    let mut i: usize = 0;
    while i < src.len()
        invariant
            i <= src.len(),
            out@ == src@.subrange(0, i as int),
        decreases src.len() - i,
    {
        out.push(src[i]);
        proof {
            assert(out@ =~= src@.subrange(0, i + 1));
        }
        i = i + 1;
    }
    proof {
        assert(out@ =~= src@);
    }
    out
}

} // verus!
