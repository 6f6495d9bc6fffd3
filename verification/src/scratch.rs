//! Buffers that primitives of one frame assemble their geometry in.

use vstd::prelude::*;
use vstd::string::StringSliceAdditionalSpecFns;
use crate::value::{Color, Point2};

verus! {

/// One step of a path.
#[derive(Clone, Copy, Debug, PartialEq, Eq, Structural)]
pub enum PathEvent {
    Begin { at: Point2 },
    Line { from: Point2, to: Point2 },
    Quadratic { from: Point2, ctrl: Point2, to: Point2 },
    Cubic { from: Point2, ctrl1: Point2, ctrl2: Point2, to: Point2 },
    End { last: Point2, first: Point2, close: bool },
}

/// State made accessible to primitives while they are drawn. The buffers
/// are emptied between frames and keep their storage.
#[derive(Clone, Debug)]
pub struct IntermediaryState {
    /// Vertex data that is re-used for paths, meshes, etc.
    pub intermediary_mesh: Vec<u32>,
    /// A re-usable buffer for collecting path events.
    pub path_event_buffer: Vec<PathEvent>,
    /// A re-usable buffer for collecting colored polyline points.
    pub path_points_colored_buffer: Vec<(Point2, Color)>,
    /// A re-usable buffer for collecting textured polyline points.
    pub path_points_textured_buffer: Vec<(Point2, Point2)>,
    /// A buffer containing all text, as UTF-8.
    pub text_buffer: Vec<u8>,
}

/// What the buffers hold.
pub struct ScratchView {
    pub mesh: Seq<u32>,
    pub path_events: Seq<PathEvent>,
    pub colored_points: Seq<(Point2, Color)>,
    pub textured_points: Seq<(Point2, Point2)>,
    pub text: Seq<u8>,
}

impl ScratchView {
    /// Buffers that hold nothing.
    pub open spec fn empty() -> ScratchView {
        ScratchView {
            mesh: Seq::empty(),
            path_events: Seq::empty(),
            colored_points: Seq::empty(),
            textured_points: Seq::empty(),
            text: Seq::empty(),
        }
    }
}

impl View for IntermediaryState {
    type V = ScratchView;

    open spec fn view(&self) -> ScratchView {
        ScratchView {
            mesh: self.intermediary_mesh@,
            path_events: self.path_event_buffer@,
            colored_points: self.path_points_colored_buffer@,
            textured_points: self.path_points_textured_buffer@,
            text: self.text_buffer@,
        }
    }
}

impl Default for IntermediaryState {
    fn default() -> (scratch: IntermediaryState)
        ensures
            scratch@ == ScratchView::empty(),
    {
        let scratch = IntermediaryState {
            intermediary_mesh: Vec::new(),
            path_event_buffer: Vec::new(),
            path_points_colored_buffer: Vec::new(),
            path_points_textured_buffer: Vec::new(),
            text_buffer: Vec::new(),
        };
        proof {
            assert(scratch@.mesh =~= Seq::empty());
            assert(scratch@.path_events =~= Seq::empty());
            assert(scratch@.colored_points =~= Seq::empty());
            assert(scratch@.textured_points =~= Seq::empty());
            assert(scratch@.text =~= Seq::empty());
        }
        scratch
    }
}

impl IntermediaryState {
    /// Empties every buffer.
    pub fn reset(&mut self)
        ensures
            final(self)@ == ScratchView::empty(),
    {
        self.intermediary_mesh.clear();
        self.path_event_buffer.clear();
        self.path_points_colored_buffer.clear();
        self.path_points_textured_buffer.clear();
        self.text_buffer.clear();
        proof {
            assert(self@.mesh =~= Seq::empty());
            assert(self@.path_events =~= Seq::empty());
            assert(self@.colored_points =~= Seq::empty());
            assert(self@.textured_points =~= Seq::empty());
            assert(self@.text =~= Seq::empty());
        }
    }

    /// Appends `text` to the text buffer and returns the range of the
    /// buffer that holds it.
    pub fn push_text(&mut self, text: &str) -> (range: (usize, usize))
        ensures
            final(self)@ == (ScratchView { text: old(self)@.text + text.spec_bytes(), ..old(self)@ }),
            range.0 == old(self)@.text.len(),
            range.1 == old(self)@.text.len() + text.spec_bytes().len(),
    {
        let start: usize = self.text_buffer.len();
        self.text_buffer.extend_from_slice(text.as_bytes());
        let end: usize = self.text_buffer.len();
        proof {
            assert(self@.text =~= old(self)@.text + text.spec_bytes());
        }
        (start, end)
    }
}

} // verus!
