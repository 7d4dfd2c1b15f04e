//! The static scene: identifiers, colors, the three-rectangle display list,
//! and the transactions that carry it to the renderer.

use vstd::prelude::*;

use crate::geom::{DeviceSize, QuarterPoint, QuarterRect};

verus! {

/// Names a scene namespace within a rendering document. The program uses a
/// single, fixed pipeline for its whole run.
#[derive(Clone, Copy, Debug, PartialEq, Eq, Structural)]
pub struct PipelineId(pub u32, pub u32);

/// Versions a display list within a pipeline. The program only ever submits
/// the initial epoch and never increments it, so every redraw reuses the same
/// display-list version.
#[derive(Clone, Copy, Debug, PartialEq, Eq, Structural)]
pub struct Epoch(pub u32);

/// Handle of a renderer-managed logical drawable surface. The renderer mints
/// one at startup; the driver owns it for the process lifetime.
#[derive(Clone, Copy, Debug, PartialEq, Eq, Structural)]
pub struct DocumentId {
    pub namespace: u32,
    pub id: u32,
}

/// A flat color: red, green, blue and alpha channels, each ranging over
/// 0..=255 with 255 as full intensity (or full opacity, for alpha).
#[derive(Clone, Copy, Debug, PartialEq, Eq, Structural)]
pub struct Color {
    pub r: u8,
    pub g: u8,
    pub b: u8,
    pub a: u8,
}

/// Fully opaque red.
pub open spec fn opaque_red() -> Color {
    Color { r: 255, g: 0, b: 0, a: 255 }
}

/// Fully opaque green.
pub open spec fn opaque_green() -> Color {
    Color { r: 0, g: 255, b: 0, a: 255 }
}

/// Fully opaque blue.
pub open spec fn opaque_blue() -> Color {
    Color { r: 0, g: 0, b: 255, a: 255 }
}

/// One filled rectangle of the display list.
#[derive(Clone, Copy, Debug, PartialEq, Eq, Structural)]
pub struct RectItem {
    pub bounds: QuarterRect,
    pub color: Color,
}

/// An ordered description of the drawing primitives of one frame. Every item
/// is attached to the root scroll/clip node of `pipeline`; later items paint
/// over earlier ones where they overlap (painter's-algorithm order).
#[derive(Clone, Debug, PartialEq, Eq)]
pub struct DisplayList {
    pub pipeline: PipelineId,
    pub items: Vec<RectItem>,
}

/// The coordinate `k/4 · px`, expressed in quarter pixels.
pub open spec fn quarters(k: int, px: u32) -> u64 {
    (k * px) as u64
}

/// The first rectangle: origin at (0, 0), spanning half the width and half
/// the height.
pub open spec fn spec_rect_a(size: DeviceSize) -> QuarterRect {
    QuarterRect {
        min: QuarterPoint { x: 0, y: 0 },
        max: QuarterPoint { x: quarters(2, size.width), y: quarters(2, size.height) },
    }
}

/// The second rectangle: from a quarter of the size to three quarters of it.
pub open spec fn spec_rect_b(size: DeviceSize) -> QuarterRect {
    QuarterRect {
        min: QuarterPoint { x: quarters(1, size.width), y: quarters(1, size.height) },
        max: QuarterPoint { x: quarters(3, size.width), y: quarters(3, size.height) },
    }
}

/// The third rectangle: from half the size to the full size.
pub open spec fn spec_rect_c(size: DeviceSize) -> QuarterRect {
    QuarterRect {
        min: QuarterPoint { x: quarters(2, size.width), y: quarters(2, size.height) },
        max: QuarterPoint { x: quarters(4, size.width), y: quarters(4, size.height) },
    }
}

/// The items of the one scene the program ever draws: an opaque red, green
/// and blue rectangle, appended in that order.
pub open spec fn scene_items(size: DeviceSize) -> Seq<RectItem> {
    seq![
        RectItem { bounds: spec_rect_a(size), color: opaque_red() },
        RectItem { bounds: spec_rect_b(size), color: opaque_green() },
        RectItem { bounds: spec_rect_c(size), color: opaque_blue() },
    ]
}

/// Builds the fixed display list for a device-pixel size: exactly three
/// rectangles with the colors and quarter-pixel coordinates of
/// `scene_items`, each attached to the root scroll/clip node of `pipeline`.
/// A pure function of its arguments; any size is accepted, a zero size
/// giving degenerate rectangles.
pub fn build_scene(size: DeviceSize, pipeline: PipelineId) -> (list: DisplayList)
    ensures
        list.pipeline == pipeline,
        list.items@ == scene_items(size),
        list.items@.len() == 3,
{
    let w: u64 = size.width as u64;
    let h: u64 = size.height as u64;
    let mut items: Vec<RectItem> = Vec::new();
    items.push(
        RectItem {
            bounds: QuarterRect {
                min: QuarterPoint { x: 0, y: 0 },
                max: QuarterPoint { x: 2 * w, y: 2 * h },
            },
            color: Color { r: 255, g: 0, b: 0, a: 255 },
        },
    );
    items.push(
        RectItem {
            bounds: QuarterRect {
                min: QuarterPoint { x: w, y: h },
                max: QuarterPoint { x: 3 * w, y: 3 * h },
            },
            color: Color { r: 0, g: 255, b: 0, a: 255 },
        },
    );
    items.push(
        RectItem {
            bounds: QuarterRect {
                min: QuarterPoint { x: 2 * w, y: 2 * h },
                max: QuarterPoint { x: 4 * w, y: 4 * h },
            },
            color: Color { r: 0, g: 0, b: 255, a: 255 },
        },
    );
    proof {
        assert(items@ =~= scene_items(size));
    }
    DisplayList { pipeline, items }
}

/// Law: the scene builder is deterministic. Two display lists that both
/// satisfy its contract for the same size and pipeline are structurally
/// equal: same pipeline, and item-for-item equal contents.
pub proof fn lemma_scene_deterministic(
    a: DisplayList,
    b: DisplayList,
    size: DeviceSize,
    pipeline: PipelineId,
)
    requires
        a.pipeline == pipeline,
        a.items@ == scene_items(size),
        b.pipeline == pipeline,
        b.items@ == scene_items(size),
    ensures
        a.pipeline == b.pipeline,
        a.items@ == b.items@,
{
}

/// Law: every rectangle of the scene is well formed, whatever the size.
pub proof fn lemma_scene_rects_well_formed(size: DeviceSize)
    ensures
        forall|i: int|
            0 <= i < scene_items(size).len() ==> (#[trigger] scene_items(
                size,
            )[i]).bounds.well_formed(),
{
    let s = scene_items(size);
    assert(s[0].bounds.well_formed());
    assert(s[1].bounds.well_formed());
    assert(s[2].bounds.well_formed());
}

/// Law: a zero-sized device yields three degenerate, zero-area rectangles.
pub proof fn lemma_zero_size_degenerate(size: DeviceSize)
    requires
        size.width == 0 || size.height == 0,
    ensures
        forall|i: int|
            0 <= i < scene_items(size).len() ==> (#[trigger] scene_items(
                size,
            )[i]).bounds.is_degenerate(),
        forall|i: int|
            0 <= i < scene_items(size).len() ==> (#[trigger] scene_items(size)[i]).bounds.area()
                == 0,
{
    let s = scene_items(size);
    lemma_scene_rects_well_formed(size);
    assert(s[0].bounds.is_degenerate());
    assert(s[1].bounds.is_degenerate());
    assert(s[2].bounds.is_degenerate());
    crate::geom::lemma_zero_area_is_degenerate(s[0].bounds);
    crate::geom::lemma_zero_area_is_degenerate(s[1].bounds);
    crate::geom::lemma_zero_area_is_degenerate(s[2].bounds);
}

/// The display-list part of a transaction: the epoch it belongs to, the
/// background color the frame is composited against, and the list itself.
#[derive(Clone, Debug, PartialEq, Eq)]
pub struct DisplayListUpdate {
    pub epoch: Epoch,
    pub background: Color,
    pub list: DisplayList,
}

/// A one-shot, write-only batch of scene and frame commands, built fresh for
/// each submission and consumed by it.
#[derive(Clone, Debug, PartialEq, Eq)]
pub struct Transaction {
    pub display_list: Option<DisplayListUpdate>,
    pub root_pipeline: Option<PipelineId>,
    pub generate_frame: bool,
}

impl Transaction {
    /// A transaction that carries no commands at all.
    pub open spec fn is_empty(self) -> bool {
        self.display_list is None && self.root_pipeline is None && !self.generate_frame
    }

    /// The empty transaction the loop pumps on every iteration: a no-op scene
    /// update.
    pub fn empty() -> (txn: Transaction)
        ensures
            txn.is_empty(),
    {
        Transaction { display_list: None, root_pipeline: None, generate_frame: false }
    }
}

/// The transaction submitted once at startup: the three-rectangle display
/// list at the given epoch over an opaque red background, the given pipeline
/// as root pipeline, and an unconditional frame-generation request.
pub fn initial_transaction(size: DeviceSize, pipeline: PipelineId, epoch: Epoch) -> (txn:
    Transaction)
    ensures
        txn.display_list matches Some(update) && update.epoch == epoch && update.background
            == opaque_red() && update.list.pipeline == pipeline && update.list.items@
            == scene_items(size),
        txn.root_pipeline == Some(pipeline),
        txn.generate_frame,
{
    Transaction {
        display_list: Some(
            DisplayListUpdate {
                epoch,
                background: Color { r: 255, g: 0, b: 0, a: 255 },
                list: build_scene(size, pipeline),
            },
        ),
        root_pipeline: Some(pipeline),
        generate_frame: true,
    }
}

/// The fixed identifier of the one pipeline the program renders with.
pub fn root_pipeline_id() -> (id: PipelineId)
    ensures
        id == PipelineId(0u32, 0u32),
{
    PipelineId(0, 0)
}

/// The epoch of the one display list ever submitted; it is never incremented.
pub fn initial_epoch() -> (epoch: Epoch)
    ensures
        epoch == Epoch(0u32),
{
    Epoch(0)
}

} // verus!
