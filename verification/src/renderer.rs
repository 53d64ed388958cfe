//! The batching renderer: it gathers triangles into batches that share their
//! render state and issues each batch to the graphics device as one draw.
//!
//! The device itself is not here. What the renderer issues is recorded, in
//! the order of issue, as a list of [`GpuCommand`]s for the caller to carry
//! out.

use vstd::prelude::*;
use crate::color::Color;
use crate::dimen::{Vector2, Viewport};
use crate::image::ImageHandle;
use crate::shape::{same_rect, Rect};

verus! {

/// What has to be set on the device before a triangle can be drawn: the
/// bound texture, if any, and the clip rectangle, if any.
#[derive(Clone, Copy, Debug, PartialEq, Eq)]
pub struct RenderState {
    pub texture: Option<ImageHandle>,
    pub clip: Option<Rect>,
}

impl RenderState {
    /// No texture and no clip: the state at the start of a frame.
    pub open spec fn spec_default() -> Self {
        RenderState { texture: None, clip: None }
    }

    /// No texture and no clip.
    pub fn default_state() -> (s: Self)
        ensures
            s == Self::spec_default(),
    {
        RenderState { texture: None, clip: None }
    }

    /// Whether two states are the same state.
    pub fn same(&self, other: &RenderState) -> (same: bool)
        ensures
            same == (*self == *other),
    {
        let same_texture = match (&self.texture, &other.texture) {
            (None, None) => true,
            (Some(a), Some(b)) => a.same(b),
            _ => false,
        };
        let same_clip = match (&self.clip, &other.clip) {
            (None, None) => true,
            (Some(a), Some(b)) => same_rect(a, b),
            _ => false,
        };
        same_texture && same_clip
    }
}

/// One triangle: three corners in clockwise order, a colour for each, and
/// for a textured triangle the place of each corner in the image.
///
/// The order of the corners is the caller's business; it is not checked.
#[derive(Clone, Copy, Debug, PartialEq)]
pub struct DrawPrimitive<T> {
    pub positions: [Vector2<T>; 3],
    pub colors: [Color<T>; 3],
    pub image_coords: Option<[Vector2<T>; 3]>,
}

/// A run of triangles that share one render state, as a value of
/// specifications.
pub struct BatchModel<T> {
    pub state: RenderState,
    pub primitives: Seq<DrawPrimitive<T>>,
}

/// A run of triangles that share one render state. It is drawn with one
/// call.
#[derive(Clone, Debug)]
pub struct Batch<T> {
    state: RenderState,
    primitives: Vec<DrawPrimitive<T>>,
}

impl<T> View for Batch<T> {
    type V = BatchModel<T>;

    closed spec fn view(&self) -> BatchModel<T> {
        BatchModel { state: self.state, primitives: self.primitives@ }
    }
}

impl<T: Copy> Batch<T> {
    /// The state that all triangles of the batch are drawn with.
    pub fn state(&self) -> (s: RenderState)
        ensures
            s == self@.state,
    {
        self.state
    }

    /// How many triangles the batch holds.
    pub fn len(&self) -> (n: usize)
        ensures
            n == self@.primitives.len(),
    {
        self.primitives.len()
    }

    /// The triangle at `index`, in the order of submission.
    pub fn primitive(&self, index: usize) -> (p: Option<DrawPrimitive<T>>)
        ensures
            p.is_some() <==> index < self@.primitives.len(),
            p matches Some(q) ==> q == self@.primitives[index as int],
    {
        if index < self.primitives.len() {
            Some(self.primitives[index])
        } else {
            None
        }
    }
}

/// What the renderer asks of the graphics device, as a value of
/// specifications.
pub enum GpuCommandModel<T> {
    CreateTexture(ImageHandle, Seq<u8>),
    Clear(Color<T>),
    Draw(BatchModel<T>),
    SetProjection(Viewport),
    Present,
}

/// What the renderer asks of the graphics device.
#[derive(Clone, Debug)]
pub enum GpuCommand<T> {
    /// Make the texture that the handle stands for from these pixels, which
    /// are in the handle's layout and fill its size.
    CreateTexture(ImageHandle, Vec<u8>),
    /// Fill the whole viewport with the colour.
    Clear(Color<T>),
    /// Bind the batch's texture, set its clip, and draw its triangles with
    /// one call.
    Draw(Batch<T>),
    /// Use the orthographic projection that maps the logical pixels of the
    /// viewport one to one, origin at the top left, y down. The viewport
    /// comes as its physical size and its scale factor, so that the logical
    /// width and height can be had without rounding.
    SetProjection(Viewport),
    /// Show the frame.
    Present,
}

impl<T> View for GpuCommand<T> {
    type V = GpuCommandModel<T>;

    open spec fn view(&self) -> GpuCommandModel<T> {
        match self {
            GpuCommand::CreateTexture(h, pixels) => GpuCommandModel::CreateTexture(*h, pixels@),
            GpuCommand::Clear(c) => GpuCommandModel::Clear(*c),
            GpuCommand::Draw(b) => GpuCommandModel::Draw(b@),
            GpuCommand::SetProjection(s) => GpuCommandModel::SetProjection(*s),
            GpuCommand::Present => GpuCommandModel::Present,
        }
    }
}

/// The renderer as a value of specifications: whether a frame is open, the
/// batch that is still gathering triangles, and all that was issued so far.
pub struct RendererModel<T> {
    pub frame_open: bool,
    pub open: Option<BatchModel<T>>,
    pub issued: Seq<GpuCommandModel<T>>,
}

impl<T> RendererModel<T> {
    /// A renderer that has issued nothing and has no frame open.
    pub open spec fn fresh() -> Self {
        RendererModel { frame_open: false, open: None, issued: Seq::empty() }
    }

    /// An open batch is never empty.
    pub open spec fn wf(self) -> bool {
        self.open matches Some(b) ==> b.primitives.len() > 0
    }

    /// Opens a frame: no batch is carried over.
    pub open spec fn begin_frame(self) -> Self {
        RendererModel { frame_open: true, open: None, issued: self.issued }
    }

    /// Issues the open batch, if there is one.
    pub open spec fn flush(self) -> Self {
        match self.open {
            Some(b) => RendererModel {
                frame_open: self.frame_open,
                open: None,
                issued: self.issued.push(GpuCommandModel::Draw(b)),
            },
            None => self,
        }
    }

    /// Adds a triangle: to the open batch where the state is the same, else
    /// to a new batch, after the open one has been issued.
    pub open spec fn submit(self, primitive: DrawPrimitive<T>, state: RenderState) -> Self {
        match self.open {
            Some(b) if b.state == state => RendererModel {
                frame_open: self.frame_open,
                open: Some(BatchModel { state, primitives: b.primitives.push(primitive) }),
                issued: self.issued,
            },
            _ => RendererModel {
                frame_open: self.frame_open,
                open: Some(BatchModel { state, primitives: seq![primitive] }),
                issued: self.flush().issued,
            },
        }
    }

    /// Issues a clear at once. The open batch stays open.
    pub open spec fn clear(self, color: Color<T>) -> Self {
        RendererModel {
            frame_open: self.frame_open,
            open: self.open,
            issued: self.issued.push(GpuCommandModel::Clear(color)),
        }
    }

    /// Issues the making of a texture at once. The open batch stays open.
    pub open spec fn create_texture(self, handle: ImageHandle, pixels: Seq<u8>) -> Self {
        RendererModel {
            frame_open: self.frame_open,
            open: self.open,
            issued: self.issued.push(GpuCommandModel::CreateTexture(handle, pixels)),
        }
    }

    /// Closes the frame: the open batch is issued, then the projection for
    /// the viewport, then the present.
    pub open spec fn end_frame(self, viewport: Viewport) -> Self {
        RendererModel {
            frame_open: false,
            open: None,
            issued: self.flush().issued.push(GpuCommandModel::SetProjection(viewport)).push(
                GpuCommandModel::Present,
            ),
        }
    }

    /// Forgets what was issued, as after the caller has taken it.
    pub open spec fn taken(self) -> Self {
        RendererModel { frame_open: self.frame_open, open: self.open, issued: Seq::empty() }
    }
}

/// The views of a list of commands.
pub open spec fn command_views<T>(commands: Seq<GpuCommand<T>>) -> Seq<GpuCommandModel<T>> {
    Seq::new(commands.len(), |i: int| commands[i]@)
}

/// The batching renderer.
pub struct BatchingRenderer<T> {
    frame_open: bool,
    open_state: RenderState,
    open_primitives: Vec<DrawPrimitive<T>>,
    issued: Vec<GpuCommand<T>>,
}

impl<T> View for BatchingRenderer<T> {
    type V = RendererModel<T>;

    closed spec fn view(&self) -> RendererModel<T> {
        RendererModel {
            frame_open: self.frame_open,
            open: if self.open_primitives@.len() > 0 {
                Some(BatchModel { state: self.open_state, primitives: self.open_primitives@ })
            } else {
                None
            },
            issued: command_views(self.issued@),
        }
    }
}

impl<T: Copy> BatchingRenderer<T> {
    /// A renderer that has issued nothing and has no frame open.
    pub fn new() -> (r: Self)
        ensures
            r@ == RendererModel::<T>::fresh(),
            r@.wf(),
    {
        let r = BatchingRenderer {
            frame_open: false,
            open_state: RenderState::default_state(),
            open_primitives: Vec::new(),
            issued: Vec::new(),
        };
        assert(r@.issued =~= Seq::empty());
        r
    }

    /// The view of any renderer is well formed.
    pub proof fn lemma_wf(&self)
        ensures
            self@.wf(),
    {
    }

    /// Whether a frame is open.
    pub fn is_frame_open(&self) -> (open: bool)
        ensures
            open == self@.frame_open,
    {
        self.frame_open
    }

    /// Opens a frame. No batch is carried over from before.
    pub fn begin_frame(&mut self)
        requires
            !old(self)@.frame_open,
        ensures
            final(self)@ == old(self)@.begin_frame(),
    {
        self.frame_open = true;
        self.open_primitives = Vec::new();
    }

    /// Issues the open batch, if there is one. An empty batch costs no draw.
    pub fn flush(&mut self)
        ensures
            final(self)@ == old(self)@.flush(),
    {
        if self.open_primitives.len() > 0 {
            let mut primitives: Vec<DrawPrimitive<T>> = Vec::new();
            std::mem::swap(&mut primitives, &mut self.open_primitives);
            let batch = Batch { state: self.open_state, primitives };
            let ghost before = self.issued@;
            self.issued.push(GpuCommand::Draw(batch));
            assert(command_views(self.issued@) =~= command_views(before).push(
                GpuCommandModel::Draw(batch@),
            ));
        }
    }

    /// Adds a triangle to be drawn with the given texture and clip. It joins
    /// the open batch where that has the same state; otherwise the open
    /// batch is issued and the triangle starts a new one.
    pub fn submit(
        &mut self,
        primitive: DrawPrimitive<T>,
        texture: Option<ImageHandle>,
        clip: Option<Rect>,
    )
        requires
            old(self)@.frame_open,
        ensures
            final(self)@ == old(self)@.submit(primitive, RenderState { texture, clip }),
    {
        let state = RenderState { texture, clip };
        if self.open_primitives.len() > 0 && self.open_state.same(&state) {
            self.open_primitives.push(primitive);
        } else {
            self.flush();
            self.open_state = state;
            self.open_primitives.push(primitive);
            assert(self.open_primitives@ =~= seq![primitive]);
        }
    }

    /// Issues a clear of the whole viewport at once, without touching the
    /// open batch.
    pub fn clear(&mut self, color: Color<T>)
        requires
            old(self)@.frame_open,
        ensures
            final(self)@ == old(self)@.clear(color),
    {
        let ghost before = self.issued@;
        self.issued.push(GpuCommand::Clear(color));
        assert(command_views(self.issued@) =~= command_views(before).push(
            GpuCommandModel::Clear(color),
        ));
    }

    /// Issues the making of the texture behind `handle` from `pixels`, at
    /// once and whether or not a frame is open.
    pub fn create_texture(&mut self, handle: ImageHandle, pixels: Vec<u8>)
        ensures
            final(self)@ == old(self)@.create_texture(handle, pixels@),
    {
        let ghost before = self.issued@;
        self.issued.push(GpuCommand::CreateTexture(handle, pixels));
        assert(command_views(self.issued@) =~= command_views(before).push(
            GpuCommandModel::CreateTexture(handle, pixels@),
        ));
    }

    /// Closes the frame: issues the open batch, then the projection for a
    /// viewport, then the present.
    pub fn end_frame(&mut self, viewport: Viewport)
        requires
            old(self)@.frame_open,
        ensures
            final(self)@ == old(self)@.end_frame(viewport),
    {
        self.flush();
        let ghost before = self.issued@;
        self.issued.push(GpuCommand::SetProjection(viewport));
        self.issued.push(GpuCommand::Present);
        assert(command_views(self.issued@) =~= command_views(before).push(
            GpuCommandModel::SetProjection(viewport),
        ).push(GpuCommandModel::Present));
        self.frame_open = false;
    }

    /// Hands over all that was issued since the last call, in the order of
    /// issue, for the caller to carry out on the device.
    pub fn take_commands(&mut self) -> (commands: Vec<GpuCommand<T>>)
        ensures
            command_views(commands@) == old(self)@.issued,
            final(self)@ == old(self)@.taken(),
    {
        let mut commands: Vec<GpuCommand<T>> = Vec::new();
        std::mem::swap(&mut commands, &mut self.issued);
        assert(command_views(self.issued@) =~= Seq::empty());
        commands
    }
}

} // verus!
