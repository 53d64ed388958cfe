//! The drawing surface of one frame: shapes, images and text, each taken
//! apart into triangles for the batching renderer.

use vstd::prelude::*;
use crate::color::Color;
use crate::dimen::{ScaleFactor, UVec2, Vector2, Viewport};
use crate::error::BacktraceError;
use crate::font::{FormattedGlyph, FormattedTextBlock};
use crate::image::{
    byte_length, convert_pixels, converted, is_byte_length, ImageCreationError, ImageDataType,
    ImageHandle, ImageSmoothingMode, RawBitmapData,
};
use crate::renderer::{
    command_views, BatchingRenderer, DrawPrimitive, GpuCommand, GpuCommandModel, RenderState,
    RendererModel,
};
use crate::shape::{narrowed, spec_narrowed, Polygon, Rect, Rectangle};

verus! {

/// The first triangle of a quadrilateral: its corners 0, 1 and 2, each with
/// its colour and its place in the image.
pub open spec fn first_triangle<T>(
    positions: [Vector2<T>; 4],
    colors: [Color<T>; 4],
    image_coords: Option<[Vector2<T>; 4]>,
) -> DrawPrimitive<T> {
    DrawPrimitive {
        positions: [positions[0], positions[1], positions[2]],
        colors: [colors[0], colors[1], colors[2]],
        image_coords: match image_coords {
            Some(ic) => Some([ic[0], ic[1], ic[2]]),
            None => None,
        },
    }
}

/// The second triangle of a quadrilateral: its corners 2, 3 and 0. The two
/// triangles share the diagonal from corner 0 to corner 2.
pub open spec fn second_triangle<T>(
    positions: [Vector2<T>; 4],
    colors: [Color<T>; 4],
    image_coords: Option<[Vector2<T>; 4]>,
) -> DrawPrimitive<T> {
    DrawPrimitive {
        positions: [positions[2], positions[3], positions[0]],
        colors: [colors[2], colors[3], colors[0]],
        image_coords: match image_coords {
            Some(ic) => Some([ic[2], ic[3], ic[0]]),
            None => None,
        },
    }
}

/// The surface as a value of specifications.
pub struct GraphicsModel<T> {
    pub renderer: RendererModel<T>,
    /// The clip rectangle that drawing is confined to, if any.
    pub clip: Option<Rect>,
    /// The context that the surface's images belong to.
    pub context: u64,
    /// The images made so far, each at the place that its handle names.
    pub images: Seq<ImageHandle>,
    /// The scalar that stands for nothing: the left and top of an image.
    pub zero: T,
    /// The scalar that stands for all: the right and bottom of an image, and
    /// a colour channel at full strength.
    pub one: T,
}

impl<T> GraphicsModel<T> {
    /// The surface after a triangle was drawn with the given texture under
    /// the active clip.
    pub open spec fn triangle(self, primitive: DrawPrimitive<T>, texture: Option<ImageHandle>) -> Self {
        GraphicsModel {
            renderer: self.renderer.submit(primitive, RenderState { texture, clip: self.clip }),
            ..self
        }
    }

    /// The surface after a quadrilateral was drawn: its first triangle, then
    /// its second.
    pub open spec fn quad(
        self,
        positions: [Vector2<T>; 4],
        colors: [Color<T>; 4],
        image_coords: Option<[Vector2<T>; 4]>,
        texture: Option<ImageHandle>,
    ) -> Self {
        self.triangle(first_triangle(positions, colors, image_coords), texture).triangle(
            second_triangle(positions, colors, image_coords),
            texture,
        )
    }

    /// The surface after a rectangle was drawn with one colour: the
    /// quadrilateral of its corners, clockwise from the top left.
    pub open spec fn rectangle(
        self,
        rect: Rectangle<T>,
        color: Color<T>,
        image_coords: Option<Rectangle<T>>,
        texture: Option<ImageHandle>,
    ) -> Self where T: Copy {
        self.quad(
            rect.spec_corners(),
            [color, color, color, color],
            match image_coords {
                Some(ic) => Some(ic.spec_corners()),
                None => None,
            },
            texture,
        )
    }

    /// The whole of an image, in normalized coordinates.
    pub open spec fn whole_image(self) -> Rectangle<T> {
        Rectangle {
            top_left: Vector2 { x: self.zero, y: self.zero },
            bottom_right: Vector2 { x: self.one, y: self.one },
        }
    }

    /// The colour that leaves an image as it is when it tints it.
    pub open spec fn white(self) -> Color<T> {
        Color { r: self.one, g: self.one, b: self.one, a: self.one }
    }

    /// The surface after the glyph was drawn in the colour.
    pub open spec fn glyph(self, glyph: FormattedGlyph<T>, color: Color<T>) -> Self where T: Copy {
        self.rectangle(glyph.bounds, color, Some(glyph.atlas_coords), Some(glyph.atlas))
    }

    /// The surface after the glyphs were drawn in the colour, in order.
    pub open spec fn glyphs(self, glyphs: Seq<FormattedGlyph<T>>, color: Color<T>) -> Self where
        T: Copy,

        decreases glyphs.len(),
    {
        if glyphs.len() == 0 {
            self
        } else {
            self.glyphs(glyphs.drop_last(), color).glyph(glyphs.last(), color)
        }
    }

    /// The surface after the triangles were drawn in the colour, in order.
    pub open spec fn triangles(self, triangles: Seq<[Vector2<T>; 3]>, color: Color<T>) -> Self
        decreases triangles.len(),
    {
        if triangles.len() == 0 {
            self
        } else {
            self.triangles(triangles.drop_last(), color).triangle(
                DrawPrimitive {
                    positions: triangles.last(),
                    colors: [color, color, color],
                    image_coords: None,
                },
                None,
            )
        }
    }

    /// How many triangles a fan over a rim of `points` points has: one less
    /// than points, and none for fewer than two points.
    pub open spec fn fan_size(points: nat) -> nat {
        if points >= 2 {
            (points - 1) as nat
        } else {
            0
        }
    }

    /// The surface after the first `count` triangles of a fan were drawn:
    /// triangle `i` joins the hub to the rim's points `i` and `i + 1`.
    pub open spec fn fan(
        self,
        hub: Vector2<T>,
        rim: Seq<Vector2<T>>,
        color: Color<T>,
        count: nat,
    ) -> Self
        decreases count,
    {
        if count == 0 {
            self
        } else {
            self.fan(hub, rim, color, (count - 1) as nat).triangle(
                DrawPrimitive {
                    positions: [hub, rim[count - 1], rim[count as int]],
                    colors: [color, color, color],
                    image_coords: None,
                },
                None,
            )
        }
    }

    /// The surface after the caller has taken what was issued.
    pub open spec fn renderer_taken(self) -> Self {
        GraphicsModel { renderer: self.renderer.taken(), ..self }
    }

    /// Whether the handle is one that this surface has made.
    pub open spec fn owns(self, image: ImageHandle) -> bool {
        &&& image.spec_context() == self.context
        &&& image.spec_index() < self.images.len()
        &&& self.images[image.spec_index() as int] == image
    }
}

/// The drawing surface. Between `begin_frame` and `end_frame` it takes
/// drawing calls; what they come to is issued through the batching renderer.
pub struct Graphics2D<T> {
    renderer: BatchingRenderer<T>,
    clip: Option<Rect>,
    context: u64,
    images: Vec<ImageHandle>,
    zero: T,
    one: T,
}

impl<T> View for Graphics2D<T> {
    type V = GraphicsModel<T>;

    closed spec fn view(&self) -> GraphicsModel<T> {
        GraphicsModel {
            renderer: self.renderer@,
            clip: self.clip,
            context: self.context,
            images: self.images@,
            zero: self.zero,
            one: self.one,
        }
    }
}

impl<T: Copy> Graphics2D<T> {
    /// A surface for the graphics context `context`, with no frame open, no
    /// clip, no image, and nothing issued. `zero` and `one` are the scalars
    /// that mark the two ends of an image and of a colour channel.
    pub fn new(context: u64, zero: T, one: T) -> (g: Self)
        ensures
            g@ == (GraphicsModel {
                renderer: RendererModel::<T>::fresh(),
                clip: None,
                context,
                images: Seq::empty(),
                zero,
                one,
            }),
    {
        Graphics2D {
            renderer: BatchingRenderer::new(),
            clip: None,
            context,
            images: Vec::new(),
            zero,
            one,
        }
    }

    /// Whether a frame is open.
    pub fn is_frame_open(&self) -> (open: bool)
        ensures
            open == self@.renderer.frame_open,
    {
        self.renderer.is_frame_open()
    }

    /// Whether the handle is one that this surface has made.
    pub fn is_valid_image(&self, image: &ImageHandle) -> (valid: bool)
        ensures
            valid == self@.owns(*image),
    {
        image.context() == self.context && image.index() < self.images.len()
            && self.images[image.index()].same(image)
    }

    /// Makes an image from raw pixels in the layout `data_type`. It fails,
    /// and changes nothing, unless `data` holds exactly `size.x * size.y`
    /// pixels of that layout. Otherwise the image gets the next free place,
    /// and the making of its texture is issued.
    pub fn create_image_from_raw_pixels(
        &mut self,
        data_type: ImageDataType,
        smoothing_mode: ImageSmoothingMode,
        size: UVec2,
        data: &[u8],
    ) -> (r: Result<ImageHandle, BacktraceError<ImageCreationError>>)
        ensures
            r.is_ok() <==> data@.len() == byte_length(size, data_type),
            r matches Err(e) ==> final(self)@ == old(self)@ && e.spec_error()
                == ImageCreationError::InvalidDataLength && e.spec_causes().len() == 0,
            r matches Ok(h) ==> {
                &&& h.spec_context() == old(self)@.context
                &&& h.spec_index() == old(self)@.images.len()
                &&& h.spec_size() == size
                &&& h.spec_data_type() == data_type
                &&& h.spec_smoothing_mode() == smoothing_mode
                &&& final(self)@ == (GraphicsModel {
                    renderer: old(self)@.renderer.create_texture(h, data@),
                    images: old(self)@.images.push(h),
                    ..old(self)@
                })
                &&& final(self)@.owns(h)
            },
    {
        if !is_byte_length(data.len(), size, data_type) {
            return Err(BacktraceError::new(ImageCreationError::InvalidDataLength));
        }
        let handle = ImageHandle::new(
            self.context,
            self.images.len(),
            size,
            data_type,
            smoothing_mode,
        );
        let pixels = slice_to_vec(data);
        self.renderer.create_texture(handle, pixels);
        self.images.push(handle);
        Ok(handle)
    }

    /// Makes an image from what the decoder made of a file's bytes: the raw
    /// pixels with their size and layout, or nothing where the bytes could
    /// not be decoded.
    pub fn create_image_from_file_bytes(
        &mut self,
        smoothing_mode: ImageSmoothingMode,
        decoded: Option<(ImageDataType, UVec2, Vec<u8>)>,
    ) -> (r: Result<ImageHandle, BacktraceError<ImageCreationError>>)
        ensures
            r.is_ok() <==> (decoded matches Some(d) && d.2@.len() == byte_length(d.1, d.0)),
            r matches Err(e) ==> final(self)@ == old(self)@ && e.spec_causes().len() == 0
                && e.spec_error() == if decoded.is_none() {
                ImageCreationError::DecodingFailed
            } else {
                ImageCreationError::InvalidDataLength
            },
            r matches Ok(h) ==> decoded matches Some(d) ==> {
                &&& h.spec_context() == old(self)@.context
                &&& h.spec_index() == old(self)@.images.len()
                &&& h.spec_size() == d.1
                &&& h.spec_data_type() == d.0
                &&& h.spec_smoothing_mode() == smoothing_mode
                &&& final(self)@ == (GraphicsModel {
                    renderer: old(self)@.renderer.create_texture(h, d.2@),
                    images: old(self)@.images.push(h),
                    ..old(self)@
                })
            },
    {
        match decoded {
            None => Err(BacktraceError::new(ImageCreationError::DecodingFailed)),
            Some((data_type, size, data)) => self.create_image_from_raw_pixels(
                data_type,
                smoothing_mode,
                size,
                data.as_slice(),
            ),
        }
    }

    /// Fills the viewport with the colour, at once: the clear does not wait
    /// for the open batch and does not close it.
    pub fn clear_screen(&mut self, color: Color<T>)
        requires
            old(self)@.renderer.frame_open,
        ensures
            final(self)@ == (GraphicsModel {
                renderer: old(self)@.renderer.clear(color),
                ..old(self)@
            }),
    {
        self.renderer.clear(color);
    }

    /// Draws a triangle with a colour for each corner. The corners are to be
    /// given clockwise; this is not checked.
    pub fn draw_triangle_three_color(
        &mut self,
        vertex_positions_clockwise: [Vector2<T>; 3],
        vertex_colors_clockwise: [Color<T>; 3],
    )
        requires
            old(self)@.renderer.frame_open,
        ensures
            final(self)@ == old(self)@.triangle(
                DrawPrimitive {
                    positions: vertex_positions_clockwise,
                    colors: vertex_colors_clockwise,
                    image_coords: None,
                },
                None,
            ),
    {
        self.renderer.submit(
            DrawPrimitive {
                positions: vertex_positions_clockwise,
                colors: vertex_colors_clockwise,
                image_coords: None,
            },
            None,
            self.clip,
        );
    }

    /// Draws a triangle filled from an image. `image_coords_normalized`
    /// gives the place of each corner in the image; the colours tint it.
    pub fn draw_triangle_image_tinted_three_color(
        &mut self,
        vertex_positions_clockwise: [Vector2<T>; 3],
        vertex_colors: [Color<T>; 3],
        image_coords_normalized: [Vector2<T>; 3],
        image: &ImageHandle,
    )
        requires
            old(self)@.renderer.frame_open,
        ensures
            final(self)@ == old(self)@.triangle(
                DrawPrimitive {
                    positions: vertex_positions_clockwise,
                    colors: vertex_colors,
                    image_coords: Some(image_coords_normalized),
                },
                Some(*image),
            ),
    {
        self.renderer.submit(
            DrawPrimitive {
                positions: vertex_positions_clockwise,
                colors: vertex_colors,
                image_coords: Some(image_coords_normalized),
            },
            Some(*image),
            self.clip,
        );
    }

    /// Draws a triangle with one colour.
    pub fn draw_triangle(&mut self, vertex_positions_clockwise: [Vector2<T>; 3], color: Color<T>)
        requires
            old(self)@.renderer.frame_open,
        ensures
            final(self)@ == old(self)@.triangle(
                DrawPrimitive {
                    positions: vertex_positions_clockwise,
                    colors: [color, color, color],
                    image_coords: None,
                },
                None,
            ),
    {
        self.draw_triangle_three_color(vertex_positions_clockwise, [color, color, color]);
    }

    /// Draws a quadrilateral with a colour for each corner, as the two
    /// triangles of corners 0, 1, 2 and 2, 3, 0.
    pub fn draw_quad_four_color(
        &mut self,
        vertex_positions_clockwise: [Vector2<T>; 4],
        vertex_colors: [Color<T>; 4],
    )
        requires
            old(self)@.renderer.frame_open,
        ensures
            final(self)@ == old(self)@.quad(vertex_positions_clockwise, vertex_colors, None, None),
    {
        let vp = vertex_positions_clockwise;
        let vc = vertex_colors;

        self.draw_triangle_three_color([vp[0], vp[1], vp[2]], [vc[0], vc[1], vc[2]]);

        self.draw_triangle_three_color([vp[2], vp[3], vp[0]], [vc[2], vc[3], vc[0]]);
    }

    /// Draws a quadrilateral with one colour.
    pub fn draw_quad(&mut self, vertex_positions_clockwise: [Vector2<T>; 4], color: Color<T>)
        requires
            old(self)@.renderer.frame_open,
        ensures
            final(self)@ == old(self)@.quad(
                vertex_positions_clockwise,
                [color, color, color, color],
                None,
                None,
            ),
    {
        self.draw_quad_four_color(vertex_positions_clockwise, [color, color, color, color]);
    }

    /// Draws a quadrilateral filled from an image, as the two triangles of
    /// corners 0, 1, 2 and 2, 3, 0, each corner keeping its colour and its
    /// place in the image.
    pub fn draw_quad_image_tinted_four_color(
        &mut self,
        vertex_positions_clockwise: [Vector2<T>; 4],
        vertex_colors: [Color<T>; 4],
        image_coords_normalized: [Vector2<T>; 4],
        image: &ImageHandle,
    )
        requires
            old(self)@.renderer.frame_open,
        ensures
            final(self)@ == old(self)@.quad(
                vertex_positions_clockwise,
                vertex_colors,
                Some(image_coords_normalized),
                Some(*image),
            ),
    {
        let vp = vertex_positions_clockwise;
        let vc = vertex_colors;
        let ic = image_coords_normalized;

        self.draw_triangle_image_tinted_three_color(
            [vp[0], vp[1], vp[2]],
            [vc[0], vc[1], vc[2]],
            [ic[0], ic[1], ic[2]],
            image,
        );

        self.draw_triangle_image_tinted_three_color(
            [vp[2], vp[3], vp[0]],
            [vc[2], vc[3], vc[0]],
            [ic[2], ic[3], ic[0]],
            image,
        );
    }

    /// Draws the part `image_coords_normalized` of an image, tinted with one
    /// colour, stretched over `rect`.
    pub fn draw_rectangle_image_subset_tinted(
        &mut self,
        rect: &Rectangle<T>,
        color: Color<T>,
        image_coords_normalized: &Rectangle<T>,
        image: &ImageHandle,
    )
        requires
            old(self)@.renderer.frame_open,
        ensures
            final(self)@ == old(self)@.rectangle(
                *rect,
                color,
                Some(*image_coords_normalized),
                Some(*image),
            ),
    {
        self.draw_quad_image_tinted_four_color(
            [rect.top_left(), rect.top_right(), rect.bottom_right(), rect.bottom_left()],
            [color, color, color, color],
            [
                image_coords_normalized.top_left(),
                image_coords_normalized.top_right(),
                image_coords_normalized.bottom_right(),
                image_coords_normalized.bottom_left(),
            ],
            image,
        );
    }

    /// Draws the whole of an image, tinted with one colour, stretched over
    /// `rect`.
    pub fn draw_rectangle_image_tinted(
        &mut self,
        rect: &Rectangle<T>,
        color: Color<T>,
        image: &ImageHandle,
    )
        requires
            old(self)@.renderer.frame_open,
        ensures
            final(self)@ == old(self)@.rectangle(
                *rect,
                color,
                Some(old(self)@.whole_image()),
                Some(*image),
            ),
    {
        let whole = Rectangle::new(
            Vector2::new(self.zero, self.zero),
            Vector2::new(self.one, self.one),
        );
        self.draw_rectangle_image_subset_tinted(rect, color, &whole, image);
    }

    /// Draws the whole of an image as it is, stretched over `rect`.
    pub fn draw_rectangle_image(&mut self, rect: &Rectangle<T>, image: &ImageHandle)
        requires
            old(self)@.renderer.frame_open,
        ensures
            final(self)@ == old(self)@.rectangle(
                *rect,
                old(self)@.white(),
                Some(old(self)@.whole_image()),
                Some(*image),
            ),
    {
        let white = Color::from_rgba(self.one, self.one, self.one, self.one);
        self.draw_rectangle_image_tinted(rect, white, image);
    }

    /// Draws the whole of an image as it is, from `position` to
    /// `opposite`. For an image at its own size, `opposite` is the position
    /// moved by the image's size.
    pub fn draw_image(&mut self, position: Vector2<T>, opposite: Vector2<T>, image: &ImageHandle)
        requires
            old(self)@.renderer.frame_open,
        ensures
            final(self)@ == old(self)@.rectangle(
                Rectangle { top_left: position, bottom_right: opposite },
                old(self)@.white(),
                Some(old(self)@.whole_image()),
                Some(*image),
            ),
    {
        self.draw_rectangle_image(&Rectangle::new(position, opposite), image);
    }

    /// Draws a laid-out text in one colour: for each glyph, in order, its
    /// part of the atlas, tinted, over the glyph's place.
    pub fn draw_text(&mut self, color: Color<T>, text: &FormattedTextBlock<T>)
        requires
            old(self)@.renderer.frame_open,
        ensures
            final(self)@ == old(self)@.glyphs(text@, color),
    {
        let mut i: usize = 0;
        while i < text.len()
            invariant
                i <= text@.len(),
                self@.renderer.frame_open,
                self@ == old(self)@.glyphs(text@.subrange(0, i as int), color),
            decreases text@.len() - i,
        {
            let glyph = text.glyph(i).unwrap();
            self.draw_rectangle_image_subset_tinted(
                &glyph.bounds,
                color,
                &glyph.atlas_coords,
                &glyph.atlas,
            );
            proof {
                let done = text@.subrange(0, i + 1);
                assert(done.drop_last() =~= text@.subrange(0, i as int));
                assert(done.last() == glyph);
            }
            i += 1;
        }
        assert(text@.subrange(0, i as int) =~= text@);
    }

    /// Draws a laid-out text in one colour, confined to `crop_window`. The
    /// glyphs are drawn as by [`Graphics2D::draw_text`], under the clip that
    /// the active clip and the window have in common, so that a glyph that
    /// lies across the window's edge is cut there, not left out. The active
    /// clip is afterwards what it was.
    pub fn draw_text_cropped(
        &mut self,
        crop_window: Rect,
        color: Color<T>,
        text: &FormattedTextBlock<T>,
    )
        requires
            old(self)@.renderer.frame_open,
        ensures
            final(self)@ == (GraphicsModel {
                clip: old(self)@.clip,
                ..(GraphicsModel {
                    clip: Some(spec_narrowed(old(self)@.clip, crop_window)),
                    ..old(self)@
                }).glyphs(text@, color)
            }),
    {
        let outer = self.clip;
        self.clip = Some(narrowed(&outer, &crop_window));
        self.draw_text(color, text);
        self.clip = outer;
    }

    /// Draws a fan of triangles in one colour: one triangle from the hub to
    /// each two neighbouring points of the rim, in order. A rim of `n`
    /// points gives `n - 1` triangles, and a rim of fewer than two gives
    /// none. For a closed outline the rim ends with its first point.
    pub fn draw_triangle_fan(&mut self, hub: Vector2<T>, rim: &Vec<Vector2<T>>, color: Color<T>)
        requires
            old(self)@.renderer.frame_open,
        ensures
            final(self)@ == old(self)@.fan(
                hub,
                rim@,
                color,
                GraphicsModel::<T>::fan_size(rim@.len()),
            ),
    {
        if rim.len() < 2 {
            return;
        }
        let mut i: usize = 1;
        while i < rim.len()
            invariant
                1 <= i <= rim@.len(),
                self@.renderer.frame_open,
                self@ == old(self)@.fan(hub, rim@, color, (i - 1) as nat),
            decreases rim@.len() - i,
        {
            self.draw_triangle([hub, rim[i - 1], rim[i]], color);
            i += 1;
        }
    }

    /// Draws a rectangle with rounded corners in one colour, as a fan from
    /// `hub`, a point inside it, over `rim`, its outline: the points of the
    /// four corner arcs, clockwise, ending with the first point again. The
    /// number of triangles is fixed by the number of points that the arcs
    /// are cut into.
    pub fn draw_rounded_rectangle(
        &mut self,
        hub: Vector2<T>,
        rim: &Vec<Vector2<T>>,
        color: Color<T>,
    )
        requires
            old(self)@.renderer.frame_open,
        ensures
            final(self)@ == old(self)@.fan(
                hub,
                rim@,
                color,
                GraphicsModel::<T>::fan_size(rim@.len()),
            ),
    {
        self.draw_triangle_fan(hub, rim, color);
    }

    /// Draws a filled circle in one colour, as a fan from its center over
    /// `rim`, points on the circle in clockwise order, ending with the first
    /// point again.
    pub fn draw_circle(
        &mut self,
        center_position: Vector2<T>,
        rim: &Vec<Vector2<T>>,
        color: Color<T>,
    )
        requires
            old(self)@.renderer.frame_open,
        ensures
            final(self)@ == old(self)@.fan(
                center_position,
                rim@,
                color,
                GraphicsModel::<T>::fan_size(rim@.len()),
            ),
    {
        self.draw_triangle_fan(center_position, rim, color);
    }

    /// Draws a filled polygon in one colour: each of its triangles, in
    /// order.
    pub fn draw_polygon(&mut self, polygon: &Polygon<T>, color: Color<T>)
        requires
            old(self)@.renderer.frame_open,
        ensures
            final(self)@ == old(self)@.triangles(polygon@, color),
    {
        let mut i: usize = 0;
        while i < polygon.len()
            invariant
                i <= polygon@.len(),
                self@.renderer.frame_open,
                self@ == old(self)@.triangles(polygon@.subrange(0, i as int), color),
            decreases polygon@.len() - i,
        {
            let corners = polygon.triangle(i).unwrap();
            self.draw_triangle(corners, color);
            proof {
                let done = polygon@.subrange(0, i + 1);
                assert(done.drop_last() =~= polygon@.subrange(0, i as int));
                assert(done.last() == corners);
            }
            i += 1;
        }
        assert(polygon@.subrange(0, i as int) =~= polygon@);
    }

    /// Draws a rectangle with one colour.
    pub fn draw_rectangle(&mut self, rect: &Rectangle<T>, color: Color<T>)
        requires
            old(self)@.renderer.frame_open,
        ensures
            final(self)@ == old(self)@.rectangle(*rect, color, None, None),
    {
        self.draw_quad(
            [rect.top_left(), rect.top_right(), rect.bottom_right(), rect.bottom_left()],
            color,
        );
    }

    /// Sets the clip rectangle for what is drawn from now on, in window
    /// pixels; `None` switches clipping off.
    pub fn set_clip(&mut self, rect: Option<Rect>)
        requires
            old(self)@.renderer.frame_open,
        ensures
            final(self)@ == (GraphicsModel { clip: rect, ..old(self)@ }),
    {
        self.clip = rect;
    }

    /// The active clip rectangle.
    pub fn clip(&self) -> (rect: Option<Rect>)
        ensures
            rect == self@.clip,
    {
        self.clip
    }

    /// Brings what was read back from the device to the layout `format`.
    /// `framebuffer` holds the frame as the device gives it, four bytes to
    /// the pixel. The result is nothing unless those are exactly
    /// `size.x * size.y` pixels.
    pub fn capture(&self, format: ImageDataType, framebuffer: &[u8], size: UVec2) -> (r: Option<
        RawBitmapData,
    >)
        ensures
            r.is_some() <==> framebuffer@.len() == byte_length(size, ImageDataType::RGBA),
            r matches Some(b) ==> b.spec_size() == size && b.spec_format() == format
                && b.spec_data() == converted(framebuffer@, ImageDataType::RGBA, format),
    {
        if !is_byte_length(framebuffer.len(), size, ImageDataType::RGBA) {
            return None;
        }
        let data = convert_pixels(framebuffer, ImageDataType::RGBA, format);
        proof {
            lemma_converted_length(framebuffer@, size, format);
        }
        RawBitmapData::new(data, size, format)
    }

    /// Opens a frame. The clip is off and no batch is open.
    pub fn begin_frame(&mut self)
        requires
            !old(self)@.renderer.frame_open,
        ensures
            final(self)@ == (GraphicsModel {
                renderer: old(self)@.renderer.begin_frame(),
                clip: None,
                ..old(self)@
            }),
    {
        self.renderer.begin_frame();
        self.clip = None;
    }

    /// Closes the frame for the viewport: what is
    /// still open is issued, then the projection, then the present.
    pub fn end_frame(&mut self, viewport: Viewport)
        requires
            old(self)@.renderer.frame_open,
        ensures
            final(self)@ == (GraphicsModel {
                renderer: old(self)@.renderer.end_frame(viewport),
                ..old(self)@
            }),
    {
        self.renderer.end_frame(viewport);
    }

    /// Hands over all that was issued since the last call, in the order of
    /// issue, for the caller to carry out on the device.
    pub fn take_commands(&mut self) -> (commands: Vec<GpuCommand<T>>)
        ensures
            command_views(commands@) == old(self)@.renderer.issued,
            final(self)@ == (GraphicsModel {
                renderer: old(self)@.renderer.taken(),
                ..old(self)@
            }),
    {
        self.renderer.take_commands()
    }
}

proof fn lemma_converted_length(framebuffer: Seq<u8>, size: UVec2, format: ImageDataType)
    requires
        framebuffer.len() == byte_length(size, ImageDataType::RGBA),
    ensures
        converted(framebuffer, ImageDataType::RGBA, format).len() == byte_length(size, format),
{
    let pixels = (size.x as nat) * (size.y as nat);
    assert(framebuffer.len() == pixels * 4);
    assert((pixels * 4) / 4 == pixels);
}

/// A renderer: a drawing surface and the size of the viewport that it draws
/// to.
pub struct GLRenderer<T> {
    renderer: Graphics2D<T>,
    viewport: Viewport,
}

impl<T: Copy> GLRenderer<T> {
    pub closed spec fn spec_graphics(&self) -> GraphicsModel<T> {
        self.renderer@
    }

    /// The viewport that frames are closed for.
    pub closed spec fn spec_viewport(&self) -> Viewport {
        self.viewport
    }

    /// A renderer for the graphics context `context` and the given
    /// viewport, with a fresh surface.
    pub fn new_for_quad(context: u64, viewport: Viewport, zero: T, one: T) -> (r: Self)
        ensures
            r.spec_viewport() == viewport,
            r.spec_graphics() == (GraphicsModel {
                renderer: RendererModel::<T>::fresh(),
                clip: None,
                context,
                images: Seq::empty(),
                zero,
                one,
            }),
    {
        GLRenderer { renderer: Graphics2D::new(context, zero, one), viewport }
    }

    /// Records a new size of the viewport, in physical pixels. It is used
    /// from the next close of a frame on.
    pub fn set_viewport_size_pixels(&mut self, viewport_size_pixels: UVec2)
        ensures
            final(self).spec_viewport() == (Viewport {
                physical_size: viewport_size_pixels,
                ..old(self).spec_viewport()
            }),
            final(self).spec_graphics() == old(self).spec_graphics(),
    {
        self.viewport = Viewport::new(viewport_size_pixels, self.viewport.scale_factor);
    }

    /// Records a new scale factor of the viewport. It is used from the next
    /// close of a frame on.
    pub fn set_scale_factor(&mut self, scale_factor: ScaleFactor)
        ensures
            final(self).spec_viewport() == (Viewport {
                scale_factor,
                ..old(self).spec_viewport()
            }),
            final(self).spec_graphics() == old(self).spec_graphics(),
    {
        self.viewport = Viewport::new(self.viewport.physical_size, scale_factor);
    }

    /// Makes an image from raw pixels, as
    /// [`Graphics2D::create_image_from_raw_pixels`] does.
    pub fn create_image_from_raw_pixels(
        &mut self,
        data_type: ImageDataType,
        smoothing_mode: ImageSmoothingMode,
        size: UVec2,
        data: &[u8],
    ) -> (r: Result<ImageHandle, BacktraceError<ImageCreationError>>)
        ensures
            final(self).spec_viewport() == old(self).spec_viewport(),
            r.is_ok() <==> data@.len() == byte_length(size, data_type),
            r matches Err(e) ==> final(self).spec_graphics() == old(self).spec_graphics()
                && e.spec_error() == ImageCreationError::InvalidDataLength
                && e.spec_causes().len() == 0,
            r matches Ok(h) ==> {
                &&& h.spec_context() == old(self).spec_graphics().context
                &&& h.spec_index() == old(self).spec_graphics().images.len()
                &&& h.spec_size() == size
                &&& h.spec_data_type() == data_type
                &&& h.spec_smoothing_mode() == smoothing_mode
                &&& final(self).spec_graphics() == (GraphicsModel {
                    renderer: old(self).spec_graphics().renderer.create_texture(h, data@),
                    images: old(self).spec_graphics().images.push(h),
                    ..old(self).spec_graphics()
                })
            },
    {
        self.renderer.create_image_from_raw_pixels(data_type, smoothing_mode, size, data)
    }

    /// Makes an image from what the decoder made of a file's bytes, as
    /// [`Graphics2D::create_image_from_file_bytes`] does.
    pub fn create_image_from_file_bytes(
        &mut self,
        smoothing_mode: ImageSmoothingMode,
        decoded: Option<(ImageDataType, UVec2, Vec<u8>)>,
    ) -> (r: Result<ImageHandle, BacktraceError<ImageCreationError>>)
        ensures
            final(self).spec_viewport() == old(self).spec_viewport(),
            r.is_ok() <==> (decoded matches Some(d) && d.2@.len() == byte_length(d.1, d.0)),
            r matches Err(e) ==> final(self).spec_graphics() == old(self).spec_graphics()
                && e.spec_causes().len() == 0 && e.spec_error() == if decoded.is_none() {
                ImageCreationError::DecodingFailed
            } else {
                ImageCreationError::InvalidDataLength
            },
            r matches Ok(h) ==> decoded matches Some(d) ==> {
                &&& h.spec_context() == old(self).spec_graphics().context
                &&& h.spec_index() == old(self).spec_graphics().images.len()
                &&& h.spec_size() == d.1
                &&& h.spec_data_type() == d.0
                &&& h.spec_smoothing_mode() == smoothing_mode
                &&& final(self).spec_graphics() == (GraphicsModel {
                    renderer: old(self).spec_graphics().renderer.create_texture(h, d.2@),
                    images: old(self).spec_graphics().images.push(h),
                    ..old(self).spec_graphics()
                })
            },
    {
        self.renderer.create_image_from_file_bytes(smoothing_mode, decoded)
    }

    /// Whether a frame is open.
    pub fn is_frame_open(&self) -> (open: bool)
        ensures
            open == self.spec_graphics().renderer.frame_open,
    {
        self.renderer.is_frame_open()
    }

    /// Hands over all that was issued since the last call, in the order of
    /// issue.
    pub fn take_commands(&mut self) -> (commands: Vec<GpuCommand<T>>)
        ensures
            command_views(commands@) == old(self).spec_graphics().renderer.issued,
            final(self).spec_viewport() == old(self).spec_viewport(),
            final(self).spec_graphics() == (GraphicsModel {
                renderer: old(self).spec_graphics().renderer.taken(),
                ..old(self).spec_graphics()
            }),
    {
        self.renderer.take_commands()
    }

    /// Opens a frame and lends the surface to draw on. The frame is closed
    /// by [`GLRenderer::finish_frame`].
    pub fn begin_frame(&mut self) -> (graphics: &mut Graphics2D<T>)
        requires
            !old(self).spec_graphics().renderer.frame_open,
        ensures
            graphics@ == (GraphicsModel {
                renderer: old(self).spec_graphics().renderer.begin_frame(),
                clip: None,
                ..old(self).spec_graphics()
            }),
            final(self).spec_graphics() == final(graphics)@,
            final(self).spec_viewport() == old(self).spec_viewport(),
    {
        self.renderer.begin_frame();
        &mut self.renderer
    }

    /// What [`GLRenderer::close_frame`] hands over: where a frame is open,
    /// all that is issued once the frame is closed for the viewport; where
    /// none is, what was issued.
    pub open spec fn frame_commands(graphics: GraphicsModel<T>, viewport: Viewport) -> Seq<
        GpuCommandModel<T>,
    > {
        if graphics.renderer.frame_open {
            graphics.renderer.end_frame(viewport).issued
        } else {
            graphics.renderer.issued
        }
    }

    /// The surface once [`GLRenderer::close_frame`] is done: no frame is
    /// open, no batch is open, and nothing issued is left to hand over.
    pub open spec fn frame_closed(graphics: GraphicsModel<T>, viewport: Viewport) -> GraphicsModel<T> {
        if graphics.renderer.frame_open {
            GraphicsModel { renderer: graphics.renderer.end_frame(viewport).taken(), ..graphics }
        } else {
            graphics.renderer_taken()
        }
    }

    /// The step after drawing. Where the frame is still open it is closed
    /// for the viewport on record; where whoever drew has closed it already,
    /// it stays closed. Either way all that was issued is handed over, in
    /// the order of issue.
    pub fn close_frame(&mut self) -> (commands: Vec<GpuCommand<T>>)
        ensures
            command_views(commands@) == Self::frame_commands(
                old(self).spec_graphics(),
                old(self).spec_viewport(),
            ),
            final(self).spec_graphics() == Self::frame_closed(
                old(self).spec_graphics(),
                old(self).spec_viewport(),
            ),
            final(self).spec_viewport() == old(self).spec_viewport(),
    {
        if self.renderer.is_frame_open() {
            self.finish_frame()
        } else {
            self.take_commands()
        }
    }

    /// Closes the open frame for the viewport on record and hands over all
    /// that was issued, in the order of issue: it ends with the projection
    /// for the viewport and the present.
    pub fn finish_frame(&mut self) -> (commands: Vec<GpuCommand<T>>)
        requires
            old(self).spec_graphics().renderer.frame_open,
        ensures
            command_views(commands@) == old(self).spec_graphics().renderer.end_frame(
                old(self).spec_viewport(),
            ).issued,
            final(self).spec_viewport() == old(self).spec_viewport(),
            final(self).spec_graphics() == (GraphicsModel {
                renderer: old(self).spec_graphics().renderer.end_frame(
                    old(self).spec_viewport(),
                ).taken(),
                ..old(self).spec_graphics()
            }),
    {
        self.renderer.end_frame(self.viewport);
        self.renderer.take_commands()
    }
}

/// A copy of the bytes of a slice.
fn slice_to_vec(data: &[u8]) -> (v: Vec<u8>)
    ensures
        v@ == data@,
{
    let mut v: Vec<u8> = Vec::new();
    let mut i: usize = 0;
    while i < data.len()
        invariant
            i <= data@.len(),
            v@ == data@.subrange(0, i as int),
        decreases data@.len() - i,
    {
        v.push(data[i]);
        assert(v@ =~= data@.subrange(0, i + 1));
        i += 1;
    }
    assert(data@.subrange(0, i as int) =~= data@);
    v
}

} // verus!
