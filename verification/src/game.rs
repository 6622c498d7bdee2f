//! The frame driver: owns the render context, the asset store and the
//! input state, and turns host events into update and draw passes over
//! the scene.

pub mod assets;
pub mod input;

use vstd::prelude::*;
use std::sync::Arc;
use crate::game::assets::{AssetCache, Assets, AssetError, Asset, GlAsset};
use crate::game::assets::texture::{Image, Texture};
use crate::game::input::Input;
use crate::gl::{GraphicsContext, RenderCommandView, viewport_of};
use crate::math::color::Color;
use crate::math::fixed::Fx;
use crate::math::point::{Pt2, Pt2i, pt2i};
use crate::obj::Obj;

verus! {

/// The frame driver's shared state: what scene nodes may read and write
/// during a pass.
pub struct Game {
    /// The color each frame is cleared to.
    pub clear_color: Color,
    /// The window size, in the library's fixed-point precision.
    pub window_size: Pt2,
    /// The render context.
    pub gl: GraphicsContext,
    /// The asset store.
    pub assets: Assets,
    /// The input state.
    pub input: Input,
    /// The update trace of the running frame: the tags nodes noted, in
    /// the order their update hooks ran.
    pub trace: Vec<u64>,
}

/// Collected options for starting a game: clear color, window size and
/// window title.
pub struct GameBuilder {
    pub clear_color: Color,
    pub window_size: Pt2i,
    pub window_title: Option<String>,
}

impl Game {
    /// A builder with the default options: black clear color, an
    /// 800-by-600 window and no title.
    pub fn new() -> (r: GameBuilder)
        ensures
            r.clear_color == crate::math::color::hex_rgb_color(0),
            r.window_size == (Pt2i { x: 800, y: 600 }),
            r.window_title is None,
    {
        GameBuilder {
            clear_color: Color::black(),
            window_title: None,
            window_size: pt2i(800, 600),
        }
    }

    /// All owned state is well formed.
    pub open spec fn wf(self) -> bool {
        &&& self.gl.wf()
        &&& self.assets.wf()
        &&& self.input.wf()
    }

    /// The window size.
    pub fn window_size(&self) -> (r: Pt2)
        ensures
            r == self.window_size,
    {
        self.window_size
    }

    /// Append a tag to the running frame's update trace. Update hooks
    /// call this to make their position in the traversal observable.
    pub fn note(&mut self, tag: u64)
        ensures
            final(self).trace@ == old(self).trace@.push(tag),
            final(self).clear_color == old(self).clear_color,
            final(self).window_size == old(self).window_size,
            final(self).gl == old(self).gl,
            final(self).assets == old(self).assets,
            final(self).input == old(self).input,
    {
        self.trace.push(tag);
    }

    /// The memoized image asset for a path, decoding the given bytes on
    /// the first request. The texture table is never touched.
    pub fn load_asset(&mut self, path: &str, data: &Vec<u8>) -> (r: Result<Arc<Image>, AssetError>)
        requires
            old(self).wf(),
        ensures
            final(self).wf(),
            final(self).assets.textures == old(self).assets.textures,
            final(self).gl == old(self).gl,
            final(self).input == old(self).input,
            final(self).trace == old(self).trace,
            final(self).clear_color == old(self).clear_color,
            final(self).window_size == old(self).window_size,
            old(self).assets.images.has_path(path@) ==> {
                &&& final(self).assets.images == old(self).assets.images
                &&& r matches Ok(a) && a == old(self).assets.images.stored()[
                    old(self).assets.images.index_of(path@)]
            },
            !old(self).assets.images.has_path(path@) ==> {
                if Image::decodes(data@) {
                    &&& r matches Ok(a) && Image::decoded_as(data@, *a)
                        && final(self).assets.images.stored() =~= old(
                            self,
                        ).assets.images.stored().push(a)
                    &&& final(self).assets.images.paths() =~= old(
                        self,
                    ).assets.images.paths().push(path@)
                } else {
                    &&& final(self).assets.images == old(self).assets.images
                    &&& r matches Err(e) && e.kind
                        == crate::game::assets::AssetErrorKind::Decode && e.path@ == path@
                }
            },
    {
        self.assets.images.load(path, data)
    }

    /// The memoized GPU texture asset for a path, decoding and uploading
    /// the given bytes on the first request. The image table is never
    /// touched, and nothing is uploaded again for a path already stored.
    pub fn load_gl_asset(&mut self, path: &str, data: &Vec<u8>) -> (r:
        Result<Arc<Texture>, AssetError>)
        requires
            old(self).wf(),
        ensures
            final(self).wf(),
            final(self).assets.images == old(self).assets.images,
            final(self).input == old(self).input,
            final(self).trace == old(self).trace,
            final(self).clear_color == old(self).clear_color,
            final(self).window_size == old(self).window_size,
            final(self).gl.window_size == old(self).gl.window_size,
            final(self).gl.viewport_size == old(self).gl.viewport_size,
            final(self).gl.viewport == old(self).gl.viewport,
            final(self).gl.in_frame == old(self).gl.in_frame,
            final(self).gl.next_buffer == old(self).gl.next_buffer,
            final(self).gl.next_shader == old(self).gl.next_shader,
            final(self).gl.default_shader == old(self).gl.default_shader,
            final(self).gl.indices_square == old(self).gl.indices_square,
            !old(self).assets.textures.has_path(path@) && Texture::decodes(data@)
                ==> final(self).assets.textures.has_path(path@),
            old(self).assets.textures.has_path(path@)
                ==> final(self).assets.textures.has_path(path@),
            old(self).assets.textures.has_path(path@) ==> {
                &&& final(self).assets.textures == old(self).assets.textures
                &&& final(self).gl == old(self).gl
                &&& r matches Ok(a) && a == old(self).assets.textures.stored()[
                    old(self).assets.textures.index_of(path@)]
            },
            !old(self).assets.textures.has_path(path@) ==> {
                if Texture::decodes(data@) {
                    &&& r matches Ok(a) && {
                        &&& Texture::decoded_as(data@, *a, old(self).gl, final(self).gl)
                        &&& (*a).image.width == crate::game::assets::texture::decode_width(
                            data@,
                        )
                        &&& (*a).image.height == crate::game::assets::texture::decode_height(
                            data@,
                        )
                        &&& (*a).image.bytes@ == crate::game::assets::texture::decode_pixels(
                            data@,
                        )
                        &&& final(self).assets.textures.stored() =~= old(
                            self,
                        ).assets.textures.stored().push(a)
                    }
                    &&& final(self).assets.textures.paths() =~= old(
                        self,
                    ).assets.textures.paths().push(path@)
                } else {
                    &&& final(self).assets.textures == old(self).assets.textures
                    &&& final(self).gl == old(self).gl
                    &&& r matches Err(e) && e.kind
                        == crate::game::assets::AssetErrorKind::Decode && e.path@ == path@
                }
            },
    {
        let (assets, gl) = (&mut self.assets, &mut self.gl);
        let r = assets.textures.load_gl(path, data, gl);
        proof {
            if !old(self).assets.textures.has_path(path@) && Texture::decodes(data@) {
                let n = old(self).assets.textures.paths().len() as int;
                assert(self.assets.textures.paths()[n] == path@);
            }
        }
        r
    }

    /// Run one update pass: dispatch into the scene root, which recurses
    /// through the tree, children before each node's own update. The
    /// update trace afterwards holds exactly the tags the scene noted,
    /// in traversal order.
    pub fn update<S: Obj>(&mut self, scene: &mut S, delta: Fx)
        requires
            old(self).wf(),
            old(scene).wf(),
        ensures
            final(self).wf(),
            final(scene).wf(),
            final(self).trace@ == old(scene).update_tags(),
    {
        self.trace.clear();
        scene.update_children(self, delta);
        proof {
            assert(self.trace@ =~= old(scene).update_tags());
        }
    }

    /// Run one draw pass: start a render pass clearing to the clear
    /// color, dispatch into the scene root — each node's own draw before
    /// its children — and submit the frame. The recorded operations are
    /// exactly the frame bracket around the scene's draws.
    pub fn draw<S: Obj>(&mut self, scene: &S)
        requires
            old(self).wf(),
            scene.wf(),
            !old(self).gl.in_frame,
        ensures
            final(self).wf(),
            !final(self).gl.in_frame,
            final(self).gl.log() == old(self).gl.log() + seq![
                RenderCommandView::BeginFrame { color: old(self).clear_color },
            ] + scene.draw_cmds(viewport_of(old(self).gl.window_size)) + seq![
                RenderCommandView::EndFrame,
            ],
            final(self).gl.window_size == old(self).gl.window_size,
            final(self).gl.same_handles(old(self).gl),
            final(self).assets == old(self).assets,
            final(self).input == old(self).input,
            final(self).trace == old(self).trace,
            final(self).clear_color == old(self).clear_color,
            final(self).window_size == old(self).window_size,
    {
        let ghost vp = viewport_of(old(self).gl.window_size);
        self.gl.start_frame(self.clear_color);
        scene.draw_children(&mut self.gl);
        self.gl.finish();
        proof {
            assert(self.gl.log() =~= old(self).gl.log() + seq![
                RenderCommandView::BeginFrame { color: old(self).clear_color },
            ] + scene.draw_cmds(vp) + seq![RenderCommandView::EndFrame]);
        }
    }

    /// Record a window resize reported by the host.
    pub fn resize_event(&mut self, width: i32, height: i32)
        requires
            old(self).wf(),
            width > 0,
            height > 0,
        ensures
            final(self).wf(),
            final(self).window_size == Pt2::from_pt2i(Pt2i { x: width, y: height }),
            final(self).gl.window_size == (Pt2i { x: width, y: height }),
            final(self).gl.commands == old(self).gl.commands,
            final(self).gl.in_frame == old(self).gl.in_frame,
            final(self).assets == old(self).assets,
            final(self).input == old(self).input,
            final(self).trace == old(self).trace,
            final(self).clear_color == old(self).clear_color,
    {
        let size = pt2i(width, height);
        self.window_size = Pt2::from_pt2i(size);
        self.gl.set_window_size(size);
    }

    /// Record a key press reported by the host; repeats are ignored.
    pub fn key_down_event(&mut self, key: u32, repeat: bool)
        requires
            old(self).wf(),
        ensures
            final(self).wf(),
            final(self).gl == old(self).gl,
            final(self).assets == old(self).assets,
            final(self).trace == old(self).trace,
            final(self).clear_color == old(self).clear_color,
            final(self).window_size == old(self).window_size,
            !repeat ==> forall|k: u32|
                final(self).input.key_down(k) == (old(self).input.key_down(k) || k == key),
            repeat ==> final(self).input == old(self).input,
            forall|b: u32| final(self).input.mouse_down(b) == old(self).input.mouse_down(b),
    {
        if !repeat {
            self.input.set_key_down(key)
        }
    }

    /// Record a key release reported by the host.
    pub fn key_up_event(&mut self, key: u32)
        requires
            old(self).wf(),
        ensures
            final(self).wf(),
            final(self).gl == old(self).gl,
            final(self).assets == old(self).assets,
            final(self).trace == old(self).trace,
            final(self).clear_color == old(self).clear_color,
            final(self).window_size == old(self).window_size,
            forall|k: u32| final(self).input.key_down(k) == (old(self).input.key_down(k) && k != key),
            forall|b: u32| final(self).input.mouse_down(b) == old(self).input.mouse_down(b),
    {
        self.input.set_key_up(key)
    }
}

impl GameBuilder {
    /// This builder with the clear color replaced.
    pub fn clear_color(self, color: Color) -> (r: Self)
        ensures
            r.clear_color == color,
            r.window_size == self.window_size,
            r.window_title == self.window_title,
    {
        GameBuilder { clear_color: color, ..self }
    }

    /// This builder with the initial window size replaced.
    pub fn window_size(self, size: Pt2i) -> (r: Self)
        ensures
            r.window_size == size,
            r.clear_color == self.clear_color,
            r.window_title == self.window_title,
    {
        GameBuilder { window_size: size, ..self }
    }

    /// This builder with the window title replaced.
    pub fn window_title(self, title: String) -> (r: Self)
        ensures
            r.window_title matches Some(t) && t@ == title@,
            r.clear_color == self.clear_color,
            r.window_size == self.window_size,
    {
        GameBuilder { window_title: Some(title), ..self }
    }

    /// The initial driver state for these options: a fresh render
    /// context, empty asset store, empty input state and empty trace.
    pub fn build(&self) -> (r: Game)
        requires
            self.window_size.x > 0,
            self.window_size.y > 0,
        ensures
            r.wf(),
            r.clear_color == self.clear_color,
            r.window_size == Pt2::from_pt2i(self.window_size),
            r.gl.window_size == self.window_size,
            !r.gl.in_frame,
            r.assets.images.paths() =~= Seq::<Seq<char>>::empty(),
            r.assets.textures.paths() =~= Seq::<Seq<char>>::empty(),
            r.trace@ =~= Seq::<u64>::empty(),
            forall|k: u32| !r.input.key_down(k),
            forall|b: u32| !r.input.mouse_down(b),
    {
        Game {
            clear_color: self.clear_color,
            window_size: Pt2::from_pt2i(self.window_size),
            gl: GraphicsContext::new(self.window_size),
            assets: Assets::new(),
            input: Input::new(),
            trace: Vec::new(),
        }
    }
}

} // verus!
