//! A sprite: a textured quad drawn through the node's own transform and
//! the viewport transform.

use vstd::prelude::*;
use std::sync::Arc;
use crate::game::Game;
use crate::game::assets::{AssetError, AssetErrorKind, lemma_cache_idempotent};
use crate::game::assets::texture::{
    Texture, decode_ok, decode_width, decode_height, decode_pixels,
};
use crate::gl::{
    Bindings, BufferId, GraphicsContext, RenderCommandView, TextureId, bump, viewport_of,
};
use crate::gl::vertex::Vertex;
use crate::math::fixed::{Fx, fx_of, FX_SCALE};
use crate::math::point::Pt2;
use crate::math::transform::{Transform, transform_apply, transform_identity};
use crate::obj::{Obj, Obj2d, Draw, Make};

verus! {

/// A drawable node showing a texture at its own transform.
pub struct Sprite {
    /// The sprite's transform; vertices pass through it before the
    /// viewport transform, in that order.
    pub transform: Transform,
    /// The shared texture drawn.
    pub texture: Arc<Texture>,
    /// The draw resources: one streamed vertex buffer, the shared quad
    /// index buffer and the texture handle.
    pub bindings: Bindings,
}

/// Configuration for a sprite: the texture's path and the raw bytes read
/// from it.
pub struct SpriteConf {
    pub texture_path: &'static str,
    pub data: Vec<u8>,
}

/// Where a corner of the sprite's quad lands: through the sprite's own
/// transform first, then the viewport transform.
pub open spec fn sprite_corner(s: Sprite, vp: Transform, p: Pt2) -> Pt2 {
    transform_apply(vp, transform_apply(s.transform, p))
}

/// The four vertices of the sprite's quad, in order: top left, top
/// right, bottom right, bottom left of the texture, with texture
/// coordinates covering it once.
pub open spec fn sprite_quad(s: Sprite, vp: Transform) -> Seq<Vertex> {
    let w = fx_of((*s.texture).image.width * (FX_SCALE as int));
    let h = fx_of((*s.texture).image.height * (FX_SCALE as int));
    let o = Fx { raw: 0 };
    let l = Fx { raw: FX_SCALE };
    seq![
        Vertex { pos: sprite_corner(s, vp, Pt2 { x: o, y: o }), uv: Pt2 { x: o, y: o } },
        Vertex { pos: sprite_corner(s, vp, Pt2 { x: w, y: o }), uv: Pt2 { x: l, y: o } },
        Vertex { pos: sprite_corner(s, vp, Pt2 { x: w, y: h }), uv: Pt2 { x: l, y: l } },
        Vertex { pos: sprite_corner(s, vp, Pt2 { x: o, y: h }), uv: Pt2 { x: o, y: l } },
    ]
}

impl Sprite {
    /// The configuration for a sprite over the texture at `path`, whose
    /// bytes the caller has read.
    pub fn cfg_from_texture(path: &'static str, data: Vec<u8>) -> (r: SpriteConf)
        ensures
            r.texture_path == path,
            r.data == data,
    {
        SpriteConf { texture_path: path, data }
    }
}

impl Obj for Sprite {
    /// The bindings hold exactly the sprite's one vertex buffer.
    open spec fn wf(&self) -> bool {
        self.bindings.vertex_buffers@.len() == 1
    }

    open spec fn update_tags(&self) -> Seq<u64> {
        Seq::empty()
    }

    /// Refresh the quad's vertex buffer, then one indexed draw call.
    open spec fn draw_cmds(&self, vp: Transform) -> Seq<RenderCommandView> {
        seq![
            RenderCommandView::UpdateVertexBuffer {
                buffer: self.bindings.vertex_buffers@[0],
                vertices: sprite_quad(*self, vp),
            },
            RenderCommandView::DrawIndexed { bindings: self.bindings@, num_indices: 6 },
        ]
    }

    /// A sprite has no update behavior and no children: an update pass
    /// leaves the sprite and every part of the game state exactly as
    /// they were.
    fn update_children(&mut self, game: &mut Game, delta: Fx)
        ensures
            *final(self) == *old(self),
            *final(game) == *old(game),
    {
        proof {
            assert(game.trace@ =~= old(game).trace@ + Seq::<u64>::empty());
        }
    }

    fn draw_children(&self, ctx: &mut GraphicsContext) {
        self.draw(ctx);
    }
}

impl Draw for Sprite {
    fn draw(&self, ctx: &mut GraphicsContext) {
        let ghost vp_spec = viewport_of(old(ctx).window_size);
        let vp = ctx.viewport_transform();
        let w = Fx::from_int(self.texture.image.width as i64);
        let h = Fx::from_int(self.texture.image.height as i64);
        let o = Fx::zero();
        let l = Fx::one();
        let p0 = Pt2::new(o, o).apply(&self.transform).apply(&vp);
        let p1 = Pt2::new(w, o).apply(&self.transform).apply(&vp);
        let p2 = Pt2::new(w, h).apply(&self.transform).apply(&vp);
        let p3 = Pt2::new(o, h).apply(&self.transform).apply(&vp);
        let mut vertices: Vec<Vertex> = Vec::new();
        vertices.push(Vertex::new(p0, Pt2::new(o, o)));
        vertices.push(Vertex::new(p1, Pt2::new(l, o)));
        vertices.push(Vertex::new(p2, Pt2::new(l, l)));
        vertices.push(Vertex::new(p3, Pt2::new(o, l)));
        proof {
            assert(vertices@ =~= sprite_quad(*self, vp_spec));
        }
        let buffer = self.bindings.vertex_buffers[0];
        ctx.update_buffer(buffer, vertices);
        ctx.draw(&self.bindings, 6);
        proof {
            assert(ctx.log() =~= old(ctx).log() + self.draw_cmds(vp_spec));
        }
    }
}

impl Obj2d for Sprite {
    open spec fn transform_of(&self) -> Transform {
        self.transform
    }

    fn transform(&self) -> (r: &Transform) {
        &self.transform
    }

    fn set_transform(&mut self, t: Transform) {
        self.transform = t;
    }
}

impl Make for Sprite {
    type Config = SpriteConf;

    /// A sprite can be built when its texture bytes decode, or when the
    /// texture is already stored for its path.
    open spec fn config_ok(config: &SpriteConf, game: &Game) -> bool {
        decode_ok(config.data@) || game.assets.textures.has_path(config.texture_path@)
    }

    /// Load (or reuse) the texture stored for the configured path, then
    /// create the sprite's own vertex buffer, recording exactly the
    /// texture upload (first load only) and the buffer creation. The
    /// sprite starts at the identity transform and binds the shared quad
    /// index buffer, its fresh vertex buffer and the stored texture.
    fn make(game: &mut Game, config: SpriteConf) -> (r: Self)
        ensures
            r.transform == transform_identity(),
            r.bindings.vertex_buffers@ =~= seq![BufferId(old(game).gl.next_buffer)],
            r.bindings.index_buffer == old(game).gl.indices_square,
            r.bindings.images@ =~= seq![r.texture.gl_texture],
            final(game).assets.textures.has_path(config.texture_path@),
            r.texture == final(game).assets.textures.stored()[
                final(game).assets.textures.index_of(config.texture_path@)],
            final(game).gl.next_buffer == bump(old(game).gl.next_buffer),
            old(game).assets.textures.has_path(config.texture_path@) ==> {
                &&& final(game).assets.textures == old(game).assets.textures
                &&& final(game).gl.log() =~= old(game).gl.log().push(
                    RenderCommandView::CreateVertexBuffer {
                        buffer: BufferId(old(game).gl.next_buffer),
                        size: 4,
                    },
                )
            },
            !old(game).assets.textures.has_path(config.texture_path@) ==> {
                &&& r.texture.gl_texture == TextureId(old(game).gl.next_texture)
                &&& final(game).gl.log() =~= old(game).gl.log().push(
                    RenderCommandView::CreateTexture {
                        texture: TextureId(old(game).gl.next_texture),
                        width: decode_width(config.data@),
                        height: decode_height(config.data@),
                        bytes: decode_pixels(config.data@),
                    },
                ).push(
                    RenderCommandView::CreateVertexBuffer {
                        buffer: BufferId(old(game).gl.next_buffer),
                        size: 4,
                    },
                )
            },
            final(game).assets.images == old(game).assets.images,
            final(game).input == old(game).input,
            final(game).trace == old(game).trace,
            final(game).clear_color == old(game).clear_color,
            final(game).window_size == old(game).window_size,
            final(game).gl.window_size == old(game).gl.window_size,
            final(game).gl.in_frame == old(game).gl.in_frame,
    {
        let ghost cache0 = old(game).assets.textures;
        let texture: Arc<Texture> = match game.load_gl_asset(config.texture_path, &config.data) {
            Ok(t) => t,
            Err(_) => vstd::pervasive::unreached(),
        };
        proof {
            if !cache0.has_path(config.texture_path@) {
                lemma_cache_idempotent(
                    cache0,
                    game.assets.textures,
                    config.texture_path@,
                    texture,
                );
            }
        }
        let vb = game.gl.create_vertex_buffer(4);
        let index_buffer = game.gl.indices_square();
        let gl_texture = texture.gl_texture;
        let bindings = Bindings {
            index_buffer,
            vertex_buffers: vec![vb],
            images: vec![gl_texture],
        };
        Sprite { transform: Transform::identity(), bindings, texture }
    }
}

impl Sprite {
    /// Build a sprite if its configuration can work: load the texture
    /// and test the outcome, then construct. Succeeds exactly when the
    /// bytes decode or the texture is already stored for the path; on
    /// failure the driver state is left untouched and the decode error
    /// comes back.
    pub fn try_make(game: &mut Game, config: SpriteConf) -> (r: Result<Sprite, AssetError>)
        requires
            old(game).wf(),
        ensures
            final(game).wf(),
            r is Ok <==> (decode_ok(config.data@) || old(game).assets.textures.has_path(
                config.texture_path@,
            )),
            r matches Ok(s) ==> {
                &&& s.wf()
                &&& s.transform == transform_identity()
                &&& s.bindings.vertex_buffers@ =~= seq![BufferId(old(game).gl.next_buffer)]
                &&& s.bindings.index_buffer == old(game).gl.indices_square
                &&& s.bindings.images@ =~= seq![s.texture.gl_texture]
                &&& final(game).assets.textures.has_path(config.texture_path@)
                &&& s.texture == final(game).assets.textures.stored()[
                    final(game).assets.textures.index_of(config.texture_path@)]
                &&& final(game).gl.next_buffer == bump(old(game).gl.next_buffer)
            },
            r matches Err(e) ==> {
                &&& e.kind == AssetErrorKind::Decode
                &&& e.path@ == config.texture_path@
                &&& *final(game) == *old(game)
            },
    {
        match game.load_gl_asset(config.texture_path, &config.data) {
            Ok(_) => Ok(Self::make(game, config)),
            Err(e) => {
                proof {
                    assert(game.assets == old(game).assets);
                    assert(*game == *old(game));
                }
                Err(e)
            },
        }
    }
}

} // verus!
