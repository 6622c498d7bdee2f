//! The scene object model: capability traits and the recursive dispatch
//! protocol that walks the node tree each frame.
//!
//! A node's capabilities are what it implements: [`Update`] for per-frame
//! logic, [`Draw`] for a visual representation, [`Obj2d`] for an exposed
//! transform, [`Make`] for construction. The traversal protocol is fixed:
//! an update pass recurses into children first, in declaration order, and
//! then runs the node's own update; a draw pass runs the node's own draw
//! first and then recurses into children in declaration order.

pub mod sprite;

use vstd::prelude::*;
use vstd::assert_seqs_equal;
use crate::game::Game;
use crate::gl::{GraphicsContext, RenderCommandView, viewport_of};
use crate::math::fixed::Fx;
use crate::math::transform::Transform;

verus! {

/// A scene node: something the per-frame passes can dispatch into.
///
/// `update_tags` and `draw_cmds` are the node's observable behavior: the
/// tags its subtree appends to the game's update trace, and the device
/// operations its subtree records, as a function of the viewport
/// transform in effect. The exec methods are held to exactly these.
pub trait Obj: Sized {
    /// The node's internal invariant.
    spec fn wf(&self) -> bool;

    /// The tags this node's subtree appends to the game's update trace,
    /// in order.
    spec fn update_tags(&self) -> Seq<u64>;

    /// The device operations this node's subtree records during a draw
    /// pass, in order, given the viewport transform in effect.
    spec fn draw_cmds(&self, vp: Transform) -> Seq<RenderCommandView>;

    /// Run the update pass over this subtree: children first, in
    /// declaration order, then this node's own update behavior.
    fn update_children(&mut self, game: &mut Game, delta: Fx)
        requires
            old(self).wf(),
            old(game).wf(),
        ensures
            final(self).wf(),
            final(game).wf(),
            final(game).trace@ == old(game).trace@ + old(self).update_tags(),
    ;

    /// Run the draw pass over this subtree: this node's own draw
    /// behavior first, then children in declaration order.
    fn draw_children(&self, ctx: &mut GraphicsContext)
        requires
            self.wf(),
            old(ctx).wf(),
            old(ctx).in_frame,
        ensures
            final(ctx).wf(),
            final(ctx).in_frame,
            final(ctx).log() == old(ctx).log() + self.draw_cmds(
                viewport_of(old(ctx).window_size),
            ),
            final(ctx).window_size == old(ctx).window_size,
            final(ctx).same_handles(*old(ctx)),
    ;
}

/// The capability of having per-frame update logic.
pub trait Update: Obj {
    /// The node's own update behavior.
    fn update(&mut self, game: &mut Game, delta: Fx)
        requires
            old(self).wf(),
            old(game).wf(),
        ensures
            final(self).wf(),
            final(game).wf(),
            final(game).trace@ == old(game).trace@ + old(self).update_tags(),
    ;
}

/// The capability of having a visual representation.
pub trait Draw: Obj {
    /// The node's own draw behavior.
    fn draw(&self, ctx: &mut GraphicsContext)
        requires
            self.wf(),
            old(ctx).wf(),
            old(ctx).in_frame,
        ensures
            final(ctx).wf(),
            final(ctx).in_frame,
            final(ctx).log() == old(ctx).log() + self.draw_cmds(
                viewport_of(old(ctx).window_size),
            ),
            final(ctx).window_size == old(ctx).window_size,
            final(ctx).same_handles(*old(ctx)),
    ;
}

/// The capability of exposing a transform others compose against.
pub trait Obj2d: Obj {
    /// The node's transform.
    spec fn transform_of(&self) -> Transform;

    /// The node's transform, by reference.
    fn transform(&self) -> (r: &Transform)
        ensures
            *r == self.transform_of(),
    ;

    /// Replace the node's transform.
    fn set_transform(&mut self, t: Transform)
        requires
            old(self).wf(),
        ensures
            final(self).wf(),
            final(self).transform_of() == t,
    ;
}

/// The capability of being constructed from a configuration value, with
/// access to the frame driver's shared state.
pub trait Make: Obj {
    /// The configuration the node is built from.
    type Config;

    /// Which configurations the node can be built from in the given
    /// driver state.
    spec fn config_ok(config: &Self::Config, game: &Game) -> bool;

    /// The single construction path.
    fn make(game: &mut Game, config: Self::Config) -> (r: Self)
        requires
            old(game).wf(),
            Self::config_ok(&config, old(game)),
        ensures
            final(game).wf(),
            r.wf(),
    ;
}

/// Construction with a default configuration.
pub trait MakeDefault: Make {
    /// Which driver states the default configuration works in.
    spec fn default_config_ok(game: &Game) -> bool;

    /// Build the node from its default configuration.
    fn make_default(game: &mut Game) -> (r: Self)
        requires
            old(game).wf(),
            Self::default_config_ok(old(game)),
        ensures
            final(game).wf(),
            r.wf(),
    ;
}

/// A tree node: an own behavior and a list of children, walked by the
/// dispatch protocol. The children are declared once, at construction,
/// and the generic traversal here walks them; concrete node types plug
/// in as the `own` payload.
pub struct Node<B> {
    /// The node's own behavior.
    pub own: B,
    /// The owned children, in declaration order.
    pub children: Vec<Node<B>>,
}

/// The update-trace tags of the subtrees in `s` from index `i` on,
/// concatenated in order.
pub open spec fn tags_from<B: Obj>(s: Seq<Node<B>>, i: int) -> Seq<u64>
    decreases s, s.len() - i,
{
    if 0 <= i < s.len() {
        s[i].update_tags() + tags_from(s, i + 1)
    } else {
        Seq::empty()
    }
}

/// The draw operations of the subtrees in `s` from index `i` on,
/// concatenated in order.
pub open spec fn cmds_from<B: Obj>(s: Seq<Node<B>>, i: int, vp: Transform) -> Seq<
    RenderCommandView,
>
    decreases s, s.len() - i,
{
    if 0 <= i < s.len() {
        s[i].draw_cmds(vp) + cmds_from(s, i + 1, vp)
    } else {
        Seq::empty()
    }
}

impl<B: Obj> Obj for Node<B> {
    open spec fn wf(&self) -> bool
        decreases self,
    {
        &&& self.own.wf()
        &&& forall|i: int| #![trigger self.children@[i]]
            0 <= i < self.children@.len() ==> self.children@[i].wf()
    }

    /// Children's tags first, in declaration order, then the own
    /// behavior's tags.
    open spec fn update_tags(&self) -> Seq<u64>
        decreases self,
    {
        tags_from(self.children@, 0) + self.own.update_tags()
    }

    /// The own behavior's operations first, then the children's, in
    /// declaration order.
    open spec fn draw_cmds(&self, vp: Transform) -> Seq<RenderCommandView>
        decreases self,
    {
        self.own.draw_cmds(vp) + cmds_from(self.children@, 0, vp)
    }

    fn update_children(&mut self, game: &mut Game, delta: Fx)
        decreases *old(self),
    {
        let ghost trace0 = game.trace@;
        let mut kids: Vec<Node<B>> = Vec::new();
        core::mem::swap(&mut kids, &mut self.children);
        let ghost kids0 = kids@;
        let mut done: Vec<Node<B>> = Vec::new();
        while kids.len() > 0
            invariant
                game.wf(),
                old(self).wf(),
                self.own == old(self).own,
                kids0 == old(self).children@,
                kids@ =~= kids0.subrange(kids0.len() - kids.len(), kids0.len() as int),
                done@.len() + kids@.len() == kids0.len(),
                forall|i: int| #![trigger done@[i]] 0 <= i < done@.len() ==> done@[i].wf(),
                game.trace@ + tags_from(kids0, done@.len() as int) == trace0 + tags_from(
                    kids0,
                    0,
                ),
            decreases kids@.len(),
        {
            let ghost k = done@.len() as int;
            let mut c = kids.remove(0);
            proof {
                assert(c == kids0[k]);
                assert(old(self).children@[k].wf());
            }
            c.update_children(game, delta);
            done.push(c);
            proof {
                assert(game.trace@ + tags_from(kids0, done@.len() as int) == trace0
                    + tags_from(kids0, 0)) by {
                    assert(tags_from(kids0, k) == kids0[k].update_tags() + tags_from(
                        kids0,
                        k + 1,
                    ));
                    assert_seqs_equal!(
                        game.trace@ + tags_from(kids0, k + 1),
                        trace0 + tags_from(kids0, 0)
                    );
                }
            }
        }
        self.children = done;
        proof {
            assert(tags_from(kids0, kids0.len() as int) =~= Seq::<u64>::empty());
            assert(game.trace@ =~= trace0 + tags_from(kids0, 0));
        }
        self.own.update_children(game, delta);
        proof {
            assert(game.trace@ =~= trace0 + old(self).update_tags());
            assert forall|i: int| #![trigger self.children@[i]]
                0 <= i < self.children@.len() implies self.children@[i].wf() by {
                assert(done@[i].wf());
            }
        }
    }

    fn draw_children(&self, ctx: &mut GraphicsContext)
        decreases *self,
    {
        let ghost log0 = old(ctx).log();
        let ghost vp = viewport_of(old(ctx).window_size);
        self.own.draw_children(ctx);
        let mut i: usize = 0;
        while i < self.children.len()
            invariant
                self.wf(),
                ctx.wf(),
                ctx.in_frame,
                ctx.window_size == old(ctx).window_size,
                ctx.same_handles(*old(ctx)),
                i <= self.children@.len(),
                vp == viewport_of(old(ctx).window_size),
                ctx.log() + cmds_from(self.children@, i as int, vp) == log0
                    + self.draw_cmds(vp),
            decreases self.children@.len() - i,
        {
            let ghost k = i as int;
            proof {
                assert(self.children@[k].wf());
            }
            self.children[i].draw_children(ctx);
            proof {
                assert(ctx.log() + cmds_from(self.children@, k + 1, vp) == log0
                    + self.draw_cmds(vp)) by {
                    assert(cmds_from(self.children@, k, vp) == self.children@[k].draw_cmds(vp)
                        + cmds_from(self.children@, k + 1, vp));
                    assert_seqs_equal!(
                        ctx.log() + cmds_from(self.children@, k + 1, vp),
                        log0 + self.draw_cmds(vp)
                    );
                }
            }
            i = i + 1;
        }
        proof {
            assert(cmds_from(self.children@, self.children@.len() as int, vp) =~= Seq::<
                RenderCommandView,
            >::empty());
            assert(ctx.log() =~= log0 + self.draw_cmds(vp));
        }
    }
}

/// An optional behavior: a node type with no capability of its own.
/// `None` has no observable effect in either pass: it leaves the game,
/// the render context and itself exactly as they were.
impl<B: Obj> Obj for Option<B> {
    open spec fn wf(&self) -> bool {
        match self {
            Some(b) => b.wf(),
            None => true,
        }
    }

    open spec fn update_tags(&self) -> Seq<u64> {
        match self {
            Some(b) => b.update_tags(),
            None => Seq::empty(),
        }
    }

    open spec fn draw_cmds(&self, vp: Transform) -> Seq<RenderCommandView> {
        match self {
            Some(b) => b.draw_cmds(vp),
            None => Seq::empty(),
        }
    }

    fn update_children(&mut self, game: &mut Game, delta: Fx)
        ensures
            (*old(self)) is None ==> *final(self) == *old(self) && *final(game) == *old(game),
    {
        match self {
            Some(b) => b.update_children(game, delta),
            None => {
                proof {
                    assert(game.trace@ =~= old(game).trace@ + Seq::<u64>::empty());
                }
            },
        }
    }

    fn draw_children(&self, ctx: &mut GraphicsContext)
        ensures
            (*self) is None ==> *final(ctx) == *old(ctx),
    {
        match self {
            Some(b) => b.draw_children(ctx),
            None => {
                proof {
                    assert(ctx.log() =~= old(ctx).log() + Seq::<RenderCommandView>::empty());
                }
            },
        }
    }
}

impl<B: Make> Make for Node<B> {
    type Config = B::Config;

    open spec fn config_ok(config: &B::Config, game: &Game) -> bool {
        B::config_ok(config, game)
    }

    /// A leaf node around the behavior the configuration builds;
    /// children are pushed in afterwards, in declaration order.
    fn make(game: &mut Game, config: B::Config) -> (r: Self)
        ensures
            r.children@.len() == 0,
    {
        let own = B::make(game, config);
        let r = Node { own, children: Vec::new() };
        proof {
            assert(r.children@.len() == 0);
        }
        r
    }
}

impl<B: MakeDefault> MakeDefault for Node<B> {
    open spec fn default_config_ok(game: &Game) -> bool {
        B::default_config_ok(game)
    }

    fn make_default(game: &mut Game) -> (r: Self)
        ensures
            r.children@.len() == 0,
    {
        let own = B::make_default(game);
        let r = Node { own, children: Vec::new() };
        proof {
            assert(r.children@.len() == 0);
        }
        r
    }
}

/// Traversal order of a draw pass: a composite node with two children
/// emits exactly its own draw operations, then its first child's
/// subtree, then its second child's subtree.
pub proof fn lemma_draw_order<B: Obj>(n: Node<B>, vp: Transform)
    requires
        n.children@.len() == 2,
    ensures
        n.draw_cmds(vp) == n.own.draw_cmds(vp) + n.children@[0].draw_cmds(vp)
            + n.children@[1].draw_cmds(vp),
{
    assert(cmds_from(n.children@, 2, vp) =~= Seq::<RenderCommandView>::empty());
    assert(cmds_from(n.children@, 1, vp) =~= n.children@[1].draw_cmds(vp));
    assert(n.draw_cmds(vp) =~= n.own.draw_cmds(vp) + n.children@[0].draw_cmds(vp)
        + n.children@[1].draw_cmds(vp));
}

/// Traversal order of an update pass: a composite node with two children
/// notes exactly its first child's subtree tags, then its second
/// child's, then its own update behavior's — children before self.
pub proof fn lemma_update_order<B: Obj>(n: Node<B>)
    requires
        n.children@.len() == 2,
    ensures
        n.update_tags() == n.children@[0].update_tags() + n.children@[1].update_tags()
            + n.own.update_tags(),
{
    assert(tags_from(n.children@, 2) =~= Seq::<u64>::empty());
    assert(tags_from(n.children@, 1) =~= n.children@[1].update_tags());
    assert(n.update_tags() =~= n.children@[0].update_tags() + n.children@[1].update_tags()
        + n.own.update_tags());
}

/// A node whose own behavior has no update capability contributes
/// nothing of its own to an update pass: its subtree's trace is exactly
/// its children's, in order.
pub proof fn lemma_noop_update<B: Obj>(n: Node<B>)
    requires
        n.own.update_tags() == Seq::<u64>::empty(),
    ensures
        n.update_tags() == tags_from(n.children@, 0),
{
    assert(n.update_tags() =~= tags_from(n.children@, 0));
}

/// A node whose only behavior is to note its tag in the game's update
/// trace on every update pass: the traversal order made observable.
pub struct Probe {
    pub tag: u64,
}

impl Obj for Probe {
    open spec fn wf(&self) -> bool {
        true
    }

    open spec fn update_tags(&self) -> Seq<u64> {
        seq![self.tag]
    }

    open spec fn draw_cmds(&self, vp: Transform) -> Seq<RenderCommandView> {
        Seq::empty()
    }

    fn update_children(&mut self, game: &mut Game, delta: Fx) {
        self.update(game, delta);
    }

    fn draw_children(&self, ctx: &mut GraphicsContext) {
        proof {
            assert(ctx.log() =~= old(ctx).log() + Seq::<RenderCommandView>::empty());
        }
    }
}

impl Update for Probe {
    fn update(&mut self, game: &mut Game, delta: Fx) {
        game.note(self.tag);
        proof {
            assert(game.trace@ =~= old(game).trace@ + seq![self.tag]);
        }
    }
}

impl Make for Probe {
    type Config = u64;

    open spec fn config_ok(config: &u64, game: &Game) -> bool {
        true
    }

    /// The probe's tag is the configuration; the driver is untouched.
    fn make(game: &mut Game, config: u64) -> (r: Self)
        ensures
            r.tag == config,
            *final(game) == *old(game),
    {
        Probe { tag: config }
    }
}

impl MakeDefault for Probe {
    open spec fn default_config_ok(game: &Game) -> bool {
        true
    }

    /// The default probe carries tag zero; the driver is untouched.
    fn make_default(game: &mut Game) -> (r: Self)
        ensures
            r.tag == 0,
            *final(game) == *old(game),
    {
        Probe { tag: 0 }
    }
}

} // verus!
