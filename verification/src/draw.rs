//! Turning a sampled scene into an ordered list of drawing commands.
//!
//! This is the pure half of rendering a frame: screen placement, scaling
//! and color compositing are computed here with exact fixed-point
//! contracts, while an external backend executes the commands against a
//! pixel surface.  Coordinates are fixed-point pixels (thousandths);
//! object-space `(0, 0)` maps to the frame center and object-space Y
//! increases upward while screen Y increases downward.

use vstd::prelude::*;

use crate::clip::Clip;
use crate::fixed::{sat_add, sat_add_spec, sat_sub, sat_sub_spec, scale_milli, scale_milli_spec, UNIT};
use crate::object::{Object, Shape};
use crate::timeline::{active_items_spec, ActiveClip, SampledLayer, SampledScene, Timeline};
use crate::transform::{Color, Transform, Vec2};

verus! {

/// The alpha channel after combining a color's intrinsic alpha with the
/// current opacity (thousandths, clamped to `[0, UNIT]`): `a * opacity`,
/// rounded half up.
pub open spec fn composite_alpha_spec(a: int, opacity: int) -> int {
    let c = if opacity < 0 {
        0
    } else if opacity > UNIT as int {
        UNIT as int
    } else {
        opacity
    };
    (a * c + 500) / 1000
}

/// Combines a color's intrinsic alpha with an animated opacity.
pub fn composite_alpha(a: u8, opacity: i64) -> (r: u8)
    ensures
        r as int == composite_alpha_spec(a as int, opacity as int),
        r <= 255,
{
    let c: u64 = if opacity < 0 {
        0
    } else if opacity > UNIT {
        1000
    } else {
        opacity as u64
    };
    proof {
        assert((a as int) * (c as int) <= 255 * 1000) by (nonlinear_arith)
            requires 0 <= a as int <= 255, 0 <= c as int <= 1000;
    }
    (((a as u64) * c + 500) / 1000) as u8
}

/// A color with its alpha multiplied by the current opacity.
pub open spec fn composite_color_spec(col: Color, opacity: int) -> Color {
    Color { r: col.r, g: col.g, b: col.b, a: composite_alpha_spec(col.a as int, opacity) as u8 }
}

/// Applies the current opacity to a color's alpha channel.
pub fn composite_color(col: Color, opacity: i64) -> (r: Color)
    ensures
        r == composite_color_spec(col, opacity as int),
{
    Color { r: col.r, g: col.g, b: col.b, a: composite_alpha(col.a, opacity) }
}

/// The screen-space center (fixed-point pixels) of an object-space
/// position: `(width/2 + x, height/2 - y)`, saturating at the
/// representable range.
pub open spec fn screen_center_spec(width: int, height: int, pos: Vec2) -> Vec2 {
    Vec2 {
        x: sat_add_spec(width * 500, pos.x as int) as i64,
        y: sat_sub_spec(height * 500, pos.y as int) as i64,
    }
}

/// Maps an object-space position to its screen-space center, flipping the
/// vertical axis.
pub fn graph_to_screen(pos: Vec2, width: u32, height: u32) -> (r: Vec2)
    ensures
        r == screen_center_spec(width as int, height as int, pos),
{
    Vec2 {
        x: sat_add((width as i64) * 500, pos.x),
        y: sat_sub((height as i64) * 500, pos.y),
    }
}

/// The destination size of an image texture of `tex_w x tex_h` whole
/// pixels under a non-uniform scale, in fixed-point pixels.
pub fn image_dest_size(tex_w: u32, tex_h: u32, scale: Vec2) -> (r: (i64, i64))
    ensures
        r.0 as int == scale_milli_spec((tex_w as int) * 1000, scale.x as int),
        r.1 as int == scale_milli_spec((tex_h as int) * 1000, scale.y as int),
{
    (scale_milli((tex_w as i64) * 1000, scale.x), scale_milli((tex_h as i64) * 1000, scale.y))
}

/// One drawing operation for the backend, in back-to-front order.
/// Coordinates and sizes are fixed-point pixels, rotations millidegrees.
#[derive(Clone, Debug, PartialEq)]
pub enum DrawCmd {
    /// Clear the whole surface to a color.
    Clear { color: Color },
    /// A filled circle.
    Circle { center: Vec2, radius: i64, color: Color },
    /// A filled rectangle, rotated about its center.
    Rect { center: Vec2, width: i64, height: i64, rotation: i64, color: Color },
    /// A cached image texture, scaled and rotated about its center and
    /// tinted for opacity.
    Image { path: String, center: Vec2, scale: Vec2, rotation: i64, tint: Color },
    /// A text block drawn at a center position.
    Text { text: String, center: Vec2, size: i64, color: Color },
}

/// The drawing command for one object under one pose.
pub open spec fn object_cmd_spec(obj: Object, tr: Transform, w: int, h: int) -> DrawCmd {
    let center = screen_center_spec(w, h, tr.pos);
    match obj {
        Object::Shape(s) => match s {
            Shape::Circle { radius, color } => DrawCmd::Circle {
                center,
                radius: scale_milli_spec(
                    radius as int,
                    if tr.scale.x < 0 {
                        0
                    } else {
                        tr.scale.x as int
                    },
                ) as i64,
                color: composite_color_spec(color, tr.opacity as int),
            },
            Shape::Rect { width, height, color } => DrawCmd::Rect {
                center,
                width: scale_milli_spec(width as int, tr.scale.x as int) as i64,
                height: scale_milli_spec(height as int, tr.scale.y as int) as i64,
                rotation: tr.rotation,
                color: composite_color_spec(color, tr.opacity as int),
            },
        },
        Object::Image(img) => DrawCmd::Image {
            path: img.path,
            center,
            scale: tr.scale,
            rotation: tr.rotation,
            tint: composite_color_spec(
                Color { r: 255, g: 255, b: 255, a: 255 },
                tr.opacity as int,
            ),
        },
        Object::Text(tb) => DrawCmd::Text {
            text: tb.text,
            center,
            size: tb.size,
            color: composite_color_spec(tb.color, tr.opacity as int),
        },
    }
}

/// Builds the drawing command for one object under one pose: circles take
/// the non-negative horizontal scale, rectangles scale per axis, images
/// are tinted white with the composited alpha.
pub fn object_cmd(obj: &Object, tr: &Transform, width: u32, height: u32) -> (r: DrawCmd)
    ensures
        r == object_cmd_spec(*obj, *tr, width as int, height as int),
{
    let center = graph_to_screen(tr.pos, width, height);
    match obj {
        Object::Shape(s) => match s {
            Shape::Circle { radius, color } => DrawCmd::Circle {
                center,
                radius: scale_milli(
                    *radius,
                    if tr.scale.x < 0 {
                        0
                    } else {
                        tr.scale.x
                    },
                ),
                color: composite_color(*color, tr.opacity),
            },
            Shape::Rect { width: rw, height: rh, color } => DrawCmd::Rect {
                center,
                width: scale_milli(*rw, tr.scale.x),
                height: scale_milli(*rh, tr.scale.y),
                rotation: tr.rotation,
                color: composite_color(*color, tr.opacity),
            },
        },
        Object::Image(img) => DrawCmd::Image {
            path: img.path.clone(),
            center,
            scale: tr.scale,
            rotation: tr.rotation,
            tint: composite_color(Color { r: 255, g: 255, b: 255, a: 255 }, tr.opacity),
        },
        Object::Text(tb) => DrawCmd::Text {
            text: tb.text.clone(),
            center,
            size: tb.size,
            color: composite_color(tb.color, tr.opacity),
        },
    }
}

/// Every sampled item indexes a clip of its layer.
pub open spec fn scene_indices_ok(tl: Timeline, scene: SampledScene) -> bool {
    scene.layers@.len() == tl.layers@.len() && forall|l: int, k: int|
        0 <= l < scene.layers@.len() && 0 <= k < scene.layers@[l].items@.len()
            ==> (#[trigger] scene.layers@[l].items@[k]).clip_index < tl.layers@[l].clips@.len()
}

/// A scene sampled from a well-formed timeline always indexes its own
/// clips.
pub proof fn lemma_scene_indices_ok(tl: Timeline, scene: SampledScene, t: int)
    requires
        tl.wf(),
        0 <= t <= i64::MAX as int,
        crate::timeline::scene_matches(tl, scene, t),
    ensures
        scene_indices_ok(tl, scene),
{
    assert forall|l: int, k: int|
        0 <= l < scene.layers@.len() && 0 <= k < scene.layers@[l].items@.len() implies (
    #[trigger] scene.layers@[l].items@[k]).clip_index < tl.layers@[l].clips@.len() by {
        let clips = tl.layers@[l].clips@;
        assert(tl.layers@[l].clips.len() == clips.len());
        assert(forall|i: int| 0 <= i < clips.len() ==> 0 <= (#[trigger] clips[i]).start) by {
            assert(forall|i: int|
                0 <= i < clips.len() ==> (#[trigger] tl.layers@[l].clips@[i]).wf(
                    tl.duration_ms as int,
                ));
        }
        crate::timeline::lemma_active_items_sound(clips, t, k);
    }
}

/// The commands of one layer: one per active item, in order.
pub open spec fn layer_cmds_spec(
    clips: Seq<Clip>,
    items: Seq<ActiveClip>,
    w: int,
    h: int,
) -> Seq<DrawCmd>
    decreases items.len(),
{
    if items.len() == 0 {
        Seq::empty()
    } else {
        layer_cmds_spec(clips, items.drop_last(), w, h).push(
            object_cmd_spec(
                clips[items.last().clip_index as int].object,
                items.last().transform,
                w,
                h,
            ),
        )
    }
}

/// The commands of the first `n` layers, concatenated in layer order.
pub open spec fn scene_cmds_upto(
    layers: Seq<crate::timeline::Layer>,
    slayers: Seq<SampledLayer>,
    w: int,
    h: int,
    n: int,
) -> Seq<DrawCmd>
    decreases n,
{
    if n <= 0 {
        Seq::empty()
    } else {
        scene_cmds_upto(layers, slayers, w, h, n - 1) + layer_cmds_spec(
            layers[n - 1].clips@,
            slayers[n - 1].items@,
            w,
            h,
        )
    }
}

/// The full command list for a frame: a clear to the background color,
/// then every layer's active clips in draw order.
pub open spec fn frame_cmds_spec(tl: Timeline, scene: SampledScene, w: int, h: int, bg: Color)
    -> Seq<DrawCmd> {
    seq![DrawCmd::Clear { color: bg }] + scene_cmds_upto(
        tl.layers@,
        scene.layers@,
        w,
        h,
        scene.layers@.len() as int,
    )
}

/// Plans a whole frame: a clear to the background color, then one command
/// per active clip of every layer, preserving draw order.
pub fn plan_frame(tl: &Timeline, scene: &SampledScene, width: u32, height: u32, bg: Color) -> (r:
    Vec<DrawCmd>)
    requires
        scene_indices_ok(*tl, *scene),
    ensures
        r@ == frame_cmds_spec(*tl, *scene, width as int, height as int, bg),
{
    let mut out: Vec<DrawCmd> = Vec::new();
    out.push(DrawCmd::Clear { color: bg });
    let mut l: usize = 0;
    while l < scene.layers.len()
        invariant
            0 <= l <= scene.layers@.len(),
            scene_indices_ok(*tl, *scene),
            out@ == seq![DrawCmd::Clear { color: bg }] + scene_cmds_upto(
                tl.layers@,
                scene.layers@,
                width as int,
                height as int,
                l as int,
            ),
        decreases scene.layers@.len() - l,
    {
        let items = &scene.layers[l].items;
        let clips = &tl.layers[l].clips;
        let mut k: usize = 0;
        proof {
            assert(items@.take(0) =~= Seq::<ActiveClip>::empty());
        }
        while k < items.len()
            invariant
                0 <= k <= items@.len(),
                scene_indices_ok(*tl, *scene),
                0 <= l < scene.layers@.len(),
                items@ == scene.layers@[l as int].items@,
                clips@ == tl.layers@[l as int].clips@,
                out@ == seq![DrawCmd::Clear { color: bg }] + scene_cmds_upto(
                    tl.layers@,
                    scene.layers@,
                    width as int,
                    height as int,
                    l as int,
                ) + layer_cmds_spec(clips@, items@.take(k as int), width as int, height as int),
            decreases items@.len() - k,
        {
            let item = &items[k];
            let cmd = object_cmd(&clips[item.clip_index].object, &item.transform, width, height);
            out.push(cmd);
            proof {
                assert(items@.take(k as int + 1).drop_last() =~= items@.take(k as int));
                assert(items@.take(k as int + 1).last() == items@[k as int]);
            }
            k += 1;
        }
        proof {
            assert(items@.take(items@.len() as int) =~= items@);
        }
        l += 1;
    }
    out
}

} // verus!
