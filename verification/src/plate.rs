use vstd::prelude::*;
use vstd::string::StringExecFns;

use crate::anchoring::{anchor_for, apply_edges, margin_for, EdgeSettings};
use crate::builder::Builder;
use crate::config::{AppHandle, Edge, EdgeAnchor, EdgeMargin, Layer};
use crate::tags::{resolve, spec_resolve, tag_defined, BuildError, ResolvedWidget, Tag};

verus! {

/// A transient single-widget surface — a greeter or a toast — optionally
/// pinned to an edge, that dismisses itself once its duration has elapsed.
pub struct Plate {
    pub app: AppHandle,
    pub title: String,
    pub tag: Tag,
    pub margins: Vec<EdgeMargin>,
    pub anchors: Vec<EdgeAnchor>,
    pub duration: u64,
}

/// Everything the embedder must do to realize a plate: create a surface for
/// `app` with `title` and `child` as the sole content, undecorated and not
/// resizable, place it as `placement` directs, present it, and schedule a
/// one-shot dismissal timer for `timer_seconds` seconds on the same loop.
#[derive(Debug)]
pub struct PlatePlan {
    pub app: AppHandle,
    pub title: String,
    pub child: ResolvedWidget,
    pub margins: Vec<EdgeMargin>,
    pub anchors: Vec<EdgeAnchor>,
    pub layer: Layer,
    pub decorated: bool,
    pub resizable: bool,
    pub timer_seconds: u64,
}

/// How a plate is placed. Where the host supports the compositor-layer
/// protocol the surface goes on a layer with the configured per-edge state;
/// where it does not, placement silently falls back to the host's default
/// window management and no margin or anchor is applied.
#[derive(Clone, Copy, Debug)]
pub enum Placement {
    Layered { layer: Layer, settings: EdgeSettings },
    HostDefault,
}

impl Plate {
    /// A fully configured plate; configuration is fixed from here on and is
    /// consumed by the one `build`.
    pub fn new(
        app: AppHandle,
        title: &str,
        tag: Tag,
        margins: Vec<EdgeMargin>,
        anchors: Vec<EdgeAnchor>,
        duration: u64,
    ) -> (r: Plate)
        ensures
            r.app == app,
            r.title@ == title@,
            r.tag == tag,
            r.margins@ == margins@,
            r.anchors@ == anchors@,
            r.duration == duration,
    {
        Plate { app, title: String::from_str(title), tag, margins, anchors, duration }
    }
}

impl Builder for Plate {
    type Plan = PlatePlan;

    /// A plate plans one undecorated, non-resizable surface holding exactly
    /// the widget its tag resolves to, aimed at the `Overlay` layer, with a
    /// dismissal timer equal to the configured duration — exactly when the
    /// tag is defined; the placeholder tag fails the build.
    open spec fn planned(self, r: Result<PlatePlan, BuildError>) -> bool {
        if tag_defined(self.tag) {
            &&& r matches Ok(p)
            &&& p.app == self.app
            &&& p.title@ == self.title@
            &&& p.child == spec_resolve(self.tag)
            &&& p.margins@ == self.margins@
            &&& p.anchors@ == self.anchors@
            &&& p.layer is Overlay
            &&& !p.decorated
            &&& !p.resizable
            &&& p.timer_seconds == self.duration
        } else {
            r == Err::<PlatePlan, BuildError>(BuildError::UndefinedTag)
        }
    }

    fn build(self) -> (r: Result<PlatePlan, BuildError>) {
        let child = match resolve(&self.tag) {
            Ok(w) => w,
            Err(e) => {
                return Err(e);
            },
        };
        Ok(
            PlatePlan {
                app: self.app,
                title: self.title,
                child,
                margins: self.margins,
                anchors: self.anchors,
                layer: Layer::Overlay,
                decorated: false,
                resizable: false,
                timer_seconds: self.duration,
            },
        )
    }
}

/// Law: a plate holding the placeholder tag never builds — the build reports
/// the placeholder rather than silently succeeding or substituting a widget.
pub proof fn lemma_plate_undefined_tag_is_fatal(p: Plate, r: Result<PlatePlan, BuildError>)
    requires
        !tag_defined(p.tag),
        p.planned(r),
    ensures
        r == Err::<PlatePlan, BuildError>(BuildError::UndefinedTag),
{
}

impl PlatePlan {
    /// Decide the plate's placement from whether the host supports the
    /// compositor-layer protocol: apply the configured per-edge state on the
    /// plan's layer where it does, fall back to default window management —
    /// applying nothing — where it does not.
    pub fn placement(&self, layer_shell_supported: bool) -> (r: Placement)
        ensures
            layer_shell_supported ==> (r matches Placement::Layered { layer, settings }
                && layer == self.layer
                && settings.margin_top == margin_for(self.margins@, Edge::Top)
                && settings.margin_bottom == margin_for(self.margins@, Edge::Bottom)
                && settings.margin_left == margin_for(self.margins@, Edge::Left)
                && settings.margin_right == margin_for(self.margins@, Edge::Right)
                && settings.anchor_top == anchor_for(self.anchors@, Edge::Top)
                && settings.anchor_bottom == anchor_for(self.anchors@, Edge::Bottom)
                && settings.anchor_left == anchor_for(self.anchors@, Edge::Left)
                && settings.anchor_right == anchor_for(self.anchors@, Edge::Right)),
            !layer_shell_supported ==> r is HostDefault,
    {
        if layer_shell_supported {
            let settings = apply_edges(&self.margins, &self.anchors);
            Placement::Layered { layer: self.layer, settings }
        } else {
            Placement::HostDefault
        }
    }
}

} // verus!
