use vstd::prelude::*;
use vstd::string::StringExecFns;

use crate::builder::Builder;
use crate::config::{AppHandle, EdgeAnchor, EdgeMargin, Layer, Orientation};
use crate::tags::{all_defined, resolve_tags, spec_resolve, spec_resolve_all, BuildError, ResolvedWidget, Tag};

verus! {

/// A persistent multi-segment surface: an ordered sequence of tags laid out
/// in one container, pinned to one or more edges of the output. The sequence
/// order is the visual order, and the container carries the fixed style name
/// `taskbar` so that an external stylesheet can target it.
pub struct Bar {
    pub app: AppHandle,
    pub title: String,
    pub tags: Vec<Tag>,
    pub margins: Vec<EdgeMargin>,
    pub anchors: Vec<EdgeAnchor>,
    pub orientation: Orientation,
}

/// Everything the embedder must do to realize a bar: create a surface for
/// `app` with `title`, lay the `children` out in order in a container named
/// `style_name` with `orientation`, place the surface on `layer` with an
/// automatically managed exclusive zone, and apply `margins` and `anchors`
/// in insertion order.
#[derive(Debug)]
pub struct BarPlan {
    pub app: AppHandle,
    pub title: String,
    pub style_name: String,
    pub orientation: Orientation,
    pub layer: Layer,
    pub auto_exclusive_zone: bool,
    pub margins: Vec<EdgeMargin>,
    pub anchors: Vec<EdgeAnchor>,
    pub children: Vec<ResolvedWidget>,
}

impl Bar {
    /// A fully configured bar; configuration is fixed from here on and is
    /// consumed by the one `build`.
    pub fn new(
        app: AppHandle,
        title: &str,
        tags: Vec<Tag>,
        margins: Vec<EdgeMargin>,
        anchors: Vec<EdgeAnchor>,
        orientation: Orientation,
    ) -> (r: Bar)
        ensures
            r.app == app,
            r.title@ == title@,
            r.tags@ == tags@,
            r.margins@ == margins@,
            r.anchors@ == anchors@,
            r.orientation == orientation,
    {
        Bar { app, title: String::from_str(title), tags, margins, anchors, orientation }
    }
}

impl Builder for Bar {
    type Plan = BarPlan;

    /// A bar plans one surface on the `Top` layer, reserving its own
    /// exclusive zone, with one child per tag in sequence order — exactly
    /// when every tag is defined; a placeholder tag fails the whole build.
    open spec fn planned(self, r: Result<BarPlan, BuildError>) -> bool {
        if all_defined(self.tags@) {
            &&& r matches Ok(p)
            &&& p.app == self.app
            &&& p.title@ == self.title@
            &&& p.style_name@ == "taskbar"@
            &&& p.orientation == self.orientation
            &&& p.layer is Top
            &&& p.auto_exclusive_zone
            &&& p.margins@ == self.margins@
            &&& p.anchors@ == self.anchors@
            &&& p.children@ == spec_resolve_all(self.tags@)
        } else {
            r == Err::<BarPlan, BuildError>(BuildError::UndefinedTag)
        }
    }

    fn build(self) -> (r: Result<BarPlan, BuildError>) {
        let children = match resolve_tags(&self.tags) {
            Ok(ws) => ws,
            Err(e) => {
                return Err(e);
            },
        };
        Ok(
            BarPlan {
                app: self.app,
                title: self.title,
                style_name: String::from_str("taskbar"),
                orientation: self.orientation,
                layer: Layer::Top,
                auto_exclusive_zone: true,
                margins: self.margins,
                anchors: self.anchors,
                children,
            },
        )
    }
}

/// Law: whenever every tag of a bar is defined, its build succeeds and the
/// planned container holds exactly one child per tag, in sequence order.
pub proof fn lemma_bar_children_in_order(b: Bar, r: Result<BarPlan, BuildError>)
    requires
        all_defined(b.tags@),
        b.planned(r),
    ensures
        r matches Ok(p) && p.children@.len() == b.tags@.len() && (forall|i: int|
            0 <= i < b.tags@.len() ==> p.children@[i] == spec_resolve(b.tags@[i])),
{
}

/// Law: a bar holding a placeholder tag never builds — the build reports the
/// placeholder rather than silently succeeding or silently skipping it.
pub proof fn lemma_bar_undefined_tag_is_fatal(b: Bar, r: Result<BarPlan, BuildError>)
    requires
        !all_defined(b.tags@),
        b.planned(r),
    ensures
        r == Err::<BarPlan, BuildError>(BuildError::UndefinedTag),
{
}

} // verus!
