use vstd::prelude::*;

verus! {

/// The kinds of widget a tag can realize.
#[derive(Clone, Copy, PartialEq, Eq, Structural, Debug)]
pub enum WidgetKind {
    Label,
    Box,
    Button,
    Revealer,
    Scroller,
}

/// A composable element of a surface. Each realizable variant owns the widget
/// it stands for, identified by the stable key under which the embedder keeps
/// the host handle. `Undefined` is a placeholder that must never reach
/// realization.
#[derive(Clone, Copy, PartialEq, Eq, Structural, Debug)]
pub enum Tag {
    Label(u64),
    Box(u64),
    Button(u64),
    Revealer(u64),
    Scroller(u64),
    Undefined,
}

/// A tag resolved to the widget it owns.
#[derive(Clone, Copy, PartialEq, Eq, Structural, Debug)]
pub struct ResolvedWidget {
    pub kind: WidgetKind,
    pub id: u64,
}

/// The one failure a plan can report: a placeholder tag reached realization.
#[derive(Clone, Copy, PartialEq, Eq, Structural, Debug)]
pub enum BuildError {
    UndefinedTag,
}

/// A tag may be realized exactly when it is not the placeholder.
pub open spec fn tag_defined(t: Tag) -> bool {
    !(t is Undefined)
}

/// The widget a defined tag resolves to.
pub open spec fn spec_resolve(t: Tag) -> ResolvedWidget
    recommends
        tag_defined(t),
{
    match t {
        Tag::Label(id) => ResolvedWidget { kind: WidgetKind::Label, id },
        Tag::Box(id) => ResolvedWidget { kind: WidgetKind::Box, id },
        Tag::Button(id) => ResolvedWidget { kind: WidgetKind::Button, id },
        Tag::Revealer(id) => ResolvedWidget { kind: WidgetKind::Revealer, id },
        Tag::Scroller(id) => ResolvedWidget { kind: WidgetKind::Scroller, id },
        Tag::Undefined => arbitrary(),
    }
}

/// Every tag of the sequence may be realized.
pub open spec fn all_defined(tags: Seq<Tag>) -> bool {
    forall|i: int| 0 <= i < tags.len() ==> tag_defined(tags[i])
}

/// The widgets a sequence of defined tags resolves to, in order.
pub open spec fn spec_resolve_all(tags: Seq<Tag>) -> Seq<ResolvedWidget> {
    tags.map_values(|t: Tag| spec_resolve(t))
}

/// Resolve one tag to its widget; the placeholder is reported, never skipped.
pub fn resolve(t: &Tag) -> (r: Result<ResolvedWidget, BuildError>)
    ensures
        tag_defined(*t) ==> r == Ok::<ResolvedWidget, BuildError>(spec_resolve(*t)),
        !tag_defined(*t) ==> r == Err::<ResolvedWidget, BuildError>(BuildError::UndefinedTag),
{
    match t {
        Tag::Label(id) => Ok(ResolvedWidget { kind: WidgetKind::Label, id: *id }),
        Tag::Box(id) => Ok(ResolvedWidget { kind: WidgetKind::Box, id: *id }),
        Tag::Button(id) => Ok(ResolvedWidget { kind: WidgetKind::Button, id: *id }),
        Tag::Revealer(id) => Ok(ResolvedWidget { kind: WidgetKind::Revealer, id: *id }),
        Tag::Scroller(id) => Ok(ResolvedWidget { kind: WidgetKind::Scroller, id: *id }),
        Tag::Undefined => Err(BuildError::UndefinedTag),
    }
}

/// Resolve a tag sequence in order. Succeeds exactly when every tag is
/// defined, and then yields one widget per tag, in sequence order.
pub fn resolve_tags(tags: &Vec<Tag>) -> (r: Result<Vec<ResolvedWidget>, BuildError>)
    ensures
        all_defined(tags@) ==> (r matches Ok(ws) && ws@ == spec_resolve_all(tags@)),
        !all_defined(tags@) ==> r == Err::<Vec<ResolvedWidget>, BuildError>(BuildError::UndefinedTag),
{
    let mut out: Vec<ResolvedWidget> = Vec::new();
    let mut i: usize = 0;
    while i < tags.len()
        invariant
            i <= tags@.len(),
            out@.len() == i,
            forall|j: int| 0 <= j < i ==> tag_defined(tags@[j]),
            forall|j: int| 0 <= j < i ==> out@[j] == spec_resolve(tags@[j]),
        decreases tags@.len() - i,
    {
        match resolve(&tags[i]) {
            Ok(w) => {
                out.push(w);
            },
            Err(e) => {
                assert(!all_defined(tags@)) by {
                    assert(!tag_defined(tags@[i as int]));
                }
                return Err(e);
            },
        }
        i = i + 1;
    }
    assert(out@ =~= spec_resolve_all(tags@));
    Ok(out)
}

} // verus!
