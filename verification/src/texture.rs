//! The texture that carries the content view into the UI layer.
//!
//! The UI layer knows the content view as one of its own textures, by an
//! identifier that it assigned once. The content behind it is drawn elsewhere
//! and changes; the identifier never does.

use vstd::prelude::*;

verus! {

/// Name of a texture in the UI layer's table.
#[derive(Clone, Copy, Debug, PartialEq, Eq, Structural)]
pub enum TextureId {
    /// A texture that the UI layer made for itself.
    Managed(u64),
    /// A texture that was registered from outside.
    User(u64),
}

/// The composited texture: its identifier, and the GPU view that backs it at
/// the moment, by the handle under which the host keeps that view.
#[derive(Clone, Copy, Debug, PartialEq, Eq, Structural)]
pub struct CompositedTexture {
    pub id: TextureId,
    pub view: u64,
}

/// The bridge after a registration under `id` with `view` behind it. Only the
/// first registration counts.
pub open spec fn registered(
    bridge: Option<CompositedTexture>,
    id: TextureId,
    view: u64,
) -> Option<CompositedTexture> {
    match bridge {
        Some(_) => bridge,
        None => Some(CompositedTexture { id, view }),
    }
}

/// The bridge after new content arrived in `view`: the same identifier, backed
/// by the new view. Without a registration there is nothing to back.
pub open spec fn updated(bridge: Option<CompositedTexture>, view: u64) -> Option<
    CompositedTexture,
> {
    match bridge {
        Some(texture) => Some(CompositedTexture { id: texture.id, view }),
        None => None,
    }
}

/// The bridge after new content arrived in each of `views` in turn.
pub open spec fn updated_all(bridge: Option<CompositedTexture>, views: Seq<u64>) -> Option<
    CompositedTexture,
>
    decreases views.len(),
{
    if views.len() == 0 {
        bridge
    } else {
        updated(updated_all(bridge, views.drop_last()), views.last())
    }
}

/// The identifier under which the UI layer knows the content view.
pub open spec fn identifier(bridge: Option<CompositedTexture>) -> Option<TextureId> {
    match bridge {
        Some(texture) => Some(texture.id),
        None => None,
    }
}

/// The textures that may be freed: all but the composited one.
pub open spec fn may_release(bridge: Option<CompositedTexture>) -> spec_fn(TextureId) -> bool {
    |id: TextureId|
        match bridge {
            Some(texture) => id != texture.id,
            None => true,
        }
}

/// Of the textures that the UI layer gave up, those that the host frees, in
/// the order given.
pub open spec fn releasable(bridge: Option<CompositedTexture>, ids: Seq<TextureId>) -> Seq<
    TextureId,
> {
    ids.filter(may_release(bridge))
}

/// Holder of the composited texture.
pub struct TextureBridge {
    composited: Option<CompositedTexture>,
}

impl View for TextureBridge {
    type V = Option<CompositedTexture>;

    closed spec fn view(&self) -> Option<CompositedTexture> {
        self.composited
    }
}

impl TextureBridge {
    /// A bridge with nothing registered yet.
    pub fn new() -> (bridge: TextureBridge)
        ensures
            bridge@ is None,
    {
        TextureBridge { composited: None }
    }

    /// Records the identifier that the UI layer assigned to the content view,
    /// with the view that backs it first, and returns the identifier that is
    /// in force from now on: `assigned` on the first call, the one already
    /// recorded on every later call.
    pub fn register(&mut self, assigned: TextureId, view: u64) -> (id: TextureId)
        ensures
            final(self)@ == registered(old(self)@, assigned, view),
            Some(id) == identifier(final(self)@),
        no_unwind
    {
        match self.composited {
            Some(texture) => texture.id,
            None => {
                self.composited = Some(CompositedTexture { id: assigned, view });
                assigned
            },
        }
    }

    /// Puts `view` behind the identifier and returns the texture for the host
    /// to point the UI layer's entry at. Returns `None`, and changes nothing,
    /// while nothing is registered.
    pub fn update(&mut self, view: u64) -> (refreshed: Option<CompositedTexture>)
        ensures
            final(self)@ == updated(old(self)@, view),
            refreshed == updated(old(self)@, view),
            identifier(final(self)@) == identifier(old(self)@),
        no_unwind
    {
        match self.composited {
            Some(texture) => {
                let refreshed = CompositedTexture { id: texture.id, view };
                self.composited = Some(refreshed);
                Some(refreshed)
            },
            None => None,
        }
    }

    /// Of the textures in `ids`, which the UI layer no longer refers to, those
    /// that the host is to free. The composited texture is never among them.
    pub fn release_unused(&self, ids: &Vec<TextureId>) -> (released: Vec<TextureId>)
        ensures
            released@ == releasable(self@, ids@),
    {
        let mut released: Vec<TextureId> = Vec::new();
        let mut i: usize = 0;
        proof {
            reveal(Seq::filter);
            assert(ids@.take(0) =~= Seq::<TextureId>::empty());
        }
        while i < ids.len()
            invariant
                i <= ids.len(),
                released@ == releasable(self@, ids@.take(i as int)),
            decreases ids.len() - i,
        {
            let id = ids[i];
            let keep = match self.composited {
                Some(texture) => id != texture.id,
                None => true,
            };
            proof {
                reveal(Seq::filter);
                assert(ids@.take(i + 1).drop_last() =~= ids@.take(i as int));
                assert(ids@.take(i + 1).last() == id);
                assert(keep == may_release(self@)(id));
            }
            if keep {
                released.push(id);
            }
            i = i + 1;
        }
        proof {
            assert(ids@.take(i as int) =~= ids@);
        }
        released
    }

    /// The composited texture, once registered.
    pub fn composited(&self) -> (texture: Option<CompositedTexture>)
        ensures
            texture == self@,
    {
        self.composited
    }

    /// The identifier under which the UI layer knows the content view, once
    /// registered.
    pub fn id(&self) -> (id: Option<TextureId>)
        ensures
            id == identifier(self@),
    {
        match self.composited {
            Some(texture) => Some(texture.id),
            None => None,
        }
    }
}

/// However often the content changes, the identifier stays the one that was
/// registered, and the view behind it is the one that arrived last.
pub proof fn lemma_identifier_stable(bridge: Option<CompositedTexture>, views: Seq<u64>)
    ensures
        identifier(updated_all(bridge, views)) == identifier(bridge),
        bridge is Some && views.len() > 0 ==> updated_all(bridge, views) == Some(
            CompositedTexture { id: bridge.unwrap().id, view: views.last() },
        ),
    decreases views.len(),
{
    if views.len() > 0 {
        lemma_identifier_stable(bridge, views.drop_last());
    }
}

/// A second registration changes nothing: the identifier of the first stays.
pub proof fn lemma_register_once(
    bridge: Option<CompositedTexture>,
    first: TextureId,
    view: u64,
    second: TextureId,
    other: u64,
)
    ensures
        registered(registered(bridge, first, view), second, other) == registered(
            bridge,
            first,
            view,
        ),
        bridge is None ==> identifier(registered(bridge, first, view)) == Some(first),
{
}

/// What is freed was given up by the UI layer and is not the composited
/// texture; and every texture given up, but for the composited one, is freed.
pub proof fn lemma_release_spares_composited(
    bridge: Option<CompositedTexture>,
    ids: Seq<TextureId>,
    id: TextureId,
)
    ensures
        releasable(bridge, ids).contains(id) <==> ids.contains(id) && identifier(bridge) != Some(
            id,
        ),
{
    let pred = may_release(bridge);
    let out = ids.filter(pred);
    if out.contains(id) {
        let k = choose|k: int| 0 <= k < out.len() && out[k] == id;
        ids.lemma_filter_pred(pred, k);
        lemma_filter_from(ids, pred, k);
    }
    if ids.contains(id) && identifier(bridge) != Some(id) {
        let k = choose|k: int| 0 <= k < ids.len() && ids[k] == id;
        assert(pred(ids[k]));
        ids.lemma_filter_contains(pred, k);
    }
}

/// Every element of a filtered sequence comes from the sequence.
proof fn lemma_filter_from(ids: Seq<TextureId>, pred: spec_fn(TextureId) -> bool, k: int)
    requires
        0 <= k < ids.filter(pred).len(),
    ensures
        ids.contains(ids.filter(pred)[k]),
    decreases ids.len(),
{
    reveal(Seq::filter);
    if ids.len() > 0 {
        let rest = ids.drop_last().filter(pred);
        if k < rest.len() {
            lemma_filter_from(ids.drop_last(), pred, k);
            let j = choose|j: int| 0 <= j < ids.drop_last().len() && ids.drop_last()[j] == rest[k];
            assert(ids[j] == rest[k]);
        } else {
            assert(ids.filter(pred)[k] == ids.last());
            assert(ids[ids.len() - 1] == ids.last());
        }
    }
}

} // verus!
