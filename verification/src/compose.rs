//! Scene composition: from an ordered list of equipped items (with the assets
//! that could be loaded for them) and the resolved body colors, decide which
//! meshes are drawn, with which textures, and in which order.

use vstd::prelude::*;
use vstd::string::StringExecFns;
use crate::palette::ResolvedColors;
use crate::recolor::recolored;
use crate::recolor::replace_transparent_with_color;

verus! {

/// Item classification code of a hat (an independent extra mesh).
pub const ITEM_HAT: i8 = 9;

/// Item classification code of a head-swap mesh.
pub const ITEM_HEAD_SWAP: i8 = 8;

/// Item classification code of a face texture.
pub const ITEM_FACE: i8 = 7;

/// Item classification code of pants (one image for both legs).
pub const ITEM_PANTS: i8 = 6;

/// Item classification code of a shirt (one image for torso and both arms).
pub const ITEM_SHIRT: i8 = 5;

/// Item classification code of a t-shirt overlay mesh.
pub const ITEM_OVERLAY: i8 = 4;

/// An equipped item: its classification code, an optional primary asset
/// location and an optional secondary texture path (used only by hats), both
/// relative to the asset root.
#[derive(Debug, Clone)]
pub struct ItemAsset {
    pub item_type: i8,
    pub location: Option<String>,
    pub texture_path: Option<String>,
}

/// Mathematical image of an `ItemAsset`.
pub ghost struct ItemModel {
    pub item_type: i8,
    pub location: Option<Seq<char>>,
    pub texture_path: Option<Seq<char>>,
}

impl View for ItemAsset {
    type V = ItemModel;

    open spec fn view(&self) -> ItemModel {
        ItemModel {
            item_type: self.item_type,
            location: match self.location {
                Some(l) => Some(l@),
                None => None,
            },
            texture_path: match self.texture_path {
                Some(t) => Some(t@),
                None => None,
            },
        }
    }
}

/// Which of the preloaded body-part meshes are available. The meshes
/// themselves stay with the caller; composition only needs their presence.
#[derive(Debug, Clone, Copy, PartialEq, Eq, Structural)]
pub struct StaticMeshes {
    pub head: bool,
    pub rarm: bool,
    pub larm: bool,
    pub rleg: bool,
    pub lleg: bool,
    pub trso: bool,
    pub tshirt: bool,
}

/// A decoded RGBA image: dimensions and 4 bytes per pixel.
#[derive(Debug)]
pub struct TextureImage {
    pub width: u32,
    pub height: u32,
    pub bytes: Vec<u8>,
}

/// Mathematical image of a `TextureImage`.
pub ghost struct ImageModel {
    pub width: u32,
    pub height: u32,
    pub bytes: Seq<u8>,
}

impl View for TextureImage {
    type V = ImageModel;

    open spec fn view(&self) -> ImageModel {
        ImageModel { width: self.width, height: self.height, bytes: self.bytes@ }
    }
}

/// The texture assigned to a body part: either a flat `0xRRGGBB` color
/// (drawn as a 1x1 texture) or a full image.
#[derive(Debug)]
pub enum PartTexture {
    Flat(u32),
    Image(TextureImage),
}

/// Mathematical image of a `PartTexture`.
pub ghost enum TexModel {
    Flat(u32),
    Image(ImageModel),
}

impl View for PartTexture {
    type V = TexModel;

    open spec fn view(&self) -> TexModel {
        match self {
            PartTexture::Flat(c) => TexModel::Flat(*c),
            PartTexture::Image(img) => TexModel::Image(img@),
        }
    }
}

/// Which mesh the head is drawn with: the preloaded default, or a swapped-in
/// mesh held by the caller under the given handle.
#[derive(Debug, Clone, Copy, PartialEq, Eq, Structural)]
pub enum HeadMesh {
    Default,
    Swapped(usize),
}

/// What the caller managed to load for one item. Handles index meshes that
/// the caller keeps; composition never looks inside them.
#[derive(Debug)]
pub enum LoadedAsset {
    Missing,
    Image(TextureImage),
    Mesh(usize),
    HatMesh(usize),
}

/// Mathematical image of a `LoadedAsset`.
pub ghost enum LoadedModel {
    Missing,
    Image(ImageModel),
    Mesh(usize),
    HatMesh(usize),
}

impl View for LoadedAsset {
    type V = LoadedModel;

    open spec fn view(&self) -> LoadedModel {
        match self {
            LoadedAsset::Missing => LoadedModel::Missing,
            LoadedAsset::Image(img) => LoadedModel::Image(img@),
            LoadedAsset::Mesh(m) => LoadedModel::Mesh(*m),
            LoadedAsset::HatMesh(h) => LoadedModel::HatMesh(*h),
        }
    }
}

/// One of the preloaded body-part meshes, or the head swapped to a
/// caller-held mesh.
#[derive(Debug, Clone, Copy, PartialEq, Eq, Structural)]
pub enum PartMesh {
    Trso,
    Rarm,
    Larm,
    HeadDefault,
    HeadSwapped(usize),
    Lleg,
    Rleg,
}

/// One draw call of the composited scene, in draw order: a body part with
/// its texture, a t-shirt overlay image on the fixed overlay mesh, or a hat
/// mesh held by the caller (its texture is already attached).
#[derive(Debug)]
pub enum DrawCall {
    Part(PartMesh, PartTexture),
    Overlay(TextureImage),
    Hat(usize),
}

/// Mathematical image of a `DrawCall`.
pub ghost enum DrawModel {
    Part(PartMesh, TexModel),
    Overlay(ImageModel),
    Hat(usize),
}

impl View for DrawCall {
    type V = DrawModel;

    open spec fn view(&self) -> DrawModel {
        match self {
            DrawCall::Part(m, t) => DrawModel::Part(*m, t@),
            DrawCall::Overlay(img) => DrawModel::Overlay(img@),
            DrawCall::Hat(h) => DrawModel::Hat(*h),
        }
    }
}

/// View of a whole item list.
pub open spec fn items_model(items: Seq<ItemAsset>) -> Seq<ItemModel> {
    items.map_values(|it: ItemAsset| it@)
}

/// View of a whole loaded-asset list.
pub open spec fn loaded_model(loaded: Seq<LoadedAsset>) -> Seq<LoadedModel> {
    loaded.map_values(|l: LoadedAsset| l@)
}

/// View of a whole draw list.
pub open spec fn draws_model(draws: Seq<DrawCall>) -> Seq<DrawModel> {
    draws.map_values(|d: DrawCall| d@)
}

/// View of the optional default face image.
pub open spec fn face_model(face: Option<TextureImage>) -> Option<ImageModel> {
    match face {
        Some(f) => Some(f@),
        None => None,
    }
}

/// An item contributes only when it has a non-empty asset location.
pub open spec fn item_has_asset(item: ItemModel) -> bool {
    &&& item.location is Some
    &&& item.location->0.len() > 0
}

/// An image after alpha-compositing against a flat background color.
pub open spec fn recolored_image(img: ImageModel, bg: u32) -> ImageModel {
    ImageModel { width: img.width, height: img.height, bytes: recolored(img.bytes, bg) }
}

/// The scene state of one render job: the texture of each body part, which
/// head mesh is used, the overlay images in order, and the hat mesh handles
/// in order.
pub ghost struct SceneModel {
    pub head_mesh: HeadMesh,
    pub head: TexModel,
    pub trso: TexModel,
    pub rarm: TexModel,
    pub larm: TexModel,
    pub rleg: TexModel,
    pub lleg: TexModel,
    pub overlays: Seq<ImageModel>,
    pub hats: Seq<usize>,
}

/// The scene before any item is applied: every part carries a flat texture
/// in its resolved color, except the head, which gets the default face image
/// composited against the head color when one is available.
pub open spec fn initial_scene(colors: ResolvedColors, face: Option<ImageModel>) -> SceneModel {
    SceneModel {
        head_mesh: HeadMesh::Default,
        head: match face {
            Some(f) => TexModel::Image(recolored_image(f, colors.head)),
            None => TexModel::Flat(colors.head),
        },
        trso: TexModel::Flat(colors.trso),
        rarm: TexModel::Flat(colors.rarm),
        larm: TexModel::Flat(colors.larm),
        rleg: TexModel::Flat(colors.rleg),
        lleg: TexModel::Flat(colors.lleg),
        overlays: Seq::empty(),
        hats: Seq::empty(),
    }
}

/// The effect of one equipped item on the scene. Items without an asset
/// location, items whose asset could not be loaded, and items of unknown
/// classification leave the scene unchanged.
pub open spec fn apply_item(
    s: SceneModel,
    item: ItemModel,
    l: LoadedModel,
    colors: ResolvedColors,
    meshes: StaticMeshes,
) -> SceneModel {
    if !item_has_asset(item) {
        s
    } else if item.item_type == ITEM_HAT {
        match l {
            LoadedModel::HatMesh(h) => SceneModel { hats: s.hats.push(h), ..s },
            _ => s,
        }
    } else if item.item_type == ITEM_HEAD_SWAP {
        match l {
            LoadedModel::Mesh(m) => SceneModel { head_mesh: HeadMesh::Swapped(m), ..s },
            _ => s,
        }
    } else if item.item_type == ITEM_FACE {
        match l {
            LoadedModel::Image(img) => SceneModel {
                head: TexModel::Image(recolored_image(img, colors.head)),
                ..s
            },
            _ => s,
        }
    } else if item.item_type == ITEM_PANTS {
        match l {
            LoadedModel::Image(img) => SceneModel {
                rleg: TexModel::Image(recolored_image(img, colors.rleg)),
                lleg: TexModel::Image(recolored_image(img, colors.lleg)),
                ..s
            },
            _ => s,
        }
    } else if item.item_type == ITEM_SHIRT {
        match l {
            LoadedModel::Image(img) => SceneModel {
                trso: TexModel::Image(recolored_image(img, colors.trso)),
                rarm: TexModel::Image(recolored_image(img, colors.rarm)),
                larm: TexModel::Image(recolored_image(img, colors.larm)),
                ..s
            },
            _ => s,
        }
    } else if item.item_type == ITEM_OVERLAY {
        match l {
            LoadedModel::Image(img) => if meshes.tshirt {
                SceneModel { overlays: s.overlays.push(img), ..s }
            } else {
                s
            },
            _ => s,
        }
    } else {
        s
    }
}

/// The scene after the first `n` items of the list have been applied in
/// order.
pub open spec fn compose_model(
    items: Seq<ItemModel>,
    loaded: Seq<LoadedModel>,
    colors: ResolvedColors,
    face: Option<ImageModel>,
    meshes: StaticMeshes,
    n: int,
) -> SceneModel
    decreases n,
{
    if n <= 0 {
        initial_scene(colors, face)
    } else {
        apply_item(
            compose_model(items, loaded, colors, face, meshes, n - 1),
            items[n - 1],
            loaded[n - 1],
            colors,
            meshes,
        )
    }
}

/// The draw calls of the six base body parts, in the fixed order: torso,
/// right arm, left arm, head, left leg, right leg. Parts whose preloaded
/// mesh is missing are skipped; a swapped head is always drawn.
pub open spec fn base_draws(s: SceneModel, meshes: StaticMeshes) -> Seq<DrawModel> {
    (if meshes.trso {
        seq![DrawModel::Part(PartMesh::Trso, s.trso)]
    } else {
        Seq::empty()
    }) + (if meshes.rarm {
        seq![DrawModel::Part(PartMesh::Rarm, s.rarm)]
    } else {
        Seq::empty()
    }) + (if meshes.larm {
        seq![DrawModel::Part(PartMesh::Larm, s.larm)]
    } else {
        Seq::empty()
    }) + head_draw(s, meshes) + (if meshes.lleg {
        seq![DrawModel::Part(PartMesh::Lleg, s.lleg)]
    } else {
        Seq::empty()
    }) + (if meshes.rleg {
        seq![DrawModel::Part(PartMesh::Rleg, s.rleg)]
    } else {
        Seq::empty()
    })
}

/// The head's draw call: the swapped mesh when a head swap was applied, else
/// the preloaded default head if present.
pub open spec fn head_draw(s: SceneModel, meshes: StaticMeshes) -> Seq<DrawModel> {
    match s.head_mesh {
        HeadMesh::Default => if meshes.head {
            seq![DrawModel::Part(PartMesh::HeadDefault, s.head)]
        } else {
            Seq::empty()
        },
        HeadMesh::Swapped(m) => seq![DrawModel::Part(PartMesh::HeadSwapped(m), s.head)],
    }
}

/// View of a list of owned images.
pub open spec fn overlay_images(ts: Seq<TextureImage>) -> Seq<ImageModel> {
    ts.map_values(|t: TextureImage| t@)
}

/// Overlay draw calls for a list of overlay images, in order.
pub open spec fn overlay_calls(imgs: Seq<ImageModel>) -> Seq<DrawModel> {
    imgs.map_values(|img: ImageModel| DrawModel::Overlay(img))
}

/// Hat draw calls for a list of hat mesh handles, in order.
pub open spec fn hat_calls(hs: Seq<usize>) -> Seq<DrawModel> {
    hs.map_values(|h: usize| DrawModel::Hat(h))
}

/// The overlay draw calls, in item order.
pub open spec fn overlay_draws(s: SceneModel) -> Seq<DrawModel> {
    overlay_calls(s.overlays)
}

/// The hat draw calls, in item order.
pub open spec fn hat_draws(s: SceneModel) -> Seq<DrawModel> {
    hat_calls(s.hats)
}

/// The full draw list of a scene: the six base parts, then every overlay,
/// then every hat.
pub open spec fn scene_draws(s: SceneModel, meshes: StaticMeshes) -> Seq<DrawModel> {
    base_draws(s, meshes) + overlay_draws(s) + hat_draws(s)
}

/// What the caller should load for an item before composition: nothing, one
/// image, one mesh, or (for hats) a mesh with its own texture. Paths are
/// already resolved against the asset root.
#[derive(Debug)]
pub enum AssetRequest {
    NoLoad,
    LoadImage(String),
    LoadMesh(String),
    LoadMeshAndTexture(String, String),
}

/// Mathematical image of an `AssetRequest`.
pub ghost enum RequestModel {
    NoLoad,
    LoadImage(Seq<char>),
    LoadMesh(Seq<char>),
    LoadMeshAndTexture(Seq<char>, Seq<char>),
}

impl View for AssetRequest {
    type V = RequestModel;

    open spec fn view(&self) -> RequestModel {
        match self {
            AssetRequest::NoLoad => RequestModel::NoLoad,
            AssetRequest::LoadImage(p) => RequestModel::LoadImage(p@),
            AssetRequest::LoadMesh(p) => RequestModel::LoadMesh(p@),
            AssetRequest::LoadMeshAndTexture(p, t) => RequestModel::LoadMeshAndTexture(p@, t@),
        }
    }
}

/// The fixed root all item asset paths are resolved against.
pub open spec fn asset_root() -> Seq<char> {
    "/srv/http/"@
}

/// The secondary texture path of an item, or empty when absent.
pub open spec fn texture_or_empty(item: ItemModel) -> Seq<char> {
    match item.texture_path {
        Some(t) => t,
        None => Seq::empty(),
    }
}

/// Which load an item calls for: hats need a mesh and a texture, head swaps
/// a mesh, face/pants/shirt/overlay items one image; items without an asset
/// location and unknown classifications need nothing.
pub open spec fn item_request(item: ItemModel) -> RequestModel {
    if !item_has_asset(item) {
        RequestModel::NoLoad
    } else if item.item_type == ITEM_HAT {
        RequestModel::LoadMeshAndTexture(
            asset_root() + item.location->0,
            asset_root() + texture_or_empty(item),
        )
    } else if item.item_type == ITEM_HEAD_SWAP {
        RequestModel::LoadMesh(asset_root() + item.location->0)
    } else if ITEM_OVERLAY <= item.item_type <= ITEM_FACE {
        RequestModel::LoadImage(asset_root() + item.location->0)
    } else {
        RequestModel::NoLoad
    }
}

/// Resolves which asset the caller should load for an item, and against
/// which full paths.
pub fn asset_request(item: &ItemAsset) -> (r: AssetRequest)
    ensures
        r@ == item_request(item@),
{
    match &item.location {
        None => AssetRequest::NoLoad,
        Some(loc) => {
            if loc.as_str().is_empty() {
                AssetRequest::NoLoad
            } else {
                let mut full = String::from_str("/srv/http/");
                full.append(loc.as_str());
                if item.item_type == ITEM_HAT {
                    let mut tex = String::from_str("/srv/http/");
                    match &item.texture_path {
                        Some(t) => tex.append(t.as_str()),
                        None => {
                            proof {
                                assert(tex@ =~= asset_root() + texture_or_empty(item@));
                            }
                        },
                    }
                    AssetRequest::LoadMeshAndTexture(full, tex)
                } else if item.item_type == ITEM_HEAD_SWAP {
                    AssetRequest::LoadMesh(full)
                } else if ITEM_OVERLAY <= item.item_type && item.item_type <= ITEM_FACE {
                    AssetRequest::LoadImage(full)
                } else {
                    AssetRequest::NoLoad
                }
            }
        },
    }
}

/// Copies a byte buffer.
fn clone_bytes(b: &Vec<u8>) -> (r: Vec<u8>)
    ensures
        r@ == b@,
{
    let mut r: Vec<u8> = Vec::new();
    let mut i: usize = 0;
    while i < b.len()
        invariant
            i <= b@.len(),
            r@ == b@.take(i as int),
        decreases b@.len() - i,
    {
        r.push(b[i]);
        proof {
            assert(r@ =~= b@.take(i as int + 1));
        }
        i = i + 1;
    }
    proof {
        assert(b@.take(b@.len() as int) =~= b@);
    }
    r
}

/// An exact copy of an image.
fn duplicate_image(img: &TextureImage) -> (r: TextureImage)
    ensures
        r@ == img@,
{
    TextureImage { width: img.width, height: img.height, bytes: clone_bytes(&img.bytes) }
}

/// Alpha-composites an image against a flat background color, keeping its
/// dimensions.
pub fn recolor_image(img: TextureImage, bg: u32) -> (r: TextureImage)
    ensures
        r@ == recolored_image(img@, bg),
{
    TextureImage {
        width: img.width,
        height: img.height,
        bytes: replace_transparent_with_color(img.bytes, bg),
    }
}

/// Composites the scene of one render job: applies every equipped item in
/// list order to the initial flat-colored body, then emits the draw list in
/// the fixed order (six base parts, overlays, hats).
#[verifier::rlimit(100)]
pub fn compose(
    items: &Vec<ItemAsset>,
    loaded: Vec<LoadedAsset>,
    colors: &ResolvedColors,
    face: Option<TextureImage>,
    meshes: &StaticMeshes,
) -> (draws: Vec<DrawCall>)
    requires
        loaded@.len() == items@.len(),
    ensures
        draws_model(draws@) == scene_draws(
            compose_model(
                items_model(items@),
                loaded_model(loaded@),
                *colors,
                face_model(face),
                *meshes,
                items@.len() as int,
            ),
            *meshes,
        ),
{
    let ghost m_items = items_model(items@);
    let ghost orig_loaded = loaded@;
    let ghost m_loaded = loaded_model(loaded@);
    let ghost m_face = face_model(face);

    let mut loaded = loaded;
    let mut head_tex: PartTexture = match face {
        Some(img) => PartTexture::Image(recolor_image(img, colors.head)),
        None => PartTexture::Flat(colors.head),
    };
    let mut trso_tex = PartTexture::Flat(colors.trso);
    let mut rarm_tex = PartTexture::Flat(colors.rarm);
    let mut larm_tex = PartTexture::Flat(colors.larm);
    let mut rleg_tex = PartTexture::Flat(colors.rleg);
    let mut lleg_tex = PartTexture::Flat(colors.lleg);
    let mut head_mesh = HeadMesh::Default;
    let mut overlays: Vec<TextureImage> = Vec::new();
    let mut hats: Vec<usize> = Vec::new();

    let n = items.len();
    let mut i: usize = 0;
    while i < n
        invariant
            n == items@.len(),
            m_items == items_model(items@),
            m_loaded == loaded_model(orig_loaded),
            m_items.len() == n,
            m_loaded.len() == n,
            orig_loaded.len() == n,
            i <= n,
            loaded@ == orig_loaded.skip(i as int),
            head_tex@ == compose_model(m_items, m_loaded, *colors, m_face, *meshes, i as int).head,
            trso_tex@ == compose_model(m_items, m_loaded, *colors, m_face, *meshes, i as int).trso,
            rarm_tex@ == compose_model(m_items, m_loaded, *colors, m_face, *meshes, i as int).rarm,
            larm_tex@ == compose_model(m_items, m_loaded, *colors, m_face, *meshes, i as int).larm,
            rleg_tex@ == compose_model(m_items, m_loaded, *colors, m_face, *meshes, i as int).rleg,
            lleg_tex@ == compose_model(m_items, m_loaded, *colors, m_face, *meshes, i as int).lleg,
            head_mesh == compose_model(m_items, m_loaded, *colors, m_face, *meshes, i as int).head_mesh,
            overlay_images(overlays@) == compose_model(m_items, m_loaded, *colors, m_face, *meshes, i as int).overlays,
            hats@ == compose_model(m_items, m_loaded, *colors, m_face, *meshes, i as int).hats,
        decreases n - i,
    {
        let ghost s_pre = compose_model(m_items, m_loaded, *colors, m_face, *meshes, i as int);
        let l = loaded.remove(0);
        proof {
            assert(loaded@ =~= orig_loaded.skip(i as int + 1));
            assert(l == orig_loaded[i as int]);
            assert(m_loaded[i as int] == l@);
            assert(m_items[i as int] == items@[i as int]@);
        }
        let item = &items[i];
        let has = match &item.location {
            None => false,
            Some(loc) => !loc.as_str().is_empty(),
        };
        proof {
            assert(has == item_has_asset(m_items[i as int]));
        }
        if has {
            if item.item_type == ITEM_HAT {
                if let LoadedAsset::HatMesh(h) = l {
                    hats.push(h);
                }
            } else if item.item_type == ITEM_HEAD_SWAP {
                if let LoadedAsset::Mesh(m) = l {
                    head_mesh = HeadMesh::Swapped(m);
                }
            } else if item.item_type == ITEM_FACE {
                if let LoadedAsset::Image(img) = l {
                    head_tex = PartTexture::Image(recolor_image(img, colors.head));
                }
            } else if item.item_type == ITEM_PANTS {
                if let LoadedAsset::Image(img) = l {
                    let copy = duplicate_image(&img);
                    rleg_tex = PartTexture::Image(recolor_image(copy, colors.rleg));
                    lleg_tex = PartTexture::Image(recolor_image(img, colors.lleg));
                }
            } else if item.item_type == ITEM_SHIRT {
                if let LoadedAsset::Image(img) = l {
                    let copy1 = duplicate_image(&img);
                    let copy2 = duplicate_image(&img);
                    trso_tex = PartTexture::Image(recolor_image(copy1, colors.trso));
                    rarm_tex = PartTexture::Image(recolor_image(copy2, colors.rarm));
                    larm_tex = PartTexture::Image(recolor_image(img, colors.larm));
                }
            } else if item.item_type == ITEM_OVERLAY {
                if meshes.tshirt {
                    if let LoadedAsset::Image(img) = l {
                        overlays.push(img);
                    }
                }
            }
        }
        proof {
            let s_post = compose_model(m_items, m_loaded, *colors, m_face, *meshes, i as int + 1);
            assert(s_post == apply_item(s_pre, m_items[i as int], m_loaded[i as int], *colors,
                *meshes));
            assert(overlay_images(overlays@) =~= s_post.overlays);
        }
        i = i + 1;
    }
    let ghost s_final = compose_model(m_items, m_loaded, *colors, m_face, *meshes, n as int);
    emit_draws(
        trso_tex,
        rarm_tex,
        larm_tex,
        head_tex,
        lleg_tex,
        rleg_tex,
        head_mesh,
        overlays,
        hats,
        meshes,
        Ghost(s_final),
    )
}

/// Appends the draw call of one body part when its mesh is present.
fn push_part(draws: &mut Vec<DrawCall>, present: bool, mesh: PartMesh, tex: PartTexture)
    ensures
        draws_model(final(draws)@) == draws_model(old(draws)@) + (if present {
            seq![DrawModel::Part(mesh, tex@)]
        } else {
            Seq::<DrawModel>::empty()
        }),
{
    let ghost pre = draws@;
    if present {
        draws.push(DrawCall::Part(mesh, tex));
        proof {
            assert forall|t: int| 0 <= t < draws@.len() implies draws_model(draws@)[t]
                == (draws_model(pre) + seq![DrawModel::Part(mesh, tex@)])[t] by {
                lemma_draws_model_index(draws@, t);
                if t < pre.len() {
                    lemma_draws_model_index(pre, t);
                }
            }
            assert(draws_model(draws@) =~= draws_model(pre) + seq![
                DrawModel::Part(mesh, tex@),
            ]);
        }
    } else {
        proof {
            assert(draws_model(draws@) =~= draws_model(pre) + Seq::<DrawModel>::empty());
        }
    }
}

/// Emits the draw list of a finished scene state in the fixed order: the
/// six base parts, then every overlay, then every hat.
fn emit_draws(
    trso_tex: PartTexture,
    rarm_tex: PartTexture,
    larm_tex: PartTexture,
    head_tex: PartTexture,
    lleg_tex: PartTexture,
    rleg_tex: PartTexture,
    head_mesh: HeadMesh,
    overlays: Vec<TextureImage>,
    hats: Vec<usize>,
    meshes: &StaticMeshes,
    Ghost(s): Ghost<SceneModel>,
) -> (draws: Vec<DrawCall>)
    requires
        trso_tex@ == s.trso,
        rarm_tex@ == s.rarm,
        larm_tex@ == s.larm,
        head_tex@ == s.head,
        lleg_tex@ == s.lleg,
        rleg_tex@ == s.rleg,
        head_mesh == s.head_mesh,
        overlay_images(overlays@) == s.overlays,
        hats@ == s.hats,
    ensures
        draws_model(draws@) == scene_draws(s, *meshes),
{
    let mut draws: Vec<DrawCall> = Vec::new();
    proof {
        assert(draws_model(draws@) =~= Seq::<DrawModel>::empty());
    }
    push_part(&mut draws, meshes.trso, PartMesh::Trso, trso_tex);
    push_part(&mut draws, meshes.rarm, PartMesh::Rarm, rarm_tex);
    push_part(&mut draws, meshes.larm, PartMesh::Larm, larm_tex);
    match head_mesh {
        HeadMesh::Default => {
            push_part(&mut draws, meshes.head, PartMesh::HeadDefault, head_tex);
        },
        HeadMesh::Swapped(m) => {
            push_part(&mut draws, true, PartMesh::HeadSwapped(m), head_tex);
        },
    }
    push_part(&mut draws, meshes.lleg, PartMesh::Lleg, lleg_tex);
    push_part(&mut draws, meshes.rleg, PartMesh::Rleg, rleg_tex);
    proof {
        assert(draws_model(draws@) =~= base_draws(s, *meshes));
    }
    let ghost base = draws_model(draws@);
    let ghost ov = s.overlays;
    let mut k: usize = 0;
    while k < overlays.len()
        invariant
            k <= overlays@.len(),
            overlay_images(overlays@) == ov,
            ov.len() == overlays@.len(),
            draws@.len() == base.len() + k,
            draws_model(draws@) == base + overlay_calls(ov.take(k as int)),
        decreases overlays@.len() - k,
    {
        let img = duplicate_image(&overlays[k]);
        proof {
            lemma_overlay_images_index(overlays@, k as int);
            assert(img@ == ov[k as int]);
        }
        let ghost pre_d = draws@;
        draws.push(DrawCall::Overlay(img));
        proof {
            assert forall|t: int| 0 <= t < draws@.len() implies draws_model(draws@)[t] == (base
                + overlay_calls(ov.take(k as int + 1)))[t] by {
                lemma_draws_model_index(draws@, t);
                if t < pre_d.len() {
                    lemma_draws_model_index(pre_d, t);
                    if t >= base.len() {
                        lemma_overlay_calls_index(ov.take(k as int), t - base.len());
                        lemma_overlay_calls_index(ov.take(k as int + 1), t - base.len());
                    }
                } else {
                    lemma_overlay_calls_index(ov.take(k as int + 1), t - base.len());
                }
            }
            assert(draws_model(draws@) =~= base + overlay_calls(ov.take(k as int + 1)));
        }
        k = k + 1;
    }
    proof {
        assert(ov.take(ov.len() as int) =~= ov);
        assert(draws_model(draws@) == base + overlay_draws(s));
    }
    let ghost with_overlays = draws_model(draws@);
    let ghost hv = s.hats;
    let mut j: usize = 0;
    while j < hats.len()
        invariant
            j <= hats@.len(),
            hats@ == hv,
            hv.len() == hats@.len(),
            draws@.len() == with_overlays.len() + j,
            draws_model(draws@) == with_overlays + hat_calls(hv.take(j as int)),
        decreases hats@.len() - j,
    {
        let ghost pre_d = draws@;
        draws.push(DrawCall::Hat(hats[j]));
        proof {
            assert forall|t: int| 0 <= t < draws@.len() implies draws_model(draws@)[t]
                == (with_overlays + hat_calls(hv.take(j as int + 1)))[t] by {
                lemma_draws_model_index(draws@, t);
                if t < pre_d.len() {
                    lemma_draws_model_index(pre_d, t);
                    if t >= with_overlays.len() {
                        lemma_hat_calls_index(hv.take(j as int), t - with_overlays.len());
                        lemma_hat_calls_index(hv.take(j as int + 1), t - with_overlays.len());
                    }
                } else {
                    lemma_hat_calls_index(hv.take(j as int + 1), t - with_overlays.len());
                }
            }
            assert(draws_model(draws@) =~= with_overlays + hat_calls(hv.take(j as int + 1)));
        }
        j = j + 1;
    }
    proof {
        assert(hv.take(hv.len() as int) =~= hv);
        assert(draws_model(draws@) =~= scene_draws(s, *meshes));
    }
    draws
}

/// Index of a mapped draw list.
proof fn lemma_draws_model_index(ds: Seq<DrawCall>, t: int)
    requires
        0 <= t < ds.len(),
    ensures
        draws_model(ds)[t] == ds[t]@,
{
}

/// Index of a mapped image list.
proof fn lemma_overlay_images_index(ts: Seq<TextureImage>, t: int)
    requires
        0 <= t < ts.len(),
    ensures
        overlay_images(ts)[t] == ts[t]@,
{
}

/// Index of a mapped overlay-call list.
proof fn lemma_overlay_calls_index(imgs: Seq<ImageModel>, t: int)
    requires
        0 <= t < imgs.len(),
    ensures
        overlay_calls(imgs)[t] == DrawModel::Overlay(imgs[t]),
{
}

/// Index of a mapped hat-call list.
proof fn lemma_hat_calls_index(hs: Seq<usize>, t: int)
    requires
        0 <= t < hs.len(),
    ensures
        hat_calls(hs)[t] == DrawModel::Hat(hs[t]),
{
}

/// With an empty equipped-item list, no default face image and all six base
/// meshes present, the composited scene is exactly the six default body
/// parts with their resolved flat colors, in the fixed draw order, with no
/// overlays and no hats.
pub proof fn empty_job_draws_flat_parts(colors: ResolvedColors, meshes: StaticMeshes)
    requires
        meshes.head,
        meshes.trso,
        meshes.rarm,
        meshes.larm,
        meshes.rleg,
        meshes.lleg,
    ensures
        scene_draws(compose_model(Seq::empty(), Seq::empty(), colors, None, meshes, 0), meshes)
            == seq![
            DrawModel::Part(PartMesh::Trso, TexModel::Flat(colors.trso)),
            DrawModel::Part(PartMesh::Rarm, TexModel::Flat(colors.rarm)),
            DrawModel::Part(PartMesh::Larm, TexModel::Flat(colors.larm)),
            DrawModel::Part(PartMesh::HeadDefault, TexModel::Flat(colors.head)),
            DrawModel::Part(PartMesh::Lleg, TexModel::Flat(colors.lleg)),
            DrawModel::Part(PartMesh::Rleg, TexModel::Flat(colors.rleg)),
        ],
{
    let s = compose_model(Seq::empty(), Seq::empty(), colors, None, meshes, 0);
    assert(s == initial_scene(colors, None));
    assert(scene_draws(s, meshes) =~= seq![
        DrawModel::Part(PartMesh::Trso, TexModel::Flat(colors.trso)),
        DrawModel::Part(PartMesh::Rarm, TexModel::Flat(colors.rarm)),
        DrawModel::Part(PartMesh::Larm, TexModel::Flat(colors.larm)),
        DrawModel::Part(PartMesh::HeadDefault, TexModel::Flat(colors.head)),
        DrawModel::Part(PartMesh::Lleg, TexModel::Flat(colors.lleg)),
        DrawModel::Part(PartMesh::Rleg, TexModel::Flat(colors.rleg)),
    ]);
}

/// A shirt with a loaded image assigns three independent composites of that
/// one image: torso, right arm and left arm are each composited against
/// their own resolved color.
pub proof fn shirt_sets_three_composites(
    s: SceneModel,
    item: ItemModel,
    img: ImageModel,
    colors: ResolvedColors,
    meshes: StaticMeshes,
)
    requires
        item_has_asset(item),
        item.item_type == ITEM_SHIRT,
    ensures
        apply_item(s, item, LoadedModel::Image(img), colors, meshes).trso == TexModel::Image(
            recolored_image(img, colors.trso),
        ),
        apply_item(s, item, LoadedModel::Image(img), colors, meshes).rarm == TexModel::Image(
            recolored_image(img, colors.rarm),
        ),
        apply_item(s, item, LoadedModel::Image(img), colors, meshes).larm == TexModel::Image(
            recolored_image(img, colors.larm),
        ),
{
}

/// The arm textures never depend on the torso's resolved color: two color
/// sets that agree everywhere but on the torso yield the same right-arm and
/// left-arm textures, whatever the items were.
pub proof fn arms_independent_of_torso_color(
    items: Seq<ItemModel>,
    loaded: Seq<LoadedModel>,
    c1: ResolvedColors,
    c2: ResolvedColors,
    face: Option<ImageModel>,
    meshes: StaticMeshes,
    n: int,
)
    requires
        c1.head == c2.head,
        c1.rarm == c2.rarm,
        c1.larm == c2.larm,
        c1.rleg == c2.rleg,
        c1.lleg == c2.lleg,
    ensures
        compose_model(items, loaded, c1, face, meshes, n).rarm == compose_model(
            items,
            loaded,
            c2,
            face,
            meshes,
            n,
        ).rarm,
        compose_model(items, loaded, c1, face, meshes, n).larm == compose_model(
            items,
            loaded,
            c2,
            face,
            meshes,
            n,
        ).larm,
    decreases n,
{
    if n > 0 {
        arms_independent_of_torso_color(items, loaded, c1, c2, face, meshes, n - 1);
    }
}

/// Every element of the base segment of the draw list is a body-part draw.
#[verifier::rlimit(100)]
proof fn base_draws_all_parts(s: SceneModel, meshes: StaticMeshes)
    ensures
        forall|t: int| 0 <= t < base_draws(s, meshes).len() ==> base_draws(s, meshes)[t] is Part,
{
    let d1 = if meshes.trso {
        seq![DrawModel::Part(PartMesh::Trso, s.trso)]
    } else {
        Seq::<DrawModel>::empty()
    };
    let d2 = if meshes.rarm {
        seq![DrawModel::Part(PartMesh::Rarm, s.rarm)]
    } else {
        Seq::<DrawModel>::empty()
    };
    let d3 = if meshes.larm {
        seq![DrawModel::Part(PartMesh::Larm, s.larm)]
    } else {
        Seq::<DrawModel>::empty()
    };
    let dh = head_draw(s, meshes);
    let d5 = if meshes.lleg {
        seq![DrawModel::Part(PartMesh::Lleg, s.lleg)]
    } else {
        Seq::<DrawModel>::empty()
    };
    let d6 = if meshes.rleg {
        seq![DrawModel::Part(PartMesh::Rleg, s.rleg)]
    } else {
        Seq::<DrawModel>::empty()
    };
    assert(base_draws(s, meshes) == d1 + d2 + d3 + dh + d5 + d6);
    assert(forall|u: int| 0 <= u < d1.len() ==> d1[u] is Part);
    assert(forall|u: int| 0 <= u < d2.len() ==> d2[u] is Part);
    assert(forall|u: int| 0 <= u < d3.len() ==> d3[u] is Part);
    assert(forall|u: int| 0 <= u < dh.len() ==> dh[u] is Part);
    assert(forall|u: int| 0 <= u < d5.len() ==> d5[u] is Part);
    assert(forall|u: int| 0 <= u < d6.len() ==> d6[u] is Part);
}

/// Draw order invariant: every overlay draw comes after every base
/// body-part draw, for every scene and so for every ordering of the input
/// item list.
pub proof fn overlays_drawn_after_parts(s: SceneModel, meshes: StaticMeshes, i: int, j: int)
    requires
        0 <= i < scene_draws(s, meshes).len(),
        0 <= j < scene_draws(s, meshes).len(),
        scene_draws(s, meshes)[i] is Part,
        scene_draws(s, meshes)[j] is Overlay,
    ensures
        i < j,
{
    let b = base_draws(s, meshes);
    let o = overlay_draws(s);
    let h = hat_draws(s);
    assert forall|t: int| 0 <= t < o.len() implies o[t] is Overlay by {
        lemma_overlay_calls_index(s.overlays, t);
    }
    assert forall|t: int| 0 <= t < h.len() implies h[t] is Hat by {
        lemma_hat_calls_index(s.hats, t);
    }
    base_draws_all_parts(s, meshes);
    assert(i < b.len());
    assert(j >= b.len());
}

} // verus!
