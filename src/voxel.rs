//! Voxel scenes: taking the first model and resolving each voxel to a block.

use vstd::prelude::*;
use crate::color::{blue_of, color_key_of, green_of, key_chars, red_of};
use crate::error::BuildError;
use crate::palette::{palette_lookup, PaletteMap};

verus! {

/// One voxel of a model: its local position and its index in the color table.
#[derive(Clone, Copy, PartialEq, Eq, Structural, Debug)]
pub struct VoxelRecord {
    pub x: u8,
    pub y: u8,
    pub z: u8,
    pub i: u8,
}

/// The extent of a model along each axis.
#[derive(Clone, Copy, PartialEq, Eq, Structural, Debug)]
pub struct MinecraftVoxSize {
    pub x: u32,
    pub y: u32,
    pub z: u32,
}

/// One model of a scene: its voxels, in the scene's order, and its extent.
#[derive(Clone, Debug)]
pub struct VoxelModel {
    pub voxels: Vec<VoxelRecord>,
    pub size: MinecraftVoxSize,
}

/// A scene as the decoder reads it: all of its models and its shared table of
/// packed colors.
#[derive(Clone, Debug)]
pub struct VoxScene {
    pub models: Vec<VoxelModel>,
    pub palette: Vec<u32>,
}

/// The model that a build uses, with the scene's color table.
#[derive(Clone, Debug)]
pub struct DecodedModel {
    pub model: VoxelModel,
    pub colors: Vec<u32>,
}

/// A voxel resolved to its color key and block identifier.
#[derive(Clone, Debug)]
pub struct MinecraftBlockInfo {
    pub x: u32,
    pub y: u32,
    pub z: u32,
    pub i: u8,
    pub color: String,
    pub block_type: String,
}

/// A model whose voxels are all resolved to blocks.
#[derive(Clone, Debug)]
pub struct MinecraftVox {
    pub blocks: Vec<MinecraftBlockInfo>,
    pub size: MinecraftVoxSize,
}

impl View for VoxelModel {
    type V = (Seq<VoxelRecord>, MinecraftVoxSize);

    open spec fn view(&self) -> (Seq<VoxelRecord>, MinecraftVoxSize) {
        (self.voxels@, self.size)
    }
}

impl View for VoxScene {
    type V = (Seq<(Seq<VoxelRecord>, MinecraftVoxSize)>, Seq<u32>);

    open spec fn view(&self) -> (Seq<(Seq<VoxelRecord>, MinecraftVoxSize)>, Seq<u32>) {
        (self.models@.map_values(|m: VoxelModel| m@), self.palette@)
    }
}

/// The first model of a scene; the others are not used.
pub fn first_model(scene: VoxScene) -> (r: Result<DecodedModel, BuildError>)
    ensures
        scene.models@.len() == 0 ==> r == Err::<DecodedModel, BuildError>(BuildError::Decode),
        scene.models@.len() > 0 ==> (r matches Ok(d) && d.model@ == scene.models@[0]@ && d.colors@
            == scene.palette@),
{
    let mut scene = scene;
    if scene.models.len() == 0 {
        return Err(BuildError::Decode);
    }
    let model = scene.models.remove(0);
    Ok(DecodedModel { model, colors: scene.palette })
}

/// The color key and block of one voxel, or why it has none.
pub open spec fn voxel_outcome(
    v: VoxelRecord,
    colors: Seq<u32>,
    pal: Seq<(Seq<char>, Seq<char>)>,
) -> Result<(Seq<char>, Seq<char>), BuildError> {
    if v.i as int >= colors.len() {
        Err(BuildError::Decode)
    } else {
        let c = colors[v.i as int];
        let key = key_chars(red_of(c), green_of(c), blue_of(c));
        match palette_lookup(pal, key) {
            Some(b) => Ok((key, b)),
            None => Err(BuildError::PaletteMiss),
        }
    }
}

/// `b` is the block that voxel `v` resolves to.
pub open spec fn resolves_to(
    b: MinecraftBlockInfo,
    v: VoxelRecord,
    colors: Seq<u32>,
    pal: Seq<(Seq<char>, Seq<char>)>,
) -> bool {
    &&& b.x == v.x as u32
    &&& b.y == v.y as u32
    &&& b.z == v.z as u32
    &&& b.i == v.i
    &&& voxel_outcome(v, colors, pal) == Ok::<(Seq<char>, Seq<char>), BuildError>(
        (b.color@, b.block_type@),
    )
}

/// The voxel at `k` is the first that cannot be resolved, for reason `e`.
pub open spec fn first_failure(
    voxels: Seq<VoxelRecord>,
    colors: Seq<u32>,
    pal: Seq<(Seq<char>, Seq<char>)>,
    k: int,
    e: BuildError,
) -> bool {
    &&& 0 <= k < voxels.len()
    &&& voxel_outcome(voxels[k], colors, pal) == Err::<(Seq<char>, Seq<char>), BuildError>(e)
    &&& forall|j: int| 0 <= j < k ==> voxel_outcome(#[trigger] voxels[j], colors, pal) is Ok
}

/// Resolves every voxel of a decoded model, in order; the first voxel that
/// cannot be resolved stops the whole model.
pub fn resolve_model(decoded: &DecodedModel, palette: &PaletteMap) -> (r: Result<
    MinecraftVox,
    BuildError,
>)
    ensures
        match r {
            Ok(vox) => {
                &&& vox.size == decoded.model.size
                &&& vox.blocks@.len() == decoded.model.voxels@.len()
                &&& forall|k: int|
                    0 <= k < vox.blocks@.len() ==> resolves_to(
                        #[trigger] vox.blocks@[k],
                        decoded.model.voxels@[k],
                        decoded.colors@,
                        palette@,
                    )
            },
            Err(e) => exists|k: int|
                first_failure(decoded.model.voxels@, decoded.colors@, palette@, k, e),
        },
{
    let voxels = &decoded.model.voxels;
    let colors = &decoded.colors;
    let mut blocks: Vec<MinecraftBlockInfo> = Vec::new();
    let mut k: usize = 0;
    while k < voxels.len()
        invariant
            k <= voxels@.len(),
            blocks@.len() == k,
            voxels == &decoded.model.voxels,
            colors == &decoded.colors,
            forall|j: int|
                0 <= j < k ==> resolves_to(#[trigger] blocks@[j], voxels@[j], colors@, palette@),
        decreases voxels@.len() - k,
    {
        let v = voxels[k];
        if v.i as usize >= colors.len() {
            proof {
                assert forall|j: int| 0 <= j < k implies voxel_outcome(
                    #[trigger] voxels@[j],
                    colors@,
                    palette@,
                ) is Ok by {
                    assert(resolves_to(blocks@[j], voxels@[j], colors@, palette@));
                }
                assert(first_failure(voxels@, colors@, palette@, k as int, BuildError::Decode));
            }
            return Err(BuildError::Decode);
        }
        let color = color_key_of(colors[v.i as usize]);
        match palette.lookup(&color) {
            Some(block_type) => {
                blocks.push(
                    MinecraftBlockInfo {
                        x: v.x as u32,
                        y: v.y as u32,
                        z: v.z as u32,
                        i: v.i,
                        color,
                        block_type,
                    },
                );
            },
            None => {
                proof {
                    assert forall|j: int| 0 <= j < k implies voxel_outcome(
                        #[trigger] voxels@[j],
                        colors@,
                        palette@,
                    ) is Ok by {
                        assert(resolves_to(blocks@[j], voxels@[j], colors@, palette@));
                    }
                    assert(first_failure(
                        voxels@,
                        colors@,
                        palette@,
                        k as int,
                        BuildError::PaletteMiss,
                    ));
                }
                return Err(BuildError::PaletteMiss);
            },
        }
        k = k + 1;
    }
    Ok(MinecraftVox { blocks, size: decoded.model.size })
}

/// `r` is what loading the first model of `scene` against the palette `pal`
/// gives: a decode failure where the scene holds no model, the first voxel that
/// cannot be resolved, or every voxel of the first model resolved, in order.
pub open spec fn vox_agrees(
    scene: (Seq<(Seq<VoxelRecord>, MinecraftVoxSize)>, Seq<u32>),
    pal: Seq<(Seq<char>, Seq<char>)>,
    r: Result<MinecraftVox, BuildError>,
) -> bool {
    if scene.0.len() == 0 {
        r == Err::<MinecraftVox, BuildError>(BuildError::Decode)
    } else {
        match r {
            Ok(vox) => {
                &&& vox.size == scene.0[0].1
                &&& vox.blocks@.len() == scene.0[0].0.len()
                &&& forall|k: int|
                    0 <= k < vox.blocks@.len() ==> resolves_to(
                        #[trigger] vox.blocks@[k],
                        scene.0[0].0[k],
                        scene.1,
                        pal,
                    )
            },
            Err(e) => exists|k: int| first_failure(scene.0[0].0, scene.1, pal, k, e),
        }
    }
}

/// Resolves the voxels of a scene's first model against the palette.
pub fn load_vox(scene: VoxScene, palette: &PaletteMap) -> (r: Result<MinecraftVox, BuildError>)
    ensures
        vox_agrees(scene@, palette@, r),
{
    let ghost sv = scene@;
    match first_model(scene) {
        Ok(decoded) => {
            let r = resolve_model(&decoded, palette);
            proof {
                assert(sv.0[0] == decoded.model@);
                if let Err(e) = r {
                    let k = choose|k: int|
                        first_failure(decoded.model.voxels@, decoded.colors@, palette@, k, e);
                    assert(first_failure(sv.0[0].0, sv.1, palette@, k, e));
                }
            }
            r
        },
        Err(e) => Err(e),
    }
}

} // verus!
