//! Materials, their identities, and the table that holds them.

use vstd::prelude::*;

verus! {

/// How triangles are rasterised.
#[derive(Clone, Copy, Debug, PartialEq, Eq, Structural)]
pub enum PolygonMode {
    Fill,
    Line,
    Point,
}

/// A factor of a blend equation.
#[derive(Clone, Copy, Debug, PartialEq, Eq, Structural)]
pub enum BlendFactor {
    Zero,
    One,
    Src,
    OneMinusSrc,
    SrcAlpha,
    OneMinusSrcAlpha,
    Dst,
    OneMinusDst,
    DstAlpha,
    OneMinusDstAlpha,
    SrcAlphaSaturated,
    Constant,
    OneMinusConstant,
}

/// The operation that joins the two sides of a blend equation.
#[derive(Clone, Copy, Debug, PartialEq, Eq, Structural)]
pub enum BlendOperation {
    Add,
    Subtract,
    ReverseSubtract,
    Min,
    Max,
}

/// One blend equation.
#[derive(Clone, Copy, Debug, PartialEq, Eq, Structural)]
pub struct BlendComponent {
    pub src_factor: BlendFactor,
    pub dst_factor: BlendFactor,
    pub operation: BlendOperation,
}

/// The blend equations for colour and for alpha.
#[derive(Clone, Copy, Debug, PartialEq, Eq, Structural)]
pub struct BlendState {
    pub color: BlendComponent,
    pub alpha: BlendComponent,
}

/// The material that a handle starts with.
#[derive(Clone, Copy, Debug, PartialEq, Eq, Structural)]
pub struct DefaultMaterial {
    pub blend: Option<BlendState>,
    pub polygon_mode: PolygonMode,
}

/// A material of the caller's own making. The recorder keeps its payload
/// and never looks inside.
#[derive(Clone, Copy, Debug, PartialEq, Eq, Structural)]
pub struct CustomMaterial {
    pub shape: u64,
    pub payload: u128,
}

/// The declared shape of a material.
#[derive(Clone, Copy, Debug, PartialEq, Eq, Structural)]
pub enum MaterialType {
    Default,
    Custom(u64),
}

/// A material value as the table stores it.
#[derive(Clone, Copy, Debug, PartialEq, Eq, Structural)]
pub enum Material {
    Default(DefaultMaterial),
    Custom(CustomMaterial),
}

/// The identity of a bound material: its declared shape and an instance
/// number that tells apart materials bound separately.
#[derive(Clone, Copy, Debug, PartialEq, Eq, Structural)]
pub struct MaterialId {
    pub type_tag: MaterialType,
    pub uuid: u128,
}

/// The three numbers that a material id is stored under: a number for the
/// kind of shape, the shape's own number, and the instance number.
pub type MaterialKey = (u64, u64, u128);

impl MaterialId {
    /// The numbers that this id is stored under. Two ids have the same
    /// numbers only if they are the same id.
    pub open spec fn spec_key(self) -> MaterialKey {
        match self.type_tag {
            MaterialType::Default => (0u64, 0u64, self.uuid),
            MaterialType::Custom(shape) => (1u64, shape, self.uuid),
        }
    }

    /// The numbers that this id is stored under.
    pub fn key(&self) -> (key: MaterialKey)
        ensures
            key == self.spec_key(),
    {
        match self.type_tag {
            MaterialType::Default => (0u64, 0u64, self.uuid),
            MaterialType::Custom(shape) => (1u64, shape, self.uuid),
        }
    }
}

/// Why a material could not be handed out.
#[derive(Clone, Copy, Debug, PartialEq, Eq, Structural)]
pub enum MaterialError {
    /// No material is bound under the id.
    Unknown,
    /// The stored material is not of the shape that the id declares.
    TypeMismatch,
}

impl Default for DefaultMaterial {
    fn default() -> (material: DefaultMaterial)
        ensures
            material == (DefaultMaterial { blend: None, polygon_mode: PolygonMode::Fill }),
    {
        DefaultMaterial { blend: None, polygon_mode: PolygonMode::Fill }
    }
}

impl Material {
    /// The declared shape of this value.
    pub open spec fn spec_type_tag(self) -> MaterialType {
        match self {
            Material::Default(_) => MaterialType::Default,
            Material::Custom(custom) => MaterialType::Custom(custom.shape),
        }
    }

    /// The declared shape of this value.
    pub fn type_tag(&self) -> (tag: MaterialType)
        ensures
            tag == self.spec_type_tag(),
    {
        match self {
            Material::Default(_) => MaterialType::Default,
            Material::Custom(custom) => MaterialType::Custom(custom.shape),
        }
    }
}

/// The version and variant bits of a random identifier.
pub const RANDOM_ID_MASK: u128 = 0x0000_0000_0000_F000_C000_0000_0000_0000;

/// What the version and variant bits of a random identifier hold.
pub const RANDOM_ID_BITS: u128 = 0x0000_0000_0000_4000_8000_0000_0000_0000;

/// Draws an instance number with `uuid::Uuid::new_v4` and reads it with
/// `Uuid::as_u128`. The number is random; only its version and variant bits
/// are fixed, and only that is claimed.
#[verifier::external_body]
pub(crate) fn random_instance_number() -> (number: u128)
    ensures
        number & RANDOM_ID_MASK == RANDOM_ID_BITS,
{
    uuid::Uuid::new_v4().as_u128()
}

/// The table of bound materials, keyed by the numbers of their ids. It
/// holds a `bevy::utils::HashMap`, which Verus does not look into.
#[verifier::external_body]
pub struct MaterialTable {
    inner: bevy::utils::HashMap<(u64, u64, u128), Material>,
}

/// What a material table holds.
pub uninterp spec fn material_table_contents(table: MaterialTable) -> Map<
    (u64, u64, u128),
    Material,
>;

/// `bevy::utils::HashMap::default`: a table that holds nothing.
#[verifier::external_body]
pub(crate) fn material_table_new() -> (table: MaterialTable)
    ensures
        material_table_contents(table).dom() =~= Set::empty(),
{
    MaterialTable { inner: bevy::utils::HashMap::default() }
}

/// `bevy::utils::HashMap::insert`: the value stands under the key afterwards, in place
/// of any earlier one; the other entries stay.
#[verifier::external_body]
pub(crate) fn material_table_insert(table: &mut MaterialTable, key: MaterialKey, value: Material)
    ensures
        material_table_contents(*final(table)) == material_table_contents(*old(table)).insert(
            key,
            value,
        ),
{
    table.inner.insert(key, value);
}

/// `bevy::utils::HashMap::get`: the value under the key, if there is one.
#[verifier::external_body]
pub(crate) fn material_table_get(table: &MaterialTable, key: MaterialKey) -> (found: Option<&Material>)
    ensures
        found.is_some() == material_table_contents(*table).contains_key(key),
        found.is_some() ==> *found.unwrap() == material_table_contents(*table)[key],
{
    table.inner.get(&key)
}

/// `bevy::utils::HashMap::get_mut`: the place of the value under the key, if there is
/// one. What is written there stands under the key afterwards; the other
/// entries stay.
#[verifier::external_body]
pub(crate) fn material_table_get_mut(table: &mut MaterialTable, key: MaterialKey) -> (found: Option<
    &mut Material,
>)
    ensures
        found.is_some() == material_table_contents(*old(table)).contains_key(key),
        found.is_some() ==> *found.unwrap() == material_table_contents(*old(table))[key]
            && material_table_contents(*final(table)) == material_table_contents(
            *old(table),
        ).insert(key, *final(found.unwrap())),
        found.is_none() ==> material_table_contents(*final(table)) == material_table_contents(
            *old(table),
        ),
{
    table.inner.get_mut(&key)
}

/// `bevy::utils::HashMap::clear`: nothing is left.
#[verifier::external_body]
pub(crate) fn material_table_clear(table: &mut MaterialTable)
    ensures
        material_table_contents(*final(table)).dom() =~= Set::empty(),
{
    table.inner.clear();
}

} // verus!
