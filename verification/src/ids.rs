//! The identifier families of the game.
use vstd::prelude::*;
use crate::id_realm::{IdDomain, IdRealm, RealmId};

verus! {

/// Identifies a tag.
#[derive(Debug, Copy, Clone, Hash, PartialEq, Eq, PartialOrd, Ord, Structural)]
pub struct TagID(u32);

impl TagID {
    pub fn from_raw(value: u32) -> (r: TagID)
        ensures
            r.raw() == value,
    {
        TagID(value)
    }

    pub fn get_raw(&self) -> (r: u32)
        ensures
            r == self.raw(),
    {
        self.0
    }
}

impl RealmId for TagID {
    closed spec fn raw(self) -> u32 {
        self.0
    }

    fn from_raw(value: u32) -> (r: TagID) {
        TagID(value)
    }

    fn get_raw(&self) -> (r: u32) {
        self.0
    }

    proof fn lemma_raw_injective(a: TagID, b: TagID) {
    }
}

/// Generates fresh `TagID`s.
pub type TagIDDomain = IdDomain<TagID>;

/// Values keyed by `TagID`.
pub type TagIDRealm<T> = IdRealm<TagID, T>;

/// Identifies a palette entry.
#[derive(Debug, Copy, Clone, Hash, PartialEq, Eq, PartialOrd, Ord, Structural)]
pub struct PaletteEntryID(u32);

impl PaletteEntryID {
    pub fn from_raw(value: u32) -> (r: PaletteEntryID)
        ensures
            r.raw() == value,
    {
        PaletteEntryID(value)
    }

    pub fn get_raw(&self) -> (r: u32)
        ensures
            r == self.raw(),
    {
        self.0
    }
}

impl RealmId for PaletteEntryID {
    closed spec fn raw(self) -> u32 {
        self.0
    }

    fn from_raw(value: u32) -> (r: PaletteEntryID) {
        PaletteEntryID(value)
    }

    fn get_raw(&self) -> (r: u32) {
        self.0
    }

    proof fn lemma_raw_injective(a: PaletteEntryID, b: PaletteEntryID) {
    }
}

/// Generates fresh `PaletteEntryID`s.
pub type PaletteEntryIDDomain = IdDomain<PaletteEntryID>;

/// Values keyed by `PaletteEntryID`.
pub type PaletteEntryIDRealm<T> = IdRealm<PaletteEntryID, T>;

/// Identifies a mesh resource.
#[derive(Debug, Copy, Clone, Hash, PartialEq, Eq, PartialOrd, Ord, Structural)]
pub struct MeshID(u32);

impl MeshID {
    pub fn from_raw(value: u32) -> (r: MeshID)
        ensures
            r.raw() == value,
    {
        MeshID(value)
    }

    pub fn get_raw(&self) -> (r: u32)
        ensures
            r == self.raw(),
    {
        self.0
    }
}

impl RealmId for MeshID {
    closed spec fn raw(self) -> u32 {
        self.0
    }

    fn from_raw(value: u32) -> (r: MeshID) {
        MeshID(value)
    }

    fn get_raw(&self) -> (r: u32) {
        self.0
    }

    proof fn lemma_raw_injective(a: MeshID, b: MeshID) {
    }
}

/// Generates fresh `MeshID`s.
pub type MeshIDDomain = IdDomain<MeshID>;

/// Values keyed by `MeshID`.
pub type MeshIDRealm<T> = IdRealm<MeshID, T>;

/// Identifies a scene.
#[derive(Debug, Copy, Clone, Hash, PartialEq, Eq, PartialOrd, Ord, Structural)]
pub struct SceneID(u32);

impl SceneID {
    pub fn from_raw(value: u32) -> (r: SceneID)
        ensures
            r.raw() == value,
    {
        SceneID(value)
    }

    pub fn get_raw(&self) -> (r: u32)
        ensures
            r == self.raw(),
    {
        self.0
    }
}

impl RealmId for SceneID {
    closed spec fn raw(self) -> u32 {
        self.0
    }

    fn from_raw(value: u32) -> (r: SceneID) {
        SceneID(value)
    }

    fn get_raw(&self) -> (r: u32) {
        self.0
    }

    proof fn lemma_raw_injective(a: SceneID, b: SceneID) {
    }
}

/// Generates fresh `SceneID`s.
pub type SceneIDDomain = IdDomain<SceneID>;

/// Values keyed by `SceneID`.
pub type SceneIDRealm<T> = IdRealm<SceneID, T>;

/// Identifies a saved game.
#[derive(Debug, Copy, Clone, Hash, PartialEq, Eq, PartialOrd, Ord, Structural)]
pub struct SaveID(u32);

impl SaveID {
    pub fn from_raw(value: u32) -> (r: SaveID)
        ensures
            r.raw() == value,
    {
        SaveID(value)
    }

    pub fn get_raw(&self) -> (r: u32)
        ensures
            r == self.raw(),
    {
        self.0
    }
}

impl RealmId for SaveID {
    closed spec fn raw(self) -> u32 {
        self.0
    }

    fn from_raw(value: u32) -> (r: SaveID) {
        SaveID(value)
    }

    fn get_raw(&self) -> (r: u32) {
        self.0
    }

    proof fn lemma_raw_injective(a: SaveID, b: SaveID) {
    }
}

/// Generates fresh `SaveID`s.
pub type SaveIDDomain = IdDomain<SaveID>;

/// Values keyed by `SaveID`.
pub type SaveIDRealm<T> = IdRealm<SaveID, T>;

/// Identifies an entity of a scene.
#[derive(Debug, Copy, Clone, Hash, PartialEq, Eq, PartialOrd, Ord, Structural)]
pub struct EntityID(u32);

impl EntityID {
    pub fn from_raw(value: u32) -> (r: EntityID)
        ensures
            r.raw() == value,
    {
        EntityID(value)
    }

    pub fn get_raw(&self) -> (r: u32)
        ensures
            r == self.raw(),
    {
        self.0
    }
}

impl RealmId for EntityID {
    closed spec fn raw(self) -> u32 {
        self.0
    }

    fn from_raw(value: u32) -> (r: EntityID) {
        EntityID(value)
    }

    fn get_raw(&self) -> (r: u32) {
        self.0
    }

    proof fn lemma_raw_injective(a: EntityID, b: EntityID) {
    }
}

/// Generates fresh `EntityID`s.
pub type EntityIDDomain = IdDomain<EntityID>;

/// Values keyed by `EntityID`.
pub type EntityIDRealm<T> = IdRealm<EntityID, T>;

} // verus!
