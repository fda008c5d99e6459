//! Item stacks and the recipe catalogue: a union of recipe kinds named by a
//! string tag, one of which sizes its ingredient list by a grid's width and
//! height instead of a count.
use vstd::prelude::*;
use vstd::pervasive::arbitrary;
use vstd::seq_lib::lemma_concat_associative;
use crate::codec::{Codec, DeserializeErr, SpecResult, read_matches};
use crate::varnum::{VarInt, spec_varint_serialize, spec_varint_deserialize};
use crate::primitives::{
    Float32, write_str, str_eq, lemma_tag_encodable, spec_string_serialize, spec_string_deserialize,
};
use crate::containers::{
    VarIntCountedArray, models, all_encodable, all_legal, spec_serialize_all, spec_deserialize_n,
    lemma_deserialize_n_round_trip, write_all, read_n,
};
use crate::nbt::NamedNbtTag;

verus! {

/// An item stack as values.
pub struct SlotModel {
    pub item_id: i32,
    pub item_count: i8,
    pub nbt: Option<Seq<u8>>,
}

/// An item stack: item id, count, and an optional tag. A missing tag is a
/// single end-tag byte.
#[derive(Debug, Clone, PartialEq, Eq)]
pub struct Slot {
    pub item_id: VarInt,
    pub item_count: i8,
    pub nbt: Option<NamedNbtTag>,
}

pub open spec fn spec_nbt_bytes(o: Option<Seq<u8>>) -> Seq<u8> {
    match o {
        Some(raw) => raw,
        None => seq![0u8],
    }
}

/// An end-tag byte means no tag; anything else starts one.
pub open spec fn spec_read_nbt(s: Seq<u8>) -> SpecResult<Option<Seq<u8>>> {
    match u8::spec_deserialize(s) {
        Err(e) => Err(e),
        Ok((b, r)) => if b == 0 {
            Ok((None, r))
        } else {
            match NamedNbtTag::spec_deserialize(s) {
                Err(e) => Err(e),
                Ok((t, r2)) => Ok((Some(t), r2)),
            }
        },
    }
}

impl Codec for Slot {
    type Model = SlotModel;

    open spec fn model(&self) -> SlotModel {
        SlotModel { item_id: self.item_id.0, item_count: self.item_count, nbt: self.nbt.model() }
    }

    open spec fn encodable(m: SlotModel) -> bool {
        true
    }

    open spec fn legal(m: SlotModel) -> bool {
        Option::<NamedNbtTag>::legal(m.nbt)
    }

    open spec fn spec_serialize(m: SlotModel) -> Seq<u8> {
        spec_varint_serialize(m.item_id) + i8::spec_serialize(m.item_count) + spec_nbt_bytes(m.nbt)
    }

    open spec fn spec_deserialize(s: Seq<u8>) -> SpecResult<SlotModel> {
        match spec_varint_deserialize(s) {
            Err(e) => Err(e),
            Ok((item_id, r1)) => match i8::spec_deserialize(r1) {
                Err(e) => Err(e),
                Ok((item_count, r2)) => match spec_read_nbt(r2) {
                    Err(e) => Err(e),
                    Ok((nbt, r3)) => Ok((SlotModel { item_id, item_count, nbt }, r3)),
                },
            },
        }
    }

    proof fn lemma_round_trip(m: SlotModel, rest: Seq<u8>) {
        let t2 = spec_nbt_bytes(m.nbt) + rest;
        let t1 = i8::spec_serialize(m.item_count) + t2;
        assert(Self::spec_serialize(m) + rest =~= spec_varint_serialize(m.item_id) + t1);
        VarInt::lemma_round_trip(m.item_id, t1);
        i8::lemma_round_trip(m.item_count, t2);
        match m.nbt {
            Some(raw) => {
                NamedNbtTag::lemma_round_trip(raw, rest);
                assert(raw.len() > 0 && raw[0] != 0);
                assert(t2[0] == raw[0]);
            },
            None => {
                u8::lemma_round_trip(0u8, rest);
            },
        }
    }

    fn mc_serialize(&self, to: &mut Vec<u8>) {
        let ghost start = to@;
        self.item_id.mc_serialize(to);
        self.item_count.mc_serialize(to);
        match &self.nbt {
            Some(tag) => tag.mc_serialize(to),
            None => to.push(0u8),
        }
        assert(to@ =~= start + Self::spec_serialize(self.model()));
    }

    fn mc_deserialize(data: &[u8]) -> (r: Result<(Self, &[u8]), DeserializeErr>) {
        let (item_id, rest) = VarInt::mc_deserialize(data)?;
        let (item_count, rest) = i8::mc_deserialize(rest)?;
        let (first, after) = u8::mc_deserialize(rest)?;
        if first == 0 {
            Ok((Slot { item_id, item_count, nbt: None }, after))
        } else {
            let (tag, rest) = NamedNbtTag::mc_deserialize(rest)?;
            Ok((Slot { item_id, item_count, nbt: Some(tag) }, rest))
        }
    }
}

/// An ingredient as values.
pub struct RecipeIngredientModel {
    pub items: <VarIntCountedArray<Option<Slot>> as Codec>::Model,
}

/// The item stacks any one of which fills an ingredient.
#[derive(Debug, Clone, PartialEq, Eq)]
pub struct RecipeIngredient {
    pub items: VarIntCountedArray<Option<Slot>>,
}

impl Codec for RecipeIngredient {
    type Model = RecipeIngredientModel;

    open spec fn model(&self) -> RecipeIngredientModel {
        RecipeIngredientModel { items: self.items.model() }
    }

    open spec fn encodable(m: RecipeIngredientModel) -> bool {
        VarIntCountedArray::<Option<Slot>>::encodable(m.items)
    }

    open spec fn legal(m: RecipeIngredientModel) -> bool {
        VarIntCountedArray::<Option<Slot>>::legal(m.items)
    }

    open spec fn spec_serialize(m: RecipeIngredientModel) -> Seq<u8> {
        VarIntCountedArray::<Option<Slot>>::spec_serialize(m.items)
    }

    open spec fn spec_deserialize(s: Seq<u8>) -> SpecResult<RecipeIngredientModel> {
        match VarIntCountedArray::<Option<Slot>>::spec_deserialize(s) {
            Err(e) => Err(e),
            Ok((items, r1)) => Ok((RecipeIngredientModel { items }, r1)),
        }
    }

    proof fn lemma_round_trip(m: RecipeIngredientModel, rest: Seq<u8>) {
        VarIntCountedArray::<Option<Slot>>::lemma_round_trip(m.items, rest);
    }

    fn mc_serialize(&self, to: &mut Vec<u8>) {
        let ghost start = to@;
        self.items.mc_serialize(to);
        assert(to@ =~= start + Self::spec_serialize(self.model()));
    }

    fn mc_deserialize(data: &[u8]) -> (r: Result<(Self, &[u8]), DeserializeErr>) {
        let (items, rest) = VarIntCountedArray::<Option<Slot>>::mc_deserialize(data)?;
        Ok((RecipeIngredient { items }, rest))
    }
}

/// A shapeless crafting recipe as values.
pub struct RecipeCraftingShapelessSpecModel {
    pub group: <String as Codec>::Model,
    pub ingredients: <VarIntCountedArray<RecipeIngredient> as Codec>::Model,
    pub result: <Option<Slot> as Codec>::Model,
}

/// A crafting recipe whose ingredients may go anywhere in the grid.
#[derive(Debug, Clone, PartialEq, Eq)]
pub struct RecipeCraftingShapelessSpec {
    pub group: String,
    pub ingredients: VarIntCountedArray<RecipeIngredient>,
    pub result: Option<Slot>,
}

impl Codec for RecipeCraftingShapelessSpec {
    type Model = RecipeCraftingShapelessSpecModel;

    open spec fn model(&self) -> RecipeCraftingShapelessSpecModel {
        RecipeCraftingShapelessSpecModel { group: self.group.model(), ingredients: self.ingredients.model(), result: self.result.model() }
    }

    open spec fn encodable(m: RecipeCraftingShapelessSpecModel) -> bool {
        String::encodable(m.group) && VarIntCountedArray::<RecipeIngredient>::encodable(m.ingredients) && Option::<Slot>::encodable(m.result)
    }

    open spec fn legal(m: RecipeCraftingShapelessSpecModel) -> bool {
        String::legal(m.group) && VarIntCountedArray::<RecipeIngredient>::legal(m.ingredients) && Option::<Slot>::legal(m.result)
    }

    open spec fn spec_serialize(m: RecipeCraftingShapelessSpecModel) -> Seq<u8> {
        String::spec_serialize(m.group) + VarIntCountedArray::<RecipeIngredient>::spec_serialize(m.ingredients) + Option::<Slot>::spec_serialize(m.result)
    }

    open spec fn spec_deserialize(s: Seq<u8>) -> SpecResult<RecipeCraftingShapelessSpecModel> {
        match String::spec_deserialize(s) {
            Err(e) => Err(e),
            Ok((group, r1)) => match VarIntCountedArray::<RecipeIngredient>::spec_deserialize(r1) {
                Err(e) => Err(e),
                Ok((ingredients, r2)) => match Option::<Slot>::spec_deserialize(r2) {
                    Err(e) => Err(e),
                    Ok((result, r3)) => Ok((RecipeCraftingShapelessSpecModel { group, ingredients, result }, r3)),
                },
            },
        }
    }

    proof fn lemma_round_trip(m: RecipeCraftingShapelessSpecModel, rest: Seq<u8>) {
        let t2 = Option::<Slot>::spec_serialize(m.result) + rest;
        let t1 = VarIntCountedArray::<RecipeIngredient>::spec_serialize(m.ingredients) + t2;
        let p1 = String::spec_serialize(m.group);
        let p2 = p1 + VarIntCountedArray::<RecipeIngredient>::spec_serialize(m.ingredients);
        let p3 = p2 + Option::<Slot>::spec_serialize(m.result);
        assert(Self::spec_serialize(m) == p3);
        lemma_concat_associative(p2, Option::<Slot>::spec_serialize(m.result), rest);
        lemma_concat_associative(p1, VarIntCountedArray::<RecipeIngredient>::spec_serialize(m.ingredients), t2);
        String::lemma_round_trip(m.group, t1);
        VarIntCountedArray::<RecipeIngredient>::lemma_round_trip(m.ingredients, t2);
        Option::<Slot>::lemma_round_trip(m.result, rest);
    }

    fn mc_serialize(&self, to: &mut Vec<u8>) {
        let ghost start = to@;
        self.group.mc_serialize(to);
        self.ingredients.mc_serialize(to);
        proof {
            lemma_concat_associative(start, String::spec_serialize(self.group.model()), VarIntCountedArray::<RecipeIngredient>::spec_serialize(self.ingredients.model()));
        }
        self.result.mc_serialize(to);
        proof {
            lemma_concat_associative(start, String::spec_serialize(self.group.model()) + VarIntCountedArray::<RecipeIngredient>::spec_serialize(self.ingredients.model()), Option::<Slot>::spec_serialize(self.result.model()));
        }
        assert(to@ =~= start + Self::spec_serialize(self.model()));
    }

    fn mc_deserialize(data: &[u8]) -> (r: Result<(Self, &[u8]), DeserializeErr>) {
        let (group, rest) = String::mc_deserialize(data)?;
        let (ingredients, rest) = VarIntCountedArray::<RecipeIngredient>::mc_deserialize(rest)?;
        let (result, rest) = Option::<Slot>::mc_deserialize(rest)?;
        Ok((RecipeCraftingShapelessSpec { group, ingredients, result }, rest))
    }
}

/// A smelting recipe as values.
pub struct RecipeSmeltingSpecModel {
    pub group: <String as Codec>::Model,
    pub ingredient: <RecipeIngredient as Codec>::Model,
    pub result: <Option<Slot> as Codec>::Model,
    pub experience: <Float32 as Codec>::Model,
    pub cooking_time: <VarInt as Codec>::Model,
}

/// A furnace-like recipe: one ingredient, a result, experience and time.
#[derive(Debug, Clone, PartialEq, Eq)]
pub struct RecipeSmeltingSpec {
    pub group: String,
    pub ingredient: RecipeIngredient,
    pub result: Option<Slot>,
    pub experience: Float32,
    pub cooking_time: VarInt,
}

impl Codec for RecipeSmeltingSpec {
    type Model = RecipeSmeltingSpecModel;

    open spec fn model(&self) -> RecipeSmeltingSpecModel {
        RecipeSmeltingSpecModel { group: self.group.model(), ingredient: self.ingredient.model(), result: self.result.model(), experience: self.experience.model(), cooking_time: self.cooking_time.model() }
    }

    open spec fn encodable(m: RecipeSmeltingSpecModel) -> bool {
        String::encodable(m.group) && RecipeIngredient::encodable(m.ingredient) && Option::<Slot>::encodable(m.result) && Float32::encodable(m.experience) && VarInt::encodable(m.cooking_time)
    }

    open spec fn legal(m: RecipeSmeltingSpecModel) -> bool {
        String::legal(m.group) && RecipeIngredient::legal(m.ingredient) && Option::<Slot>::legal(m.result) && Float32::legal(m.experience) && VarInt::legal(m.cooking_time)
    }

    open spec fn spec_serialize(m: RecipeSmeltingSpecModel) -> Seq<u8> {
        String::spec_serialize(m.group) + RecipeIngredient::spec_serialize(m.ingredient) + Option::<Slot>::spec_serialize(m.result) + Float32::spec_serialize(m.experience) + VarInt::spec_serialize(m.cooking_time)
    }

    open spec fn spec_deserialize(s: Seq<u8>) -> SpecResult<RecipeSmeltingSpecModel> {
        match String::spec_deserialize(s) {
            Err(e) => Err(e),
            Ok((group, r1)) => match RecipeIngredient::spec_deserialize(r1) {
                Err(e) => Err(e),
                Ok((ingredient, r2)) => match Option::<Slot>::spec_deserialize(r2) {
                    Err(e) => Err(e),
                    Ok((result, r3)) => match Float32::spec_deserialize(r3) {
                        Err(e) => Err(e),
                        Ok((experience, r4)) => match VarInt::spec_deserialize(r4) {
                            Err(e) => Err(e),
                            Ok((cooking_time, r5)) => Ok((RecipeSmeltingSpecModel { group, ingredient, result, experience, cooking_time }, r5)),
                        },
                    },
                },
            },
        }
    }

    #[verifier::rlimit(100)]
    #[verifier::spinoff_prover]
    proof fn lemma_round_trip(m: RecipeSmeltingSpecModel, rest: Seq<u8>) {
        let t4 = VarInt::spec_serialize(m.cooking_time) + rest;
        let t3 = Float32::spec_serialize(m.experience) + t4;
        let t2 = Option::<Slot>::spec_serialize(m.result) + t3;
        let t1 = RecipeIngredient::spec_serialize(m.ingredient) + t2;
        let p1 = String::spec_serialize(m.group);
        let p2 = p1 + RecipeIngredient::spec_serialize(m.ingredient);
        let p3 = p2 + Option::<Slot>::spec_serialize(m.result);
        let p4 = p3 + Float32::spec_serialize(m.experience);
        let p5 = p4 + VarInt::spec_serialize(m.cooking_time);
        assert(Self::spec_serialize(m) == p5);
        lemma_concat_associative(p4, VarInt::spec_serialize(m.cooking_time), rest);
        lemma_concat_associative(p3, Float32::spec_serialize(m.experience), t4);
        lemma_concat_associative(p2, Option::<Slot>::spec_serialize(m.result), t3);
        lemma_concat_associative(p1, RecipeIngredient::spec_serialize(m.ingredient), t2);
        String::lemma_round_trip(m.group, t1);
        assert(String::spec_deserialize(Self::spec_serialize(m) + rest) == Ok::<(<String as Codec>::Model, Seq<u8>), DeserializeErr>((m.group, t1)));
        RecipeIngredient::lemma_round_trip(m.ingredient, t2);
        assert(RecipeIngredient::spec_deserialize(t1) == Ok::<(<RecipeIngredient as Codec>::Model, Seq<u8>), DeserializeErr>((m.ingredient, t2)));
        Option::<Slot>::lemma_round_trip(m.result, t3);
        assert(Option::<Slot>::spec_deserialize(t2) == Ok::<(<Option<Slot> as Codec>::Model, Seq<u8>), DeserializeErr>((m.result, t3)));
        Float32::lemma_round_trip(m.experience, t4);
        assert(Float32::spec_deserialize(t3) == Ok::<(<Float32 as Codec>::Model, Seq<u8>), DeserializeErr>((m.experience, t4)));
        VarInt::lemma_round_trip(m.cooking_time, rest);
        assert(VarInt::spec_deserialize(t4) == Ok::<(<VarInt as Codec>::Model, Seq<u8>), DeserializeErr>((m.cooking_time, rest)));
    }

    fn mc_serialize(&self, to: &mut Vec<u8>) {
        let ghost start = to@;
        self.group.mc_serialize(to);
        self.ingredient.mc_serialize(to);
        proof {
            lemma_concat_associative(start, String::spec_serialize(self.group.model()), RecipeIngredient::spec_serialize(self.ingredient.model()));
        }
        self.result.mc_serialize(to);
        proof {
            lemma_concat_associative(start, String::spec_serialize(self.group.model()) + RecipeIngredient::spec_serialize(self.ingredient.model()), Option::<Slot>::spec_serialize(self.result.model()));
        }
        self.experience.mc_serialize(to);
        proof {
            lemma_concat_associative(start, String::spec_serialize(self.group.model()) + RecipeIngredient::spec_serialize(self.ingredient.model()) + Option::<Slot>::spec_serialize(self.result.model()), Float32::spec_serialize(self.experience.model()));
        }
        self.cooking_time.mc_serialize(to);
        proof {
            lemma_concat_associative(start, String::spec_serialize(self.group.model()) + RecipeIngredient::spec_serialize(self.ingredient.model()) + Option::<Slot>::spec_serialize(self.result.model()) + Float32::spec_serialize(self.experience.model()), VarInt::spec_serialize(self.cooking_time.model()));
        }
        assert(to@ =~= start + Self::spec_serialize(self.model()));
    }

    fn mc_deserialize(data: &[u8]) -> (r: Result<(Self, &[u8]), DeserializeErr>) {
        let (group, rest) = String::mc_deserialize(data)?;
        let (ingredient, rest) = RecipeIngredient::mc_deserialize(rest)?;
        let (result, rest) = Option::<Slot>::mc_deserialize(rest)?;
        let (experience, rest) = Float32::mc_deserialize(rest)?;
        let (cooking_time, rest) = VarInt::mc_deserialize(rest)?;
        Ok((RecipeSmeltingSpec { group, ingredient, result, experience, cooking_time }, rest))
    }
}

/// A stonecutter recipe as values.
pub struct RecipeStonecuttingSpecModel {
    pub group: <String as Codec>::Model,
    pub ingredient: <RecipeIngredient as Codec>::Model,
    pub result: <Option<Slot> as Codec>::Model,
}

/// A stonecutter recipe.
#[derive(Debug, Clone, PartialEq, Eq)]
pub struct RecipeStonecuttingSpec {
    pub group: String,
    pub ingredient: RecipeIngredient,
    pub result: Option<Slot>,
}

impl Codec for RecipeStonecuttingSpec {
    type Model = RecipeStonecuttingSpecModel;

    open spec fn model(&self) -> RecipeStonecuttingSpecModel {
        RecipeStonecuttingSpecModel { group: self.group.model(), ingredient: self.ingredient.model(), result: self.result.model() }
    }

    open spec fn encodable(m: RecipeStonecuttingSpecModel) -> bool {
        String::encodable(m.group) && RecipeIngredient::encodable(m.ingredient) && Option::<Slot>::encodable(m.result)
    }

    open spec fn legal(m: RecipeStonecuttingSpecModel) -> bool {
        String::legal(m.group) && RecipeIngredient::legal(m.ingredient) && Option::<Slot>::legal(m.result)
    }

    open spec fn spec_serialize(m: RecipeStonecuttingSpecModel) -> Seq<u8> {
        String::spec_serialize(m.group) + RecipeIngredient::spec_serialize(m.ingredient) + Option::<Slot>::spec_serialize(m.result)
    }

    open spec fn spec_deserialize(s: Seq<u8>) -> SpecResult<RecipeStonecuttingSpecModel> {
        match String::spec_deserialize(s) {
            Err(e) => Err(e),
            Ok((group, r1)) => match RecipeIngredient::spec_deserialize(r1) {
                Err(e) => Err(e),
                Ok((ingredient, r2)) => match Option::<Slot>::spec_deserialize(r2) {
                    Err(e) => Err(e),
                    Ok((result, r3)) => Ok((RecipeStonecuttingSpecModel { group, ingredient, result }, r3)),
                },
            },
        }
    }

    proof fn lemma_round_trip(m: RecipeStonecuttingSpecModel, rest: Seq<u8>) {
        let t2 = Option::<Slot>::spec_serialize(m.result) + rest;
        let t1 = RecipeIngredient::spec_serialize(m.ingredient) + t2;
        let p1 = String::spec_serialize(m.group);
        let p2 = p1 + RecipeIngredient::spec_serialize(m.ingredient);
        let p3 = p2 + Option::<Slot>::spec_serialize(m.result);
        assert(Self::spec_serialize(m) == p3);
        lemma_concat_associative(p2, Option::<Slot>::spec_serialize(m.result), rest);
        lemma_concat_associative(p1, RecipeIngredient::spec_serialize(m.ingredient), t2);
        String::lemma_round_trip(m.group, t1);
        RecipeIngredient::lemma_round_trip(m.ingredient, t2);
        Option::<Slot>::lemma_round_trip(m.result, rest);
    }

    fn mc_serialize(&self, to: &mut Vec<u8>) {
        let ghost start = to@;
        self.group.mc_serialize(to);
        self.ingredient.mc_serialize(to);
        proof {
            lemma_concat_associative(start, String::spec_serialize(self.group.model()), RecipeIngredient::spec_serialize(self.ingredient.model()));
        }
        self.result.mc_serialize(to);
        proof {
            lemma_concat_associative(start, String::spec_serialize(self.group.model()) + RecipeIngredient::spec_serialize(self.ingredient.model()), Option::<Slot>::spec_serialize(self.result.model()));
        }
        assert(to@ =~= start + Self::spec_serialize(self.model()));
    }

    fn mc_deserialize(data: &[u8]) -> (r: Result<(Self, &[u8]), DeserializeErr>) {
        let (group, rest) = String::mc_deserialize(data)?;
        let (ingredient, rest) = RecipeIngredient::mc_deserialize(rest)?;
        let (result, rest) = Option::<Slot>::mc_deserialize(rest)?;
        Ok((RecipeStonecuttingSpec { group, ingredient, result }, rest))
    }
}

/// A shaped crafting recipe as values.
pub struct RecipeCraftingShapedModel {
    pub width: i32,
    pub height: i32,
    pub group: Seq<char>,
    pub ingredients: Seq<RecipeIngredientModel>,
    pub result: Option<SlotModel>,
}

/// A shaped crafting recipe: the grid's width and height come first, and
/// their product says how many ingredients follow, with no count of their
/// own.
#[derive(Debug, Clone, PartialEq, Eq)]
pub struct RecipeCraftingShapedSpec {
    pub width: VarInt,
    pub height: VarInt,
    pub group: String,
    pub ingredients: Vec<RecipeIngredient>,
    pub result: Option<Slot>,
}

/// How many cells a grid of the given size holds.
#[verifier::opaque]
pub open spec fn grid_size(width: i32, height: i32) -> int {
    width * height
}

/// How many ingredients a grid holds, or the offending dimension.
pub open spec fn grid_count(width: i32, height: i32) -> Result<nat, DeserializeErr> {
    if width < 0 {
        Err(DeserializeErr::NegativeLength(width as i64))
    } else if height < 0 {
        Err(DeserializeErr::NegativeLength(height as i64))
    } else {
        Ok(grid_size(width, height) as nat)
    }
}

impl Codec for RecipeCraftingShapedSpec {
    type Model = RecipeCraftingShapedModel;

    open spec fn model(&self) -> RecipeCraftingShapedModel {
        RecipeCraftingShapedModel {
            width: self.width.0,
            height: self.height.0,
            group: self.group@,
            ingredients: models(self.ingredients@),
            result: self.result.model(),
        }
    }

    /// The grid's size must match the ingredients, since no count is sent.
    open spec fn encodable(m: RecipeCraftingShapedModel) -> bool {
        String::encodable(m.group) && all_encodable::<RecipeIngredient>(m.ingredients)
            && Option::<Slot>::encodable(m.result) && m.width >= 0 && m.height >= 0
            && m.ingredients.len() == grid_size(m.width, m.height)
    }

    /// The grid's size must match the ingredients, or they read back wrong.
    open spec fn legal(m: RecipeCraftingShapedModel) -> bool {
        String::legal(m.group) && all_legal::<RecipeIngredient>(m.ingredients) && Option::<
            Slot,
        >::legal(m.result) && m.width >= 0 && m.height >= 0 && m.ingredients.len() == grid_size(
            m.width,
            m.height,
        )
    }

    open spec fn spec_serialize(m: RecipeCraftingShapedModel) -> Seq<u8> {
        spec_varint_serialize(m.width) + spec_varint_serialize(m.height) + spec_string_serialize(
            m.group,
        ) + spec_serialize_all::<RecipeIngredient>(m.ingredients) + Option::<Slot>::spec_serialize(
            m.result,
        )
    }

    open spec fn spec_deserialize(s: Seq<u8>) -> SpecResult<RecipeCraftingShapedModel> {
        match spec_varint_deserialize(s) {
            Err(e) => Err(e),
            Ok((width, r1)) => match spec_varint_deserialize(r1) {
                Err(e) => Err(e),
                Ok((height, r2)) => match spec_string_deserialize(r2) {
                    Err(e) => Err(e),
                    Ok((group, r3)) => match grid_count(width, height) {
                        Err(e) => Err(e),
                        Ok(n) => match spec_deserialize_n::<RecipeIngredient>(r3, n) {
                            Err(e) => Err(e),
                            Ok((ingredients, r4)) => match Option::<Slot>::spec_deserialize(r4) {
                                Err(e) => Err(e),
                                Ok((result, r5)) => Ok(
                                    (
                                        RecipeCraftingShapedModel {
                                            width,
                                            height,
                                            group,
                                            ingredients,
                                            result,
                                        },
                                        r5,
                                    ),
                                ),
                            },
                        },
                    },
                },
            },
        }
    }

    proof fn lemma_round_trip(m: RecipeCraftingShapedModel, rest: Seq<u8>) {
        let t4 = Option::<Slot>::spec_serialize(m.result) + rest;
        let t3 = spec_serialize_all::<RecipeIngredient>(m.ingredients) + t4;
        let t2 = spec_string_serialize(m.group) + t3;
        let t1 = spec_varint_serialize(m.height) + t2;
        let s = Self::spec_serialize(m) + rest;
        assert(s =~= spec_varint_serialize(m.width) + t1);
        VarInt::lemma_round_trip(m.width, t1);
        assert(spec_varint_deserialize(s) == Ok::<(i32, Seq<u8>), DeserializeErr>((m.width, t1)));
        VarInt::lemma_round_trip(m.height, t2);
        String::lemma_round_trip(m.group, t3);
        assert(grid_count(m.width, m.height) == Ok::<nat, DeserializeErr>(m.ingredients.len()));
        lemma_deserialize_n_round_trip::<RecipeIngredient>(m.ingredients, t4);
        Option::<Slot>::lemma_round_trip(m.result, rest);
    }

    fn mc_serialize(&self, to: &mut Vec<u8>) {
        let ghost start = to@;
        self.width.mc_serialize(to);
        self.height.mc_serialize(to);
        self.group.mc_serialize(to);
        write_all(&self.ingredients, to);
        self.result.mc_serialize(to);
        assert(to@ =~= start + Self::spec_serialize(self.model()));
    }

    fn mc_deserialize(data: &[u8]) -> (r: Result<(Self, &[u8]), DeserializeErr>) {
        let (width, rest) = VarInt::mc_deserialize(data)?;
        let (height, rest) = VarInt::mc_deserialize(rest)?;
        let (group, rest) = String::mc_deserialize(rest)?;
        if width.0 < 0 {
            return Err(DeserializeErr::NegativeLength(width.0 as i64));
        }
        if height.0 < 0 {
            return Err(DeserializeErr::NegativeLength(height.0 as i64));
        }
        assert(width.0 as u64 * height.0 as u64 <= 0x4000_0000_0000_0000) by (nonlinear_arith)
            requires
                0 <= width.0 <= i32::MAX,
                0 <= height.0 <= i32::MAX,
        ;
        let count: u64 = width.0 as u64 * height.0 as u64;
        proof {
            reveal(grid_size);
        }
        let (ingredients, rest) = read_n::<RecipeIngredient>(rest, count)?;
        let (result, rest) = Option::<Slot>::mc_deserialize(rest)?;
        Ok((RecipeCraftingShapedSpec { width, height, group, ingredients, result }, rest))
    }
}

/// A recipe entry as values.
pub struct RecipeSpecModel {
    pub recipe: RecipeModel,
    pub id: Seq<char>,
}

/// A recipe entry. On the wire the recipe's type tag comes first, then the
/// entry's id, then the recipe's payload.
#[derive(Debug, Clone, PartialEq, Eq)]
pub struct RecipeSpec {
    pub recipe: Recipe,
    pub id: String,
}

impl Codec for RecipeSpec {
    type Model = RecipeSpecModel;

    open spec fn model(&self) -> RecipeSpecModel {
        RecipeSpecModel { recipe: self.recipe.model(), id: self.id@ }
    }

    open spec fn encodable(m: RecipeSpecModel) -> bool {
        Recipe::encodable(m.recipe) && String::encodable(m.id)
    }

    open spec fn legal(m: RecipeSpecModel) -> bool {
        Recipe::legal(m.recipe) && String::legal(m.id)
    }

    open spec fn spec_serialize(m: RecipeSpecModel) -> Seq<u8> {
        spec_string_serialize(Recipe::spec_tag(m.recipe)) + spec_string_serialize(m.id)
            + Recipe::spec_payload_bytes(m.recipe)
    }

    open spec fn spec_deserialize(s: Seq<u8>) -> SpecResult<RecipeSpecModel> {
        match spec_string_deserialize(s) {
            Err(e) => Err(e),
            Ok((t, r1)) => match spec_string_deserialize(r1) {
                Err(e) => Err(e),
                Ok((id, r2)) => match Recipe::spec_from_tag(t, r2) {
                    Err(e) => Err(e),
                    Ok((recipe, r3)) => Ok((RecipeSpecModel { recipe, id }, r3)),
                },
            },
        }
    }

    #[verifier::rlimit(80)]
    proof fn lemma_round_trip(m: RecipeSpecModel, rest: Seq<u8>) {
        let t2 = Recipe::spec_payload_bytes(m.recipe) + rest;
        let t1 = spec_string_serialize(m.id) + t2;
        let tag = Recipe::spec_tag(m.recipe);
        assert(Self::spec_serialize(m) + rest =~= spec_string_serialize(tag) + t1);
        lemma_recipe_tags(m.recipe, t2);
        lemma_tag_encodable(tag);
        String::lemma_round_trip(tag, t1);
        String::lemma_round_trip(m.id, t2);
        lemma_recipe_tags_payload(m.recipe, rest);
    }

    fn mc_serialize(&self, to: &mut Vec<u8>) {
        let ghost start = to@;
        let t = self.recipe.id();
        proof {
            lemma_recipe_tags(self.recipe.model(), Seq::empty());
            lemma_tag_encodable(t@);
        }
        write_str(t, to);
        self.id.mc_serialize(to);
        self.recipe.serialize_body(to);
        assert(to@ =~= start + Self::spec_serialize(self.model()));
    }

    fn mc_deserialize(data: &[u8]) -> (r: Result<(Self, &[u8]), DeserializeErr>) {
        let (kind, rest) = String::mc_deserialize(data)?;
        let (recipe_id, rest) = String::mc_deserialize(rest)?;
        let (recipe, rest) = Recipe::deserialize_with_id(kind.as_str(), rest)?;
        Ok((RecipeSpec { id: recipe_id, recipe }, rest))
    }
}

/// A recipe as values.
pub enum RecipeModel {
    CraftingShapeless(<RecipeCraftingShapelessSpec as Codec>::Model),
    CraftingShaped(<RecipeCraftingShapedSpec as Codec>::Model),
    CraftingArmorDye,
    CraftingBookCloning,
    CraftingMapCloning,
    CraftingMapExtending,
    CraftingFireworkRocket,
    CraftingFireworkStar,
    CraftingFireworkStarFade,
    CraftingRepairItem,
    CraftingTippedArrow,
    CraftingBannerDuplicate,
    CraftingBannerAddPattern,
    CraftingShieldDecoration,
    CraftingShulkerBoxColoring,
    CraftingSuspiciousStew,
    Smelting(<RecipeSmeltingSpec as Codec>::Model),
    Blasting(<RecipeSmeltingSpec as Codec>::Model),
    Smoking(<RecipeSmeltingSpec as Codec>::Model),
    CampfireCooking(<RecipeSmeltingSpec as Codec>::Model),
    StoneCutting(<RecipeStonecuttingSpec as Codec>::Model),
}

/// A recipe, named by a string tag; most kinds carry a payload.
#[derive(Debug, Clone, PartialEq, Eq)]
pub enum Recipe {
    CraftingShapeless(RecipeCraftingShapelessSpec),
    CraftingShaped(RecipeCraftingShapedSpec),
    CraftingArmorDye,
    CraftingBookCloning,
    CraftingMapCloning,
    CraftingMapExtending,
    CraftingFireworkRocket,
    CraftingFireworkStar,
    CraftingFireworkStarFade,
    CraftingRepairItem,
    CraftingTippedArrow,
    CraftingBannerDuplicate,
    CraftingBannerAddPattern,
    CraftingShieldDecoration,
    CraftingShulkerBoxColoring,
    CraftingSuspiciousStew,
    Smelting(RecipeSmeltingSpec),
    Blasting(RecipeSmeltingSpec),
    Smoking(RecipeSmeltingSpec),
    CampfireCooking(RecipeSmeltingSpec),
    StoneCutting(RecipeStonecuttingSpec),
}

impl Recipe {
    /// The string that names each variant on the wire.
    pub open spec fn spec_tag(m: RecipeModel) -> Seq<char> {
        match m {
            RecipeModel::CraftingShapeless(_) => "minecraft:crafting_shapeless"@,
            RecipeModel::CraftingShaped(_) => "minecraft:crafting_shaped"@,
            RecipeModel::CraftingArmorDye => "minecraft:crafting_special_armordye"@,
            RecipeModel::CraftingBookCloning => "minecraft:crafting_special_bookcloning"@,
            RecipeModel::CraftingMapCloning => "minecraft:crafting_special_mapcloning"@,
            RecipeModel::CraftingMapExtending => "minecraft:crafting_special_mapextending"@,
            RecipeModel::CraftingFireworkRocket => "minecraft:crafting_special_firework_rocket"@,
            RecipeModel::CraftingFireworkStar => "minecraft:crafting_special_firework_star"@,
            RecipeModel::CraftingFireworkStarFade => "minecraft:crafting_special_firework_star_fade"@,
            RecipeModel::CraftingRepairItem => "minecraft:crafting_special_repairitem"@,
            RecipeModel::CraftingTippedArrow => "minecraft:crafting_special_tippedarrow"@,
            RecipeModel::CraftingBannerDuplicate => "minecraft:crafting_special_bannerduplicate"@,
            RecipeModel::CraftingBannerAddPattern => "minecraft:crafting_special_banneraddpattern"@,
            RecipeModel::CraftingShieldDecoration => "minecraft:crafting_special_shielddecoration"@,
            RecipeModel::CraftingShulkerBoxColoring => "minecraft:crafting_special_shulkerboxcoloring"@,
            RecipeModel::CraftingSuspiciousStew => "minecraft:crafting_special_suspiciousstew"@,
            RecipeModel::Smelting(_) => "minecraft:smelting"@,
            RecipeModel::Blasting(_) => "minecraft:blasting"@,
            RecipeModel::Smoking(_) => "minecraft:smoking"@,
            RecipeModel::CampfireCooking(_) => "minecraft:campfire_cooking"@,
            RecipeModel::StoneCutting(_) => "minecraft:stonecutting"@,
        }
    }

    /// Reads the payload of `m`'s variant from `r`.
    pub open spec fn spec_payload(m: RecipeModel, r: Seq<u8>) -> SpecResult<RecipeModel> {
        match m {
            RecipeModel::CraftingShapeless(_) => match RecipeCraftingShapelessSpec::spec_deserialize(r) {
                Ok((p, r2)) => Ok((RecipeModel::CraftingShapeless(p), r2)),
                Err(e) => Err(e),
            },
            RecipeModel::CraftingShaped(_) => match RecipeCraftingShapedSpec::spec_deserialize(r) {
                Ok((p, r2)) => Ok((RecipeModel::CraftingShaped(p), r2)),
                Err(e) => Err(e),
            },
            RecipeModel::CraftingArmorDye => Ok((RecipeModel::CraftingArmorDye, r)),
            RecipeModel::CraftingBookCloning => Ok((RecipeModel::CraftingBookCloning, r)),
            RecipeModel::CraftingMapCloning => Ok((RecipeModel::CraftingMapCloning, r)),
            RecipeModel::CraftingMapExtending => Ok((RecipeModel::CraftingMapExtending, r)),
            RecipeModel::CraftingFireworkRocket => Ok((RecipeModel::CraftingFireworkRocket, r)),
            RecipeModel::CraftingFireworkStar => Ok((RecipeModel::CraftingFireworkStar, r)),
            RecipeModel::CraftingFireworkStarFade => Ok((RecipeModel::CraftingFireworkStarFade, r)),
            RecipeModel::CraftingRepairItem => Ok((RecipeModel::CraftingRepairItem, r)),
            RecipeModel::CraftingTippedArrow => Ok((RecipeModel::CraftingTippedArrow, r)),
            RecipeModel::CraftingBannerDuplicate => Ok((RecipeModel::CraftingBannerDuplicate, r)),
            RecipeModel::CraftingBannerAddPattern => Ok((RecipeModel::CraftingBannerAddPattern, r)),
            RecipeModel::CraftingShieldDecoration => Ok((RecipeModel::CraftingShieldDecoration, r)),
            RecipeModel::CraftingShulkerBoxColoring => Ok((RecipeModel::CraftingShulkerBoxColoring, r)),
            RecipeModel::CraftingSuspiciousStew => Ok((RecipeModel::CraftingSuspiciousStew, r)),
            RecipeModel::Smelting(_) => match RecipeSmeltingSpec::spec_deserialize(r) {
                Ok((p, r2)) => Ok((RecipeModel::Smelting(p), r2)),
                Err(e) => Err(e),
            },
            RecipeModel::Blasting(_) => match RecipeSmeltingSpec::spec_deserialize(r) {
                Ok((p, r2)) => Ok((RecipeModel::Blasting(p), r2)),
                Err(e) => Err(e),
            },
            RecipeModel::Smoking(_) => match RecipeSmeltingSpec::spec_deserialize(r) {
                Ok((p, r2)) => Ok((RecipeModel::Smoking(p), r2)),
                Err(e) => Err(e),
            },
            RecipeModel::CampfireCooking(_) => match RecipeSmeltingSpec::spec_deserialize(r) {
                Ok((p, r2)) => Ok((RecipeModel::CampfireCooking(p), r2)),
                Err(e) => Err(e),
            },
            RecipeModel::StoneCutting(_) => match RecipeStonecuttingSpec::spec_deserialize(r) {
                Ok((p, r2)) => Ok((RecipeModel::StoneCutting(p), r2)),
                Err(e) => Err(e),
            },
        }
    }

    /// The variant that a tag names, with its payload read from `r`; a tag
    /// that names no variant is an error.
    #[verifier::opaque]
    pub open spec fn spec_from_tag(t: Seq<char>, r: Seq<u8>) -> SpecResult<RecipeModel> {
        if t == "minecraft:crafting_shapeless"@ {
            Self::spec_payload(RecipeModel::CraftingShapeless(arbitrary()), r)
        } else if t == "minecraft:crafting_shaped"@ {
            Self::spec_payload(RecipeModel::CraftingShaped(arbitrary()), r)
        } else if t == "minecraft:crafting_special_armordye"@ {
            Self::spec_payload(RecipeModel::CraftingArmorDye, r)
        } else if t == "minecraft:crafting_special_bookcloning"@ {
            Self::spec_payload(RecipeModel::CraftingBookCloning, r)
        } else if t == "minecraft:crafting_special_mapcloning"@ {
            Self::spec_payload(RecipeModel::CraftingMapCloning, r)
        } else if t == "minecraft:crafting_special_mapextending"@ {
            Self::spec_payload(RecipeModel::CraftingMapExtending, r)
        } else if t == "minecraft:crafting_special_firework_rocket"@ {
            Self::spec_payload(RecipeModel::CraftingFireworkRocket, r)
        } else if t == "minecraft:crafting_special_firework_star"@ {
            Self::spec_payload(RecipeModel::CraftingFireworkStar, r)
        } else if t == "minecraft:crafting_special_firework_star_fade"@ {
            Self::spec_payload(RecipeModel::CraftingFireworkStarFade, r)
        } else if t == "minecraft:crafting_special_repairitem"@ {
            Self::spec_payload(RecipeModel::CraftingRepairItem, r)
        } else if t == "minecraft:crafting_special_tippedarrow"@ {
            Self::spec_payload(RecipeModel::CraftingTippedArrow, r)
        } else if t == "minecraft:crafting_special_bannerduplicate"@ {
            Self::spec_payload(RecipeModel::CraftingBannerDuplicate, r)
        } else if t == "minecraft:crafting_special_banneraddpattern"@ {
            Self::spec_payload(RecipeModel::CraftingBannerAddPattern, r)
        } else if t == "minecraft:crafting_special_shielddecoration"@ {
            Self::spec_payload(RecipeModel::CraftingShieldDecoration, r)
        } else if t == "minecraft:crafting_special_shulkerboxcoloring"@ {
            Self::spec_payload(RecipeModel::CraftingShulkerBoxColoring, r)
        } else if t == "minecraft:crafting_special_suspiciousstew"@ {
            Self::spec_payload(RecipeModel::CraftingSuspiciousStew, r)
        } else if t == "minecraft:smelting"@ {
            Self::spec_payload(RecipeModel::Smelting(arbitrary()), r)
        } else if t == "minecraft:blasting"@ {
            Self::spec_payload(RecipeModel::Blasting(arbitrary()), r)
        } else if t == "minecraft:smoking"@ {
            Self::spec_payload(RecipeModel::Smoking(arbitrary()), r)
        } else if t == "minecraft:campfire_cooking"@ {
            Self::spec_payload(RecipeModel::CampfireCooking(arbitrary()), r)
        } else if t == "minecraft:stonecutting"@ {
            Self::spec_payload(RecipeModel::StoneCutting(arbitrary()), r)
        } else {
            Err(DeserializeErr::UnknownStringTag)
        }
    }

    pub open spec fn spec_payload_bytes(m: RecipeModel) -> Seq<u8> {
        match m {
            RecipeModel::CraftingShapeless(p) => RecipeCraftingShapelessSpec::spec_serialize(p),
            RecipeModel::CraftingShaped(p) => RecipeCraftingShapedSpec::spec_serialize(p),
            RecipeModel::Smelting(p) => RecipeSmeltingSpec::spec_serialize(p),
            RecipeModel::Blasting(p) => RecipeSmeltingSpec::spec_serialize(p),
            RecipeModel::Smoking(p) => RecipeSmeltingSpec::spec_serialize(p),
            RecipeModel::CampfireCooking(p) => RecipeSmeltingSpec::spec_serialize(p),
            RecipeModel::StoneCutting(p) => RecipeStonecuttingSpec::spec_serialize(p),
            _ => Seq::empty(),
        }
    }

    /// The string that names this variant.
    pub fn id(&self) -> (r: &'static str)
        ensures
            r@ == Self::spec_tag(self.model()),
    {
        match self {
            Recipe::CraftingShapeless(_) => "minecraft:crafting_shapeless",
            Recipe::CraftingShaped(_) => "minecraft:crafting_shaped",
            Recipe::CraftingArmorDye => "minecraft:crafting_special_armordye",
            Recipe::CraftingBookCloning => "minecraft:crafting_special_bookcloning",
            Recipe::CraftingMapCloning => "minecraft:crafting_special_mapcloning",
            Recipe::CraftingMapExtending => "minecraft:crafting_special_mapextending",
            Recipe::CraftingFireworkRocket => "minecraft:crafting_special_firework_rocket",
            Recipe::CraftingFireworkStar => "minecraft:crafting_special_firework_star",
            Recipe::CraftingFireworkStarFade => "minecraft:crafting_special_firework_star_fade",
            Recipe::CraftingRepairItem => "minecraft:crafting_special_repairitem",
            Recipe::CraftingTippedArrow => "minecraft:crafting_special_tippedarrow",
            Recipe::CraftingBannerDuplicate => "minecraft:crafting_special_bannerduplicate",
            Recipe::CraftingBannerAddPattern => "minecraft:crafting_special_banneraddpattern",
            Recipe::CraftingShieldDecoration => "minecraft:crafting_special_shielddecoration",
            Recipe::CraftingShulkerBoxColoring => "minecraft:crafting_special_shulkerboxcoloring",
            Recipe::CraftingSuspiciousStew => "minecraft:crafting_special_suspiciousstew",
            Recipe::Smelting(_) => "minecraft:smelting",
            Recipe::Blasting(_) => "minecraft:blasting",
            Recipe::Smoking(_) => "minecraft:smoking",
            Recipe::CampfireCooking(_) => "minecraft:campfire_cooking",
            Recipe::StoneCutting(_) => "minecraft:stonecutting",
        }
    }

    /// Writes the payload alone.
    pub fn serialize_body(&self, to: &mut Vec<u8>)
        requires
            Self::encodable(self.model()),
        ensures
            final(to)@ == old(to)@ + Self::spec_payload_bytes(self.model()),
    {
        match self {
            Recipe::CraftingShapeless(p) => p.mc_serialize(to),
            Recipe::CraftingShaped(p) => p.mc_serialize(to),
            Recipe::Smelting(p) => p.mc_serialize(to),
            Recipe::Blasting(p) => p.mc_serialize(to),
            Recipe::Smoking(p) => p.mc_serialize(to),
            Recipe::CampfireCooking(p) => p.mc_serialize(to),
            Recipe::StoneCutting(p) => p.mc_serialize(to),
            _ => {},
        }
    }

    /// Reads the payload of the variant that `t` names.
    pub fn deserialize_with_id<'a>(t: &str, data: &'a [u8]) -> (r: Result<(Self, &'a [u8]), DeserializeErr>)
        ensures
            read_matches(r, |v: Self| v.model(), Self::spec_from_tag(t@, data@)),
    {
        reveal(Recipe::spec_from_tag);
        if str_eq(t, "minecraft:crafting_shapeless") {
            let (p, rest) = RecipeCraftingShapelessSpec::mc_deserialize(data)?;
            Ok((Recipe::CraftingShapeless(p), rest))
        } else if str_eq(t, "minecraft:crafting_shaped") {
            let (p, rest) = RecipeCraftingShapedSpec::mc_deserialize(data)?;
            Ok((Recipe::CraftingShaped(p), rest))
        } else if str_eq(t, "minecraft:crafting_special_armordye") {
            Ok((Recipe::CraftingArmorDye, data))
        } else if str_eq(t, "minecraft:crafting_special_bookcloning") {
            Ok((Recipe::CraftingBookCloning, data))
        } else if str_eq(t, "minecraft:crafting_special_mapcloning") {
            Ok((Recipe::CraftingMapCloning, data))
        } else if str_eq(t, "minecraft:crafting_special_mapextending") {
            Ok((Recipe::CraftingMapExtending, data))
        } else if str_eq(t, "minecraft:crafting_special_firework_rocket") {
            Ok((Recipe::CraftingFireworkRocket, data))
        } else if str_eq(t, "minecraft:crafting_special_firework_star") {
            Ok((Recipe::CraftingFireworkStar, data))
        } else if str_eq(t, "minecraft:crafting_special_firework_star_fade") {
            Ok((Recipe::CraftingFireworkStarFade, data))
        } else if str_eq(t, "minecraft:crafting_special_repairitem") {
            Ok((Recipe::CraftingRepairItem, data))
        } else if str_eq(t, "minecraft:crafting_special_tippedarrow") {
            Ok((Recipe::CraftingTippedArrow, data))
        } else if str_eq(t, "minecraft:crafting_special_bannerduplicate") {
            Ok((Recipe::CraftingBannerDuplicate, data))
        } else if str_eq(t, "minecraft:crafting_special_banneraddpattern") {
            Ok((Recipe::CraftingBannerAddPattern, data))
        } else if str_eq(t, "minecraft:crafting_special_shielddecoration") {
            Ok((Recipe::CraftingShieldDecoration, data))
        } else if str_eq(t, "minecraft:crafting_special_shulkerboxcoloring") {
            Ok((Recipe::CraftingShulkerBoxColoring, data))
        } else if str_eq(t, "minecraft:crafting_special_suspiciousstew") {
            Ok((Recipe::CraftingSuspiciousStew, data))
        } else if str_eq(t, "minecraft:smelting") {
            let (p, rest) = RecipeSmeltingSpec::mc_deserialize(data)?;
            Ok((Recipe::Smelting(p), rest))
        } else if str_eq(t, "minecraft:blasting") {
            let (p, rest) = RecipeSmeltingSpec::mc_deserialize(data)?;
            Ok((Recipe::Blasting(p), rest))
        } else if str_eq(t, "minecraft:smoking") {
            let (p, rest) = RecipeSmeltingSpec::mc_deserialize(data)?;
            Ok((Recipe::Smoking(p), rest))
        } else if str_eq(t, "minecraft:campfire_cooking") {
            let (p, rest) = RecipeSmeltingSpec::mc_deserialize(data)?;
            Ok((Recipe::CampfireCooking(p), rest))
        } else if str_eq(t, "minecraft:stonecutting") {
            let (p, rest) = RecipeStonecuttingSpec::mc_deserialize(data)?;
            Ok((Recipe::StoneCutting(p), rest))
        } else {
            Err(DeserializeErr::UnknownStringTag)
        }
    }
}

/// No two variants share a tag, so a tag leads back to its own variant.
proof fn lemma_recipe_tags(m: RecipeModel, r: Seq<u8>)
    ensures
        Recipe::spec_from_tag(Recipe::spec_tag(m), r) == Recipe::spec_payload(m, r),
        Recipe::spec_tag(m).len() <= 64,
{
    reveal(Recipe::spec_from_tag);
    reveal_strlit("minecraft:crafting_shapeless");
    reveal_strlit("minecraft:crafting_shaped");
    reveal_strlit("minecraft:crafting_special_armordye");
    reveal_strlit("minecraft:crafting_special_bookcloning");
    reveal_strlit("minecraft:crafting_special_mapcloning");
    reveal_strlit("minecraft:crafting_special_mapextending");
    reveal_strlit("minecraft:crafting_special_firework_rocket");
    reveal_strlit("minecraft:crafting_special_firework_star");
    reveal_strlit("minecraft:crafting_special_firework_star_fade");
    reveal_strlit("minecraft:crafting_special_repairitem");
    reveal_strlit("minecraft:crafting_special_tippedarrow");
    reveal_strlit("minecraft:crafting_special_bannerduplicate");
    reveal_strlit("minecraft:crafting_special_banneraddpattern");
    reveal_strlit("minecraft:crafting_special_shielddecoration");
    reveal_strlit("minecraft:crafting_special_shulkerboxcoloring");
    reveal_strlit("minecraft:crafting_special_suspiciousstew");
    reveal_strlit("minecraft:smelting");
    reveal_strlit("minecraft:blasting");
    reveal_strlit("minecraft:smoking");
    reveal_strlit("minecraft:campfire_cooking");
    reveal_strlit("minecraft:stonecutting");
    assert("minecraft:crafting_shapeless"@.len() == 28);
    assert("minecraft:crafting_shaped"@.len() == 25);
    assert("minecraft:crafting_special_armordye"@.len() == 35);
    assert("minecraft:crafting_special_bookcloning"@.len() == 38);
    assert("minecraft:crafting_special_mapcloning"@.len() == 37);
    assert("minecraft:crafting_special_mapextending"@.len() == 39);
    assert("minecraft:crafting_special_firework_rocket"@.len() == 42);
    assert("minecraft:crafting_special_firework_star"@.len() == 40);
    assert("minecraft:crafting_special_firework_star_fade"@.len() == 45);
    assert("minecraft:crafting_special_repairitem"@.len() == 37);
    assert("minecraft:crafting_special_tippedarrow"@.len() == 38);
    assert("minecraft:crafting_special_bannerduplicate"@.len() == 42);
    assert("minecraft:crafting_special_banneraddpattern"@.len() == 43);
    assert("minecraft:crafting_special_shielddecoration"@.len() == 43);
    assert("minecraft:crafting_special_shulkerboxcoloring"@.len() == 45);
    assert("minecraft:crafting_special_suspiciousstew"@.len() == 41);
    assert("minecraft:smelting"@.len() == 18);
    assert("minecraft:blasting"@.len() == 18);
    assert("minecraft:smoking"@.len() == 17);
    assert("minecraft:campfire_cooking"@.len() == 26);
    assert("minecraft:stonecutting"@.len() == 22);
    assert("minecraft:crafting_special_repairitem"@[27] != "minecraft:crafting_special_mapcloning"@[27]);
    assert("minecraft:crafting_special_tippedarrow"@[27] != "minecraft:crafting_special_bookcloning"@[27]);
    assert("minecraft:crafting_special_bannerduplicate"@[27] != "minecraft:crafting_special_firework_rocket"@[27]);
    assert("minecraft:crafting_special_shielddecoration"@[27] != "minecraft:crafting_special_banneraddpattern"@[27]);
    assert("minecraft:crafting_special_shulkerboxcoloring"@[27] != "minecraft:crafting_special_firework_star_fade"@[27]);
    assert("minecraft:blasting"@[10] != "minecraft:smelting"@[10]);
    match m {
            RecipeModel::CraftingShapeless(_) => {},
            RecipeModel::CraftingShaped(_) => {},
            RecipeModel::CraftingArmorDye => {},
            RecipeModel::CraftingBookCloning => {},
            RecipeModel::CraftingMapCloning => {},
            RecipeModel::CraftingMapExtending => {},
            RecipeModel::CraftingFireworkRocket => {},
            RecipeModel::CraftingFireworkStar => {},
            RecipeModel::CraftingFireworkStarFade => {},
            RecipeModel::CraftingRepairItem => {},
            RecipeModel::CraftingTippedArrow => {},
            RecipeModel::CraftingBannerDuplicate => {},
            RecipeModel::CraftingBannerAddPattern => {},
            RecipeModel::CraftingShieldDecoration => {},
            RecipeModel::CraftingShulkerBoxColoring => {},
            RecipeModel::CraftingSuspiciousStew => {},
            RecipeModel::Smelting(_) => {},
            RecipeModel::Blasting(_) => {},
            RecipeModel::Smoking(_) => {},
            RecipeModel::CampfireCooking(_) => {},
            RecipeModel::StoneCutting(_) => {},
    }
}

/// A variant's payload reads back as the variant.
pub proof fn lemma_recipe_tags_payload(m: RecipeModel, rest: Seq<u8>)
    requires
        Recipe::legal(m),
    ensures
        Recipe::encodable(m),
        Recipe::spec_payload(m, Recipe::spec_payload_bytes(m) + rest) == Ok::<(RecipeModel, Seq<u8>), DeserializeErr>((m, rest)),
{
    match m {
            RecipeModel::CraftingShapeless(p) => RecipeCraftingShapelessSpec::lemma_round_trip(p, rest),
            RecipeModel::CraftingShaped(p) => RecipeCraftingShapedSpec::lemma_round_trip(p, rest),
            RecipeModel::Smelting(p) => RecipeSmeltingSpec::lemma_round_trip(p, rest),
            RecipeModel::Blasting(p) => RecipeSmeltingSpec::lemma_round_trip(p, rest),
            RecipeModel::Smoking(p) => RecipeSmeltingSpec::lemma_round_trip(p, rest),
            RecipeModel::CampfireCooking(p) => RecipeSmeltingSpec::lemma_round_trip(p, rest),
            RecipeModel::StoneCutting(p) => RecipeStonecuttingSpec::lemma_round_trip(p, rest),
            _ => {},
        }
}

impl Codec for Recipe {
    type Model = RecipeModel;

    open spec fn model(&self) -> RecipeModel {
        match self {
            Recipe::CraftingShapeless(p) => RecipeModel::CraftingShapeless(p.model()),
            Recipe::CraftingShaped(p) => RecipeModel::CraftingShaped(p.model()),
            Recipe::CraftingArmorDye => RecipeModel::CraftingArmorDye,
            Recipe::CraftingBookCloning => RecipeModel::CraftingBookCloning,
            Recipe::CraftingMapCloning => RecipeModel::CraftingMapCloning,
            Recipe::CraftingMapExtending => RecipeModel::CraftingMapExtending,
            Recipe::CraftingFireworkRocket => RecipeModel::CraftingFireworkRocket,
            Recipe::CraftingFireworkStar => RecipeModel::CraftingFireworkStar,
            Recipe::CraftingFireworkStarFade => RecipeModel::CraftingFireworkStarFade,
            Recipe::CraftingRepairItem => RecipeModel::CraftingRepairItem,
            Recipe::CraftingTippedArrow => RecipeModel::CraftingTippedArrow,
            Recipe::CraftingBannerDuplicate => RecipeModel::CraftingBannerDuplicate,
            Recipe::CraftingBannerAddPattern => RecipeModel::CraftingBannerAddPattern,
            Recipe::CraftingShieldDecoration => RecipeModel::CraftingShieldDecoration,
            Recipe::CraftingShulkerBoxColoring => RecipeModel::CraftingShulkerBoxColoring,
            Recipe::CraftingSuspiciousStew => RecipeModel::CraftingSuspiciousStew,
            Recipe::Smelting(p) => RecipeModel::Smelting(p.model()),
            Recipe::Blasting(p) => RecipeModel::Blasting(p.model()),
            Recipe::Smoking(p) => RecipeModel::Smoking(p.model()),
            Recipe::CampfireCooking(p) => RecipeModel::CampfireCooking(p.model()),
            Recipe::StoneCutting(p) => RecipeModel::StoneCutting(p.model()),
        }
    }

    open spec fn encodable(m: RecipeModel) -> bool {
        match m {
            RecipeModel::CraftingShapeless(p) => RecipeCraftingShapelessSpec::encodable(p),
            RecipeModel::CraftingShaped(p) => RecipeCraftingShapedSpec::encodable(p),
            RecipeModel::Smelting(p) => RecipeSmeltingSpec::encodable(p),
            RecipeModel::Blasting(p) => RecipeSmeltingSpec::encodable(p),
            RecipeModel::Smoking(p) => RecipeSmeltingSpec::encodable(p),
            RecipeModel::CampfireCooking(p) => RecipeSmeltingSpec::encodable(p),
            RecipeModel::StoneCutting(p) => RecipeStonecuttingSpec::encodable(p),
            _ => true,
        }
    }

    open spec fn legal(m: RecipeModel) -> bool {
        match m {
            RecipeModel::CraftingShapeless(p) => RecipeCraftingShapelessSpec::legal(p),
            RecipeModel::CraftingShaped(p) => RecipeCraftingShapedSpec::legal(p),
            RecipeModel::Smelting(p) => RecipeSmeltingSpec::legal(p),
            RecipeModel::Blasting(p) => RecipeSmeltingSpec::legal(p),
            RecipeModel::Smoking(p) => RecipeSmeltingSpec::legal(p),
            RecipeModel::CampfireCooking(p) => RecipeSmeltingSpec::legal(p),
            RecipeModel::StoneCutting(p) => RecipeStonecuttingSpec::legal(p),
            _ => true,
        }
    }

    /// The tag as a string, then the variant's payload.
    open spec fn spec_serialize(m: RecipeModel) -> Seq<u8> {
        spec_string_serialize(Self::spec_tag(m)) + Self::spec_payload_bytes(m)
    }

    open spec fn spec_deserialize(s: Seq<u8>) -> SpecResult<RecipeModel> {
        match spec_string_deserialize(s) {
            Err(e) => Err(e),
            Ok((t, r)) => Self::spec_from_tag(t, r),
        }
    }

    #[verifier::rlimit(80)]
    proof fn lemma_round_trip(m: RecipeModel, rest: Seq<u8>) {
        let payload = Self::spec_payload_bytes(m) + rest;
        lemma_recipe_tags(m, payload);
        lemma_tag_encodable(Self::spec_tag(m));
        String::lemma_round_trip(Self::spec_tag(m), payload);
        assert(Self::spec_serialize(m) + rest =~= spec_string_serialize(Self::spec_tag(m)) + payload);
        lemma_recipe_tags_payload(m, rest);
    }

    fn mc_serialize(&self, to: &mut Vec<u8>) {
        let ghost start = to@;
        let t = self.id();
        proof {
            lemma_recipe_tags(self.model(), Seq::empty());
            lemma_tag_encodable(t@);
        }
        write_str(t, to);
        self.serialize_body(to);
        assert(to@ =~= start + Self::spec_serialize(self.model()));
    }

    fn mc_deserialize(data: &[u8]) -> (r: Result<(Self, &[u8]), DeserializeErr>) {
        let (t, rest) = String::mc_deserialize(data)?;
        Self::deserialize_with_id(t.as_str(), rest)
    }
}

} // verus!
