//! The laws of the cascade, stated and proved once for all records.
//!
//! Each proof function here is a public statement about [`classify_spec`],
//! the mathematical model that the executable [`crate::classifier::classify`]
//! is proved to implement, so every law carries over to the executable
//! classifier.

use vstd::prelude::*;

use crate::classifier::Category;
use crate::classifier::RecordView;
use crate::classifier::classify_spec;
use crate::classifier::norm_traits;
use crate::classifier::tier_age;
use crate::classifier::tier_world;
use crate::classifier::traits_step_a;
use crate::classifier::world_rule;
use crate::normalizer::normalize_spec;

verus! {

/// Totality: classification assigns every record exactly one of the five
/// defined categories — the cascade has no other outcome.
pub proof fn lemma_totality(r: RecordView)
    ensures
        classify_spec(r) == Category::StarWars || classify_spec(r) == Category::HitchHiker
            || classify_spec(r) == Category::Rings || classify_spec(r) == Category::Marvel
            || classify_spec(r) == Category::Indeterminate,
{
}

/// Determinism: two identical records are assigned the same category.
pub proof fn lemma_deterministic(r1: RecordView, r2: RecordView)
    requires
        r1 == r2,
    ensures
        classify_spec(r1) == classify_spec(r2),
{
}

/// Tier precedence: an age above 5000 concludes with `Rings`, whatever the
/// record's world, traits or humanoid status say.
pub proof fn lemma_age_tier_dominates(r: RecordView)
    requires
        r.age is Some,
        r.age->0 > 5000,
    ensures
        classify_spec(r) == Category::Rings,
{
}

/// World precedence: when the age tier abstains and the world is present and
/// recognized, the world rule alone decides, whatever the traits or humanoid
/// status say.
pub proof fn lemma_world_tier_dominates(r: RecordView)
    requires
        tier_age(r.age) is None,
        r.world is Some,
        world_rule(normalize_spec(r.world->0)) is Some,
    ensures
        classify_spec(r) == world_rule(normalize_spec(r.world->0))->0,
{
}

/// World precedence, instance: with no age (or an age at most 200) and a
/// world that normalizes to `asgard`, the record is `Marvel` regardless of
/// traits or humanoid status.
pub proof fn lemma_asgard_is_marvel(r: RecordView)
    requires
        r.age is None || r.age->0 <= 200,
        r.world is Some,
        normalize_spec(r.world->0) == "asgard"@,
    ensures
        classify_spec(r) == Category::Marvel,
{
    reveal_strlit("asgard");
    reveal_strlit("earth");
    reveal_strlit("vogsphere");
    reveal_strlit("betelgeuse");
    assert("asgard"@.len() == 6);
    assert("earth"@.len() == 5);
    assert("vogsphere"@.len() == 9);
    assert("betelgeuse"@.len() == 10);
    lemma_world_tier_dominates(r);
}

/// Case and whitespace insensitivity: two records that differ only in the
/// raw spelling of their world, with the same canonical form, classify
/// identically.
pub proof fn lemma_world_case_insensitive(r1: RecordView, r2: RecordView)
    requires
        r1.age == r2.age,
        r1.humanoid == r2.humanoid,
        r1.traits == r2.traits,
        r1.world is Some,
        r2.world is Some,
        normalize_spec(r1.world->0) == normalize_spec(r2.world->0),
    ensures
        classify_spec(r1) == classify_spec(r2),
{
}

/// Trait priority: when the age and world tiers abstain and a single trait
/// matches step A of the trait tier, step A decides — a compound step-B
/// match can never override it.
pub proof fn lemma_step_a_wins(r: RecordView)
    requires
        tier_age(r.age) is None,
        tier_world(r.world) is None,
        traits_step_a(norm_traits(r.traits)) is Some,
    ensures
        classify_spec(r) == traits_step_a(norm_traits(r.traits))->0,
{
}

/// Fallback correctness: a record with every evidence field absent is
/// `Indeterminate`.
pub proof fn lemma_fallback_indeterminate(r: RecordView)
    requires
        r.age is None,
        r.world is None,
        r.traits is None,
        r.humanoid is None,
    ensures
        classify_spec(r) == Category::Indeterminate,
{
}

} // verus!
