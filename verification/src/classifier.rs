//! The classification decision procedure.
//!
//! One record is evaluated against an ordered cascade of evidence tiers —
//! age, world, traits, humanoid status — each of which either concludes with
//! a category, short-circuiting the rest, or abstains and falls through.
//! When every tier abstains the result is `Indeterminate`, a valid terminal
//! outcome rather than an error. [`classify_spec`] states the whole cascade
//! mathematically; [`classify`] is the verified executable form, proved to
//! return exactly that.

use vstd::prelude::*;

use crate::normalizer::lower_char;
use crate::normalizer::normalize;
use crate::normalizer::normalize_spec;
use crate::normalizer::str_eq;

verus! {

/// The closed set of outcomes: four fictional universes, plus
/// `Indeterminate` for a record whose evidence is insufficient.
#[derive(Clone, Copy, Debug, PartialEq, Eq, Structural)]
pub enum Category {
    StarWars,
    HitchHiker,
    Rings,
    Marvel,
    Indeterminate,
}

/// One character record under classification. Every evidence field is
/// optional; absence is a normal input that makes the matching tier abstain.
pub struct Record {
    /// Caller-supplied identifier, opaque to the classifier.
    pub id: u32,
    /// Whether the character is humanoid, when known.
    pub humanoid: Option<bool>,
    /// Home world, raw case and whitespace as supplied.
    pub world: Option<String>,
    /// Age in years.
    pub age: Option<u32>,
    /// Physical or behavioral traits, raw case and whitespace as supplied.
    pub traits: Option<Vec<String>>,
}

/// The mathematical model of a record: the same optional fields, with text
/// as character sequences and the age as an unbounded integer.
pub struct RecordView {
    pub id: int,
    pub humanoid: Option<bool>,
    pub world: Option<Seq<char>>,
    pub age: Option<int>,
    pub traits: Option<Seq<Seq<char>>>,
}

impl View for Record {
    type V = RecordView;

    open spec fn view(&self) -> RecordView {
        RecordView {
            id: self.id as int,
            humanoid: self.humanoid,
            world: match self.world {
                Some(w) => Some(w@),
                None => None,
            },
            age: match self.age {
                Some(a) => Some(a as int),
                None => None,
            },
            traits: match self.traits {
                Some(ts) => Some(ts.deep_view()),
                None => None,
            },
        }
    }
}

/// Tier 1 — age. Non-overlapping bands decide; ages at or below 200 are
/// shared by several universes and abstain.
pub open spec fn tier_age(age: Option<int>) -> Option<Category> {
    match age {
        Some(a) => if a > 5000 {
            Some(Category::Rings)
        } else if a > 400 {
            Some(Category::Marvel)
        } else if a > 200 {
            Some(Category::StarWars)
        } else {
            None
        },
        None => None,
    }
}

/// The world rule table, over an already canonical world name. An
/// unrecognized world is absence of evidence and abstains.
pub open spec fn world_rule(w: Seq<char>) -> Option<Category> {
    if w == "earth"@ {
        Some(Category::Rings)
    } else if w == "vogsphere"@ || w == "betelgeuse"@ {
        Some(Category::HitchHiker)
    } else if w == "asgard"@ {
        Some(Category::Marvel)
    } else if w == "kashyyyk"@ || w == "endor"@ {
        Some(Category::StarWars)
    } else {
        None
    }
}

/// Tier 2 — world, normalized before the rule table is consulted.
pub open spec fn tier_world(world: Option<Seq<char>>) -> Option<Category> {
    match world {
        Some(w) => world_rule(normalize_spec(w)),
        None => None,
    }
}

/// The canonical trait list of a record: each element normalized; an absent
/// list is the empty list.
pub open spec fn norm_traits(traits: Option<Seq<Seq<char>>>) -> Seq<Seq<char>> {
    match traits {
        Some(ts) => ts.map_values(|t: Seq<char>| normalize_spec(t)),
        None => Seq::empty(),
    }
}

/// Tier 3, step A — single-trait conclusive lookup, rows in fixed priority
/// order, over canonical traits.
pub open spec fn traits_step_a(ts: Seq<Seq<char>>) -> Option<Category> {
    if ts.contains("extra_arms"@) || ts.contains("extra_head"@) || ts.contains("green"@) {
        Some(Category::HitchHiker)
    } else if ts.contains("hairy"@) {
        Some(Category::StarWars)
    } else if ts.contains("pointy_ears"@) {
        Some(Category::Rings)
    } else {
        None
    }
}

/// Tier 3, step B — compound trait conditions, consulted only when step A
/// found no single conclusive trait.
pub open spec fn traits_step_b(ts: Seq<Seq<char>>) -> Option<Category> {
    if ts.contains("blonde"@) && ts.contains("tall"@) {
        Some(Category::Marvel)
    } else if ts.contains("short"@) && ts.contains("bulky"@) {
        Some(Category::Rings)
    } else {
        None
    }
}

/// Tier 3 — traits: step A wins over step B; a list matching neither
/// abstains.
pub open spec fn tier_traits(ts: Seq<Seq<char>>) -> Option<Category> {
    match traits_step_a(ts) {
        Some(c) => Some(c),
        None => traits_step_b(ts),
    }
}

/// Tier 4 — humanoid status, keyed by the canonical traits of tier 3.
/// A present status always concludes, with `Indeterminate` when the
/// remaining traits cannot separate the universes.
pub open spec fn tier_humanoid(humanoid: Option<bool>, ts: Seq<Seq<char>>) -> Option<Category> {
    match humanoid {
        Some(true) => if ts.contains("tall"@) {
            Some(Category::Marvel)
        } else if ts.contains("bulky"@) || ts.contains("short"@) {
            Some(Category::Rings)
        } else {
            Some(Category::Indeterminate)
        },
        Some(false) => if ts.contains("tall"@) || ts.contains("short"@) {
            Some(Category::StarWars)
        } else if ts.contains("bulky"@) {
            Some(Category::HitchHiker)
        } else {
            Some(Category::Indeterminate)
        },
        None => None,
    }
}

/// The whole cascade: tiers in fixed order, the first conclusive tier wins,
/// and `Indeterminate` when all abstain.
pub open spec fn classify_spec(r: RecordView) -> Category {
    match tier_age(r.age) {
        Some(c) => c,
        None => match tier_world(r.world) {
            Some(c) => c,
            None => {
                let ts = norm_traits(r.traits);
                match tier_traits(ts) {
                    Some(c) => c,
                    None => match tier_humanoid(r.humanoid, ts) {
                        Some(c) => c,
                        None => Category::Indeterminate,
                    },
                }
            },
        },
    }
}

/// Whether the canonical trait list contains exactly the given literal.
fn contains_trait(ts: &Vec<String>, lit: &str) -> (r: bool)
    ensures
        r == ts.deep_view().contains(lit@),
{
    let n = ts.len();
    let mut i: usize = 0;
    while i < n
        invariant
            i <= n,
            n == ts@.len(),
            forall|j: int| 0 <= j < i ==> ts.deep_view()[j] != lit@,
        decreases n - i,
    {
        if str_eq(ts[i].as_str(), lit) {
            assert(ts.deep_view()[i as int] == lit@);
            return true;
        }
        i = i + 1;
    }
    false
}

/// Normalize each element of a trait list.
fn normalize_traits(ts: &Vec<String>) -> (r: Vec<String>)
    ensures
        r.deep_view() == ts.deep_view().map_values(|t: Seq<char>| normalize_spec(t)),
{
    let n = ts.len();
    let mut out: Vec<String> = Vec::new();
    let mut i: usize = 0;
    while i < n
        invariant
            i <= n,
            n == ts@.len(),
            out@.len() == i,
            forall|j: int| 0 <= j < i ==> out@[j]@ == normalize_spec(ts@[j]@),
        decreases n - i,
    {
        let w = normalize(ts[i].as_str());
        out.push(w);
        i = i + 1;
    }
    proof {
        assert forall|j: int| 0 <= j < n implies out.deep_view()[j] == ts.deep_view().map_values(
            |t: Seq<char>| normalize_spec(t),
        )[j] by {
            assert(out.deep_view()[j] == out@[j]@);
            assert(ts.deep_view()[j] == ts@[j]@);
        }
        assert(out.deep_view() =~= ts.deep_view().map_values(|t: Seq<char>| normalize_spec(t)));
    }
    out
}

/// Classify one record by the tier cascade. Deterministic and total: the
/// result is exactly what [`classify_spec`] assigns to the record's view,
/// and the record itself is never altered.
pub fn classify(r: &Record) -> (c: Category)
    ensures
        c == classify_spec(r@),
{
    if let Some(age) = r.age {
        if age > 5000 {
            return Category::Rings;
        }
        if age > 400 {
            return Category::Marvel;
        }
        if age > 200 {
            return Category::StarWars;
        }
    }
    if let Some(world) = &r.world {
        let w = normalize(world.as_str());
        if str_eq(w.as_str(), "earth") {
            return Category::Rings;
        }
        if str_eq(w.as_str(), "vogsphere") || str_eq(w.as_str(), "betelgeuse") {
            return Category::HitchHiker;
        }
        if str_eq(w.as_str(), "asgard") {
            return Category::Marvel;
        }
        if str_eq(w.as_str(), "kashyyyk") || str_eq(w.as_str(), "endor") {
            return Category::StarWars;
        }
    }
    let ts: Vec<String> = match &r.traits {
        Some(raw) => normalize_traits(raw),
        None => Vec::new(),
    };
    proof {
        assert(ts.deep_view() =~= norm_traits(r@.traits));
    }
    if contains_trait(&ts, "extra_arms") || contains_trait(&ts, "extra_head") || contains_trait(
        &ts,
        "green",
    ) {
        return Category::HitchHiker;
    }
    if contains_trait(&ts, "hairy") {
        return Category::StarWars;
    }
    if contains_trait(&ts, "pointy_ears") {
        return Category::Rings;
    }
    if contains_trait(&ts, "blonde") && contains_trait(&ts, "tall") {
        return Category::Marvel;
    }
    if contains_trait(&ts, "short") && contains_trait(&ts, "bulky") {
        return Category::Rings;
    }
    if let Some(humanoid) = r.humanoid {
        if humanoid {
            if contains_trait(&ts, "tall") {
                return Category::Marvel;
            }
            if contains_trait(&ts, "bulky") || contains_trait(&ts, "short") {
                return Category::Rings;
            }
            return Category::Indeterminate;
        } else {
            if contains_trait(&ts, "tall") || contains_trait(&ts, "short") {
                return Category::StarWars;
            }
            if contains_trait(&ts, "bulky") {
                return Category::HitchHiker;
            }
            return Category::Indeterminate;
        }
    }
    Category::Indeterminate
}

} // verus!
