//! Which price list applies to a model, and how a turn's token usage splits
//! into cache hits, cache misses and output (reasoning included).

use vstd::prelude::*;
use crate::text;

verus! {

/// Token usage reported for one turn.
#[derive(Debug, Clone, Copy)]
pub struct Usage {
    pub input_tokens: u64,
    pub output_tokens: u64,
    pub prompt_cache_hit_tokens: Option<u64>,
    pub prompt_cache_miss_tokens: Option<u64>,
    pub reasoning_tokens: Option<u64>,
}

/// No tokens used.
pub open spec fn no_usage() -> Usage {
    Usage {
        input_tokens: 0,
        output_tokens: 0,
        prompt_cache_hit_tokens: None,
        prompt_cache_miss_tokens: None,
        reasoning_tokens: None,
    }
}

impl Usage {
    pub fn zero() -> (r: Self)
        ensures
            r == no_usage(),
    {
        Usage {
            input_tokens: 0,
            output_tokens: 0,
            prompt_cache_hit_tokens: None,
            prompt_cache_miss_tokens: None,
            reasoning_tokens: None,
        }
    }
}

/// The DeepSeek price lists.
#[derive(Debug, Clone, Copy, PartialEq, Eq, Structural)]
pub enum PriceTier {
    V4Pro,
    V4Flash,
}

/// The Unicode lowercase of a text (`str::to_lowercase`).
pub uninterp spec fn unicode_lower(s: Seq<char>) -> Seq<char>;

/// `str::to_lowercase`: the contract names the result, a function of the
/// text alone (Unicode's case tables are not restated).
#[verifier::external_body]
fn to_lowercase(s: &str) -> (r: String)
    ensures
        r@ == unicode_lower(s@),
{
    s.to_lowercase()
}

/// The price list of a model: none for NVIDIA-hosted ids (`deepseek-ai/…`,
/// billed by NVIDIA) or non-DeepSeek models; V4 Pro for `v4-pro`/`v4pro`,
/// V4 Flash otherwise.
pub open spec fn tier_of(model: Seq<char>) -> Option<PriceTier> {
    let l = unicode_lower(model);
    if text::starts_with(l, "deepseek-ai/"@) || !text::contains(l, "deepseek"@) {
        None
    } else if text::contains(l, "v4-pro"@) || text::contains(l, "v4pro"@) {
        Some(PriceTier::V4Pro)
    } else {
        Some(PriceTier::V4Flash)
    }
}

pub fn pricing_tier(model: &str) -> (r: Option<PriceTier>)
    ensures
        r == tier_of(model@),
{
    let l = to_lowercase(model);
    let v = text::chars_of(l.as_str());
    if text::vec_starts_with(&v, "deepseek-ai/") || !text::vec_contains(&v, "deepseek") {
        None
    } else if text::vec_contains(&v, "v4-pro") || text::vec_contains(&v, "v4pro") {
        Some(PriceTier::V4Pro)
    } else {
        Some(PriceTier::V4Flash)
    }
}

pub open spec fn sat_add(a: u64, b: u64) -> u64 {
    if a + b > u64::MAX {
        u64::MAX
    } else {
        (a + b) as u64
    }
}

pub open spec fn sat_sub(a: u64, b: u64) -> u64 {
    if a >= b {
        (a - b) as u64
    } else {
        0
    }
}

/// Billed token counts: cache hits; cache misses plus any input neither
/// hit nor miss accounts for; output plus reasoning.
#[derive(Debug, Clone, Copy, PartialEq, Eq)]
pub struct BilledTokens {
    pub hit: u64,
    pub miss: u64,
    pub output: u64,
}

pub open spec fn billed_of(u: Usage) -> (u64, u64, u64) {
    let hit = match u.prompt_cache_hit_tokens {
        Some(h) => h,
        None => 0,
    };
    let miss = match u.prompt_cache_miss_tokens {
        Some(m) => m,
        None => sat_sub(u.input_tokens, hit),
    };
    let uncategorized = sat_sub(u.input_tokens, sat_add(hit, miss));
    let reasoning = match u.reasoning_tokens {
        Some(r) => r,
        None => 0,
    };
    (hit, sat_add(miss, uncategorized), sat_add(u.output_tokens, reasoning))
}

pub fn billed_tokens(u: &Usage) -> (r: BilledTokens)
    ensures
        (r.hit, r.miss, r.output) == billed_of(*u),
{
    let hit = match u.prompt_cache_hit_tokens {
        Some(h) => h,
        None => 0,
    };
    let miss = match u.prompt_cache_miss_tokens {
        Some(m) => m,
        None => u.input_tokens.saturating_sub(hit),
    };
    let uncategorized = u.input_tokens.saturating_sub(hit.saturating_add(miss));
    let reasoning = match u.reasoning_tokens {
        Some(r) => r,
        None => 0,
    };
    BilledTokens {
        hit,
        miss: miss.saturating_add(uncategorized),
        output: u.output_tokens.saturating_add(reasoning),
    }
}


/// A DeepSeek model id (its lowercase names `deepseek`, and it is not an
/// NVIDIA-hosted `deepseek-ai/…` id) that names `v4pro` or `v4-pro` anywhere,
/// at position `i`, gets the V4 Pro price list; one that names neither gets
/// the V4 Flash list.
pub proof fn lemma_v4_pro_tier(model: Seq<char>, i: int, j: int)
    requires
        !text::starts_with(unicode_lower(model), "deepseek-ai/"@),
        0 <= j && j + 8 <= unicode_lower(model).len(),
        unicode_lower(model).subrange(j, j + 8) == "deepseek"@,
    ensures
        (0 <= i && i + 5 <= unicode_lower(model).len() && unicode_lower(model).subrange(i, i + 5)
            == "v4pro"@) ==> tier_of(model) == Some(PriceTier::V4Pro),
        (0 <= i && i + 6 <= unicode_lower(model).len() && unicode_lower(model).subrange(i, i + 6)
            == "v4-pro"@) ==> tier_of(model) == Some(PriceTier::V4Pro),
        (forall|k: int|
            0 <= k && k + 5 <= unicode_lower(model).len() ==> #[trigger] unicode_lower(model).subrange(k, k + 5)
                != "v4pro"@) && (forall|k: int|
            0 <= k && k + 6 <= unicode_lower(model).len() ==> #[trigger] unicode_lower(model).subrange(k, k + 6)
                != "v4-pro"@) ==> tier_of(model) == Some(PriceTier::V4Flash),
{
    let l = unicode_lower(model);
    reveal_strlit("deepseek");
    reveal_strlit("v4pro");
    reveal_strlit("v4-pro");
    assert(text::contains(l, "deepseek"@)) by {
        assert(l.subrange(j, j + "deepseek"@.len()) == "deepseek"@);
    }
    if 0 <= i && i + 5 <= l.len() && l.subrange(i, i + 5) == "v4pro"@ {
        assert(l.subrange(i, i + "v4pro"@.len()) == "v4pro"@);
        assert(text::contains(l, "v4pro"@));
    }
    if 0 <= i && i + 6 <= l.len() && l.subrange(i, i + 6) == "v4-pro"@ {
        assert(l.subrange(i, i + "v4-pro"@.len()) == "v4-pro"@);
        assert(text::contains(l, "v4-pro"@));
    }
}

} // verus!
