//! Token accounting across model rounds.
use vstd::prelude::*;

verus! {

/// Tokens spent by one or more model rounds.
#[derive(Debug, Clone, Copy, PartialEq, Eq, Structural)]
pub struct Usage {
    pub input_tokens: u64,
    pub output_tokens: u64,
    pub total_tokens: u64,
}

/// Sum of two token counts, held at `u64::MAX` should it ever overflow.
pub open spec fn tokens_sum(a: u64, b: u64) -> u64 {
    if a + b <= u64::MAX {
        (a + b) as u64
    } else {
        u64::MAX
    }
}

/// The field-by-field sum of two usages.
pub open spec fn usage_add(a: Usage, b: Usage) -> Usage {
    Usage {
        input_tokens: tokens_sum(a.input_tokens, b.input_tokens),
        output_tokens: tokens_sum(a.output_tokens, b.output_tokens),
        total_tokens: tokens_sum(a.total_tokens, b.total_tokens),
    }
}

/// Sum of two optional usages: an absent one adds nothing, and two absent
/// ones stay absent.
pub open spec fn usage_sum_spec(a: Option<Usage>, b: Option<Usage>) -> Option<Usage> {
    match (a, b) {
        (None, None) => None,
        (None, Some(b)) => Some(b),
        (Some(a), None) => Some(a),
        (Some(a), Some(b)) => Some(usage_add(a, b)),
    }
}

/// Adds two optional usages field by field.
pub fn usage_sum(a: Option<Usage>, b: Option<Usage>) -> (r: Option<Usage>)
    ensures
        r == usage_sum_spec(a, b),
{
    match (a, b) {
        (None, None) => None,
        (None, Some(b)) => Some(b),
        (Some(a), None) => Some(a),
        (Some(a), Some(b)) => Some(
            Usage {
                input_tokens: a.input_tokens.saturating_add(b.input_tokens),
                output_tokens: a.output_tokens.saturating_add(b.output_tokens),
                total_tokens: a.total_tokens.saturating_add(b.total_tokens),
            },
        ),
    }
}

/// Summing usages: two absent ones give none, an absent one is neutral on
/// either side, and two present ones add each field on its own, exactly so
/// long as the sum fits in 64 bits.
pub proof fn lemma_usage_sum_additive(a: Usage, b: Usage)
    ensures
        usage_sum_spec(None, None) == None::<Usage>,
        usage_sum_spec(Some(a), None) == Some(a),
        usage_sum_spec(None, Some(b)) == Some(b),
        usage_sum_spec(Some(a), Some(b)) is Some,
        a.input_tokens + b.input_tokens <= u64::MAX ==> usage_sum_spec(Some(a), Some(b))->0.input_tokens
            == a.input_tokens + b.input_tokens,
        a.output_tokens + b.output_tokens <= u64::MAX ==> usage_sum_spec(Some(a), Some(b))->0.output_tokens
            == a.output_tokens + b.output_tokens,
        a.total_tokens + b.total_tokens <= u64::MAX ==> usage_sum_spec(Some(a), Some(b))->0.total_tokens
            == a.total_tokens + b.total_tokens,
{
}

} // verus!
