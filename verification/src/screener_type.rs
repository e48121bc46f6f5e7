use vstd::prelude::*;

verus! {

/// The screener page kind that can be passed as a parameter to `Screener`.
///
/// Each kind resolves to exactly one literal query token (the page's `v=`
/// number); the mapping is total.
#[allow(dead_code)]
#[derive(Clone, Copy)]
pub enum ScreenerType {
    Financial,
    Overview,
    Ownership,
    Performance,
    Custom,
    Technical,
    Valuation,
}

impl ScreenerType {
    /// The query token of each kind, as a mathematical value.
    pub open spec fn spec_token(self) -> Seq<char> {
        match self {
            ScreenerType::Overview => "111"@,
            ScreenerType::Valuation => "121"@,
            ScreenerType::Ownership => "131"@,
            ScreenerType::Performance => "141"@,
            ScreenerType::Custom => "152"@,
            ScreenerType::Financial => "161"@,
            ScreenerType::Technical => "171"@,
        }
    }

    /// Resolves the kind to the literal token used as the `v=` URL parameter.
    pub fn token(&self) -> (r: &'static str)
        ensures
            r@ == self.spec_token(),
    {
        match self {
            ScreenerType::Overview => "111",
            ScreenerType::Valuation => "121",
            ScreenerType::Ownership => "131",
            ScreenerType::Performance => "141",
            ScreenerType::Custom => "152",
            ScreenerType::Financial => "161",
            ScreenerType::Technical => "171",
        }
    }
}

/// Resolution is total and deterministic: two calls on equal kinds yield
/// equal tokens.
pub proof fn lemma_screener_token_deterministic(a: ScreenerType, b: ScreenerType)
    requires
        a == b,
    ensures
        a.spec_token() == b.spec_token(),
{
}

} // verus!
