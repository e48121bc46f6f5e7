use vstd::prelude::*;
use crate::common::DisplayString;

verus! {

/// The filter signal that can be passed as a parameter to `Screener`.
///
/// Each signal resolves to exactly one literal query token; the mapping is
/// total.
#[allow(dead_code)]
#[derive(Clone, Copy)]
pub enum SignalType {
    TopGainers,
    TopLosers,
    NewHigh,
    NewLow,
    MostVolatile,
    MostActive,
    UnusualVolume,
    Overbought,
    Oversold,
    Downgrades,
    Upgrades,
    EarningsBefore,
    EarningsAfter,
    RecentInsiderBuying,
    RecentInsiderSelling,
    MajorNews,
    HorizontalSR,
    TLResistance,
    TLSupport,
    WedgeUp,
    WedgeDown,
    Wedge,
    TriangleAscending,
    TriangleDescending,
    ChannelUp,
    ChannelDown,
    Channel,
    DoubleTop,
    DoubleBottom,
    MultipleTop,
    MultipleBottom,
    HeadShoulders,
    HeadShouldersInverse,
}

impl SignalType {
    /// The query token of each signal, as a mathematical value.
    pub open spec fn spec_token(self) -> Seq<char> {
        match self {
            SignalType::TopGainers => "ta_topgainers"@,
            SignalType::TopLosers => "ta_toplosers"@,
            SignalType::NewHigh => "ta_newhigh"@,
            SignalType::NewLow => "ta_newlow"@,
            SignalType::MostVolatile => "ta_mostvolatile"@,
            SignalType::MostActive => "ta_mostactive"@,
            SignalType::UnusualVolume => "ta_unusualvolume"@,
            SignalType::Overbought => "ta_overbought"@,
            SignalType::Oversold => "ta_oversold"@,
            SignalType::Downgrades => "n_downgrades"@,
            SignalType::Upgrades => "n_upgrades"@,
            SignalType::EarningsBefore => "n_earningsbefore"@,
            SignalType::EarningsAfter => "n_earningsafter"@,
            SignalType::RecentInsiderBuying => "it_latestbuys"@,
            SignalType::RecentInsiderSelling => "it_latestsales"@,
            SignalType::MajorNews => "n_majornews"@,
            SignalType::HorizontalSR => "ta_p_horizontal"@,
            SignalType::TLResistance => "ta_p_tlresistance"@,
            SignalType::TLSupport => "ta_p_tlsupport"@,
            SignalType::WedgeUp => "ta_p_wedgeup"@,
            SignalType::WedgeDown => "ta_p_wedgedown"@,
            SignalType::TriangleAscending => "ta_p_wedgeresistance"@,
            SignalType::TriangleDescending => "ta_p_wedgesupport"@,
            SignalType::Wedge => "ta_p_wedge"@,
            SignalType::ChannelUp => "ta_p_channelup"@,
            SignalType::ChannelDown => "ta_p_channeldown"@,
            SignalType::Channel => "ta_p_channel"@,
            SignalType::DoubleTop => "ta_p_doubletop"@,
            SignalType::DoubleBottom => "ta_p_doublebottom"@,
            SignalType::MultipleTop => "ta_p_multipletop"@,
            SignalType::MultipleBottom => "ta_p_multiplebottom"@,
            SignalType::HeadShoulders => "ta_p_headandshoulders"@,
            SignalType::HeadShouldersInverse => "ta_p_headandshouldersinv"@,
        }
    }

    /// Resolves the signal to the literal token used as the `s=` URL
    /// parameter.
    pub fn token(&self) -> (r: &'static str)
        ensures
            r@ == self.spec_token(),
    {
        match self {
            SignalType::TopGainers => "ta_topgainers",
            SignalType::TopLosers => "ta_toplosers",
            SignalType::NewHigh => "ta_newhigh",
            SignalType::NewLow => "ta_newlow",
            SignalType::MostVolatile => "ta_mostvolatile",
            SignalType::MostActive => "ta_mostactive",
            SignalType::UnusualVolume => "ta_unusualvolume",
            SignalType::Overbought => "ta_overbought",
            SignalType::Oversold => "ta_oversold",
            SignalType::Downgrades => "n_downgrades",
            SignalType::Upgrades => "n_upgrades",
            SignalType::EarningsBefore => "n_earningsbefore",
            SignalType::EarningsAfter => "n_earningsafter",
            SignalType::RecentInsiderBuying => "it_latestbuys",
            SignalType::RecentInsiderSelling => "it_latestsales",
            SignalType::MajorNews => "n_majornews",
            SignalType::HorizontalSR => "ta_p_horizontal",
            SignalType::TLResistance => "ta_p_tlresistance",
            SignalType::TLSupport => "ta_p_tlsupport",
            SignalType::WedgeUp => "ta_p_wedgeup",
            SignalType::WedgeDown => "ta_p_wedgedown",
            SignalType::TriangleAscending => "ta_p_wedgeresistance",
            SignalType::TriangleDescending => "ta_p_wedgesupport",
            SignalType::Wedge => "ta_p_wedge",
            SignalType::ChannelUp => "ta_p_channelup",
            SignalType::ChannelDown => "ta_p_channeldown",
            SignalType::Channel => "ta_p_channel",
            SignalType::DoubleTop => "ta_p_doubletop",
            SignalType::DoubleBottom => "ta_p_doublebottom",
            SignalType::MultipleTop => "ta_p_multipletop",
            SignalType::MultipleBottom => "ta_p_multiplebottom",
            SignalType::HeadShoulders => "ta_p_headandshoulders",
            SignalType::HeadShouldersInverse => "ta_p_headandshouldersinv",
        }
    }
}

/// Resolution is total and deterministic: two calls on equal signals yield
/// equal tokens.
pub proof fn lemma_signal_token_deterministic(a: SignalType, b: SignalType)
    requires
        a == b,
    ensures
        a.spec_token() == b.spec_token(),
{
}

impl DisplayString for SignalType {
    /// The readable description of each signal, as a mathematical value.
    open spec fn spec_display(&self) -> Seq<char> {
        match self {
            SignalType::TopGainers => "Top Gainers"@,
            SignalType::TopLosers => "Top Losers"@,
            SignalType::NewHigh => "New High"@,
            SignalType::NewLow => "New Low"@,
            SignalType::MostVolatile => "Most Volatile"@,
            SignalType::MostActive => "Most Active"@,
            SignalType::UnusualVolume => "Unusual Volume"@,
            SignalType::Overbought => "Overbought"@,
            SignalType::Oversold => "Oversold"@,
            SignalType::Downgrades => "Downgrades"@,
            SignalType::Upgrades => "Upgrades"@,
            SignalType::EarningsBefore => "Earnings Before"@,
            SignalType::EarningsAfter => "Earnings After"@,
            SignalType::RecentInsiderBuying => "Recent Insider Buying"@,
            SignalType::RecentInsiderSelling => "Recent Insider Selling"@,
            SignalType::MajorNews => "Major News"@,
            SignalType::HorizontalSR => "Horizontal S/R"@,
            SignalType::TLResistance => "TL Resistance"@,
            SignalType::TLSupport => "TL Support"@,
            SignalType::WedgeUp => "Wedge Up"@,
            SignalType::WedgeDown => "Wedge Down"@,
            SignalType::Wedge => "Wedge"@,
            SignalType::TriangleAscending => "Triangle Ascending"@,
            SignalType::TriangleDescending => "Triangle Descending"@,
            SignalType::ChannelUp => "Channel Up"@,
            SignalType::ChannelDown => "Channel Down"@,
            SignalType::Channel => "Channel"@,
            SignalType::DoubleTop => "Double Top"@,
            SignalType::DoubleBottom => "Double Bottom"@,
            SignalType::MultipleTop => "Multiple Top"@,
            SignalType::MultipleBottom => "Multiple Bottom"@,
            SignalType::HeadShoulders => "Head & Shoulders"@,
            SignalType::HeadShouldersInverse => "Head & Shoulders Inverse"@,
        }
    }

    /// Returns the readable description of the signal.
    fn to_display_string(&self) -> (r: &'static str)
        ensures
            r@ == self.spec_display(),
    {
        match self {
            SignalType::TopGainers => "Top Gainers",
            SignalType::TopLosers => "Top Losers",
            SignalType::NewHigh => "New High",
            SignalType::NewLow => "New Low",
            SignalType::MostVolatile => "Most Volatile",
            SignalType::MostActive => "Most Active",
            SignalType::UnusualVolume => "Unusual Volume",
            SignalType::Overbought => "Overbought",
            SignalType::Oversold => "Oversold",
            SignalType::Downgrades => "Downgrades",
            SignalType::Upgrades => "Upgrades",
            SignalType::EarningsBefore => "Earnings Before",
            SignalType::EarningsAfter => "Earnings After",
            SignalType::RecentInsiderBuying => "Recent Insider Buying",
            SignalType::RecentInsiderSelling => "Recent Insider Selling",
            SignalType::MajorNews => "Major News",
            SignalType::HorizontalSR => "Horizontal S/R",
            SignalType::TLResistance => "TL Resistance",
            SignalType::TLSupport => "TL Support",
            SignalType::WedgeUp => "Wedge Up",
            SignalType::WedgeDown => "Wedge Down",
            SignalType::Wedge => "Wedge",
            SignalType::TriangleAscending => "Triangle Ascending",
            SignalType::TriangleDescending => "Triangle Descending",
            SignalType::ChannelUp => "Channel Up",
            SignalType::ChannelDown => "Channel Down",
            SignalType::Channel => "Channel",
            SignalType::DoubleTop => "Double Top",
            SignalType::DoubleBottom => "Double Bottom",
            SignalType::MultipleTop => "Multiple Top",
            SignalType::MultipleBottom => "Multiple Bottom",
            SignalType::HeadShoulders => "Head & Shoulders",
            SignalType::HeadShouldersInverse => "Head & Shoulders Inverse",
        }
    }
}

} // verus!
