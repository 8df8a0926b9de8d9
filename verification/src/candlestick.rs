//! The candlestick channel name and its time frames.

use vstd::prelude::*;

verus! {

/// The time interval of a candlestick subscription.
#[derive(Clone, Copy, Debug)]
pub enum TimeFrame {
    OneMinute,
    FiveMinutes,
    FiteenMinutes,
    ThirtyMinutes,
    OneHour,
    FourHours,
    SixHours,
    TwelveHours,
    OneDay,
    OneWeek,
    TwoWeeks,
    OneMonth,
}

impl TimeFrame {
    /// The wire name of the time frame.
    pub open spec fn code_spec(&self) -> Seq<char> {
        match *self {
            TimeFrame::OneMinute => "1m"@,
            TimeFrame::FiveMinutes => "5m"@,
            TimeFrame::FiteenMinutes => "15m"@,
            TimeFrame::ThirtyMinutes => "30m"@,
            TimeFrame::OneHour => "1h"@,
            TimeFrame::FourHours => "4h"@,
            TimeFrame::SixHours => "6h"@,
            TimeFrame::TwelveHours => "12h"@,
            TimeFrame::OneDay => "1D"@,
            TimeFrame::OneWeek => "7D"@,
            TimeFrame::TwoWeeks => "14D"@,
            TimeFrame::OneMonth => "1M"@,
        }
    }

    /// Renders the wire name of the time frame.
    pub fn code(&self) -> (s: &'static str)
        ensures
            s@ == self.code_spec(),
    {
        match *self {
            TimeFrame::OneMinute => "1m",
            TimeFrame::FiveMinutes => "5m",
            TimeFrame::FiteenMinutes => "15m",
            TimeFrame::ThirtyMinutes => "30m",
            TimeFrame::OneHour => "1h",
            TimeFrame::FourHours => "4h",
            TimeFrame::SixHours => "6h",
            TimeFrame::TwelveHours => "12h",
            TimeFrame::OneDay => "1D",
            TimeFrame::OneWeek => "7D",
            TimeFrame::TwoWeeks => "14D",
            TimeFrame::OneMonth => "1M",
        }
    }
}

/// The name of the candlestick channel for a time frame and an instrument.
pub open spec fn candlestick_channel(time_frame: TimeFrame, instrument_name: Seq<char>) -> Seq<
    char,
> {
    "candlestick."@ + time_frame.code_spec() + "."@ + instrument_name
}

/// Builds the candlestick channel name, for example `candlestick.1m.ETH_CRO`.
pub fn candlestick(time_frame: TimeFrame, instrument_name: &str) -> (s: String)
    ensures
        s@ == candlestick_channel(time_frame, instrument_name@),
{
    let mut s = "candlestick.".to_owned();
    s.append(time_frame.code());
    s.append(".");
    s.append(instrument_name);
    proof {
        assert(s@ =~= candlestick_channel(time_frame, instrument_name@));
    }
    s
}

} // verus!
