//! State of the socket control panel: what it shows and which request each
//! button sends.

use vstd::prelude::*;

verus! {

/// What the panel shows: the last status and the last switching answer.
#[derive(Debug, Clone)]
pub struct Counter {
    pub stats: String,
    pub tooltip: String,
}

/// Events of the panel.
#[derive(Debug, Clone)]
pub enum Message {
    TurnOnPressed,
    TurnOffPressed,
    GetStatisticsPressed,
    ReceivedStatistics(String),
    TooltipUpdate(String),
}

/// The request that an event asks to be sent to the socket.
#[derive(Debug, Clone, Copy, PartialEq, Eq)]
pub enum Action {
    Nothing,
    TurnOn,
    TurnOff,
    FetchStatus,
}

impl Counter {
    /// A panel that shows nothing yet.
    pub fn new() -> (r: Self)
        ensures
            r.stats@ == Seq::<char>::empty(),
            r.tooltip@ == Seq::<char>::empty(),
    {
        Counter { stats: String::new(), tooltip: String::new() }
    }

    pub fn title(&self) -> (r: String)
        ensures
            r@ == "SmartSocket App - Iced"@,
    {
        String::from_str("SmartSocket App - Iced")
    }

    /// Button presses ask for a request and change nothing shown; answers
    /// are shown and ask for nothing.
    pub fn update(&mut self, message: Message) -> (r: Action)
        ensures
            r == match message {
                Message::TurnOnPressed => Action::TurnOn,
                Message::TurnOffPressed => Action::TurnOff,
                Message::GetStatisticsPressed => Action::FetchStatus,
                _ => Action::Nothing,
            },
            final(self).stats@ == match message {
                Message::ReceivedStatistics(s) => s@,
                _ => old(self).stats@,
            },
            final(self).tooltip@ == match message {
                Message::TooltipUpdate(s) => s@,
                _ => old(self).tooltip@,
            },
    {
        match message {
            Message::TurnOnPressed => Action::TurnOn,
            Message::TurnOffPressed => Action::TurnOff,
            Message::GetStatisticsPressed => Action::FetchStatus,
            Message::ReceivedStatistics(s) => {
                self.stats = s;
                Action::Nothing
            },
            Message::TooltipUpdate(s) => {
                self.tooltip = s;
                Action::Nothing
            },
        }
    }
}

} // verus!
