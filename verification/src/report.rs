//! The events of a report, from the words of one platform to those of
//! another.

use vstd::prelude::*;

verus! {

/// What happened to an account.
#[derive(Debug, Clone, Copy, PartialEq, Eq, Structural)]
pub enum SnowballRecordEvent {
    /// An asset was bought.
    Buy,
    /// An asset was sold.
    Sell,
    /// An asset paid out.
    Dividend,
    /// Money was paid in.
    CashIn,
    /// The platform paid money to the account.
    CashGain,
}

/// The event that the report calls `words`.
pub open spec fn event_of(words: Seq<char>) -> Option<SnowballRecordEvent> {
    if words == "Выдача займа"@ {
        Some(SnowballRecordEvent::Buy)
    } else if words == "Возврат основного долга"@ {
        Some(SnowballRecordEvent::Sell)
    } else if words == "Получение дохода (проценты, пени)"@ {
        Some(SnowballRecordEvent::Dividend)
    } else if words == "Пополнение л/с"@ {
        Some(SnowballRecordEvent::CashIn)
    } else if words == "Начисление % на остаток"@ {
        Some(SnowballRecordEvent::CashGain)
    } else {
        None
    }
}

impl SnowballRecordEvent {
    /// The event that the report calls `value`; for other words the error
    /// says which words were not known.
    pub fn try_from(value: String) -> (event: Result<SnowballRecordEvent, String>)
        ensures
            match event {
                Ok(known) => event_of(value@) == Some(known),
                Err(message) => event_of(value@) is None && message@ == "unknown "@ + value@,
            },
    {
        let words = value.as_str();
        if *words == *"Выдача займа" {
            Ok(SnowballRecordEvent::Buy)
        } else if *words == *"Возврат основного долга" {
            Ok(SnowballRecordEvent::Sell)
        } else if *words == *"Получение дохода (проценты, пени)" {
            Ok(SnowballRecordEvent::Dividend)
        } else if *words == *"Пополнение л/с" {
            Ok(SnowballRecordEvent::CashIn)
        } else if *words == *"Начисление % на остаток" {
            Ok(SnowballRecordEvent::CashGain)
        } else {
            let mut message = "unknown ".to_owned();
            vstd::string::StringExecFns::append(&mut message, words);
            Err(message)
        }
    }

    /// The event in the words of the other platform.
    pub fn to_string(&self) -> (words: String)
        ensures
            words@ == match self {
                SnowballRecordEvent::Buy => "Buy"@,
                SnowballRecordEvent::Sell => "Sell"@,
                SnowballRecordEvent::Dividend => "Dividend"@,
                SnowballRecordEvent::CashIn => "Cash_In"@,
                SnowballRecordEvent::CashGain => "Cash_Gain"@,
            },
    {
        let words = match self {
            SnowballRecordEvent::Buy => "Buy",
            SnowballRecordEvent::Sell => "Sell",
            SnowballRecordEvent::Dividend => "Dividend",
            SnowballRecordEvent::CashIn => "Cash_In",
            SnowballRecordEvent::CashGain => "Cash_Gain",
        };
        words.to_owned()
    }

    /// The symbol of the record: money for money paid in or gained, the
    /// loans of the platform else.
    pub fn symbol(&self) -> (symbol: &'static str)
        ensures
            symbol@ == match self {
                SnowballRecordEvent::CashIn | SnowballRecordEvent::CashGain => "RUB"@,
                _ => "ZAIMI_POTOK"@,
            },
    {
        match self {
            SnowballRecordEvent::CashIn | SnowballRecordEvent::CashGain => "RUB",
            _ => "ZAIMI_POTOK",
        }
    }

    /// The price of one unit: nothing for a payout, one else.
    pub fn unit_price(&self) -> (price: u8)
        ensures
            price == if self == SnowballRecordEvent::Dividend {
                0u8
            } else {
                1u8
            },
    {
        match self {
            SnowballRecordEvent::Dividend => 0,
            _ => 1,
        }
    }

    /// Whether the quantity of the record is what left the account; else it
    /// is what came in.
    pub fn counts_outcome(&self) -> (outcome: bool)
        ensures
            outcome == (self == SnowballRecordEvent::Buy),
    {
        match self {
            SnowballRecordEvent::Buy => true,
            _ => false,
        }
    }

    /// The exchange of the record: none for money paid in or gained.
    pub fn exchange(&self) -> (exchange: Option<&'static str>)
        ensures
            match self {
                SnowballRecordEvent::CashIn | SnowballRecordEvent::CashGain => exchange is None,
                _ => exchange is Some && exchange->0@ == "CUSTOM_HOLDING"@,
            },
    {
        match self {
            SnowballRecordEvent::CashIn | SnowballRecordEvent::CashGain => None,
            _ => Some("CUSTOM_HOLDING"),
        }
    }
}

/// How many of the `height` rows of a report are records: the last row holds
/// the total, and where its first cell is there and empty, the row before it
/// counts for nothing either.
pub fn last_row_index(height: usize, last_cell_empty: Option<bool>) -> (rows: usize)
    requires
        height >= 1,
        last_cell_empty == Some(true) ==> height >= 2,
    ensures
        rows == if last_cell_empty == Some(true) {
            height - 2
        } else {
            height - 1
        },
{
    let mut rows = height - 1;
    if let Some(empty) = last_cell_empty {
        if empty {
            rows -= 1;
        }
    }
    rows
}

} // verus!
