//! The entries of a published message: a key and a plain value each, for the
//! caller to render as a JSON object.

use vstd::prelude::*;

use crate::field::Field;

verus! {

/// The key of an entry.
#[derive(Clone, Copy, Debug, PartialEq, Eq, Structural)]
pub enum JsonKey {
    /// The value of a field.
    Field(Field),
    /// The battery charge drawn.
    MainBatteryAmpHourTotal,
    /// How many messages the period collected.
    MessageCount,
    /// How many frames of the period failed their checksum.
    ChecksumErrorCount,
}

impl JsonKey {
    /// The text of the key.
    pub open spec fn spec_name(self) -> Seq<char> {
        match self {
            JsonKey::Field(f) => f.spec_key(),
            JsonKey::MainBatteryAmpHourTotal => "main_battery_amp_hour_total"@,
            JsonKey::MessageCount => "message_count"@,
            JsonKey::ChecksumErrorCount => "checksum_error_count"@,
        }
    }

    /// The text of the key.
    pub fn name(self) -> (s: &'static str)
        ensures
            s@ == self.spec_name(),
    {
        match self {
            JsonKey::Field(f) => f.key(),
            JsonKey::MainBatteryAmpHourTotal => "main_battery_amp_hour_total",
            JsonKey::MessageCount => "message_count",
            JsonKey::ChecksumErrorCount => "checksum_error_count",
        }
    }
}

/// The value of an entry.
#[derive(Clone, Debug, PartialEq, Eq)]
pub enum JsonValue {
    /// An integer.
    Int(i128),
    /// A text.
    Text(String),
    /// The mean `sum / count` of an averaged measurement, to be published
    /// rounded to hundredths.
    Mean { sum: i128, count: usize },
    /// The battery charge drawn, in milliampere-nanoseconds, to be published
    /// in milliampere-hours rounded to thousandths.
    Charge(i128),
    /// Ten times the number that the floating-point literal denotes.
    TenfoldFloat(String),
}

/// The value of an entry, as the specifications see it.
pub enum JsonValueView {
    /// An integer.
    Int(int),
    /// A text.
    Text(Seq<char>),
    /// The mean of the sum over the count.
    Mean(int, nat),
    /// The charge drawn, in milliampere-nanoseconds.
    Charge(int),
    /// Ten times the number that the literal denotes.
    TenfoldFloat(Seq<char>),
}

impl View for JsonValue {
    type V = JsonValueView;

    open spec fn view(&self) -> JsonValueView {
        match self {
            JsonValue::Int(v) => JsonValueView::Int(*v as int),
            JsonValue::Text(t) => JsonValueView::Text(t@),
            JsonValue::Mean { sum, count } => JsonValueView::Mean(*sum as int, *count as nat),
            JsonValue::Charge(sum) => JsonValueView::Charge(*sum as int),
            JsonValue::TenfoldFloat(t) => JsonValueView::TenfoldFloat(t@),
        }
    }
}

/// One entry of a published message.
#[derive(Clone, Debug, PartialEq, Eq)]
pub struct JsonEntry {
    /// Its key.
    pub key: JsonKey,
    /// Its value.
    pub value: JsonValue,
}

/// One entry, as the specifications see it.
pub struct JsonEntryView {
    /// Its key.
    pub key: JsonKey,
    /// Its value.
    pub value: JsonValueView,
}

impl View for JsonEntry {
    type V = JsonEntryView;

    open spec fn view(&self) -> JsonEntryView {
        JsonEntryView { key: self.key, value: self.value@ }
    }
}

/// Entries as the specifications see them.
pub open spec fn entries_view(entries: Seq<JsonEntry>) -> Seq<JsonEntryView> {
    entries.map_values(|e: JsonEntry| e@)
}

} // verus!
