//! Collecting decoded messages over a publishing period: averages of the
//! measurements, the latest value of everything else, the battery charge
//! drawn over time, and counts of messages and checksum errors.

use vstd::prelude::*;

use std::time::Instant;

use crate::clock::{instant_now, nanos_between, nanos_since};
use crate::decoder::ReadError;
use crate::field::{Field, AVERAGED_COUNT, FIELD_COUNT};
use crate::field_laws::is_measurement;
use crate::json::{entries_view, JsonEntry, JsonEntryView, JsonKey, JsonValue, JsonValueView};
use crate::message::{int_in, FieldData, FieldValue, Message};

verus! {

/// The state of operation in which a charger floats the battery; entering
/// it means the battery is full.
pub const FLOAT_STATE: isize = 5;

/// What an averaging collector holds, as the specifications see it.
pub struct AverageView {
    /// The sum of the values collected.
    pub total: int,
    /// How many values were collected.
    pub count: nat,
}

impl AverageView {
    /// The state after collecting `v`: a value is added and counted;
    /// nothing changes when there is none.
    pub open spec fn collected(self, v: Option<isize>) -> AverageView {
        match v {
            Some(x) => AverageView { total: self.total + x, count: self.count + 1 },
            None => self,
        }
    }

    /// The sum lies within what `count` values of type `isize` can add up to.
    pub open spec fn in_range(self) -> bool {
        isize::MIN * self.count <= self.total <= isize::MAX * self.count
    }
}

/// Collects values of a measurement to average them.
#[derive(Clone, Copy, Debug)]
pub struct AveragingCollector {
    sum: i128,
    count: usize,
}

impl View for AveragingCollector {
    type V = AverageView;

    closed spec fn view(&self) -> AverageView {
        AverageView { total: self.sum as int, count: self.count as nat }
    }
}

impl AveragingCollector {
    /// A collector that has collected nothing.
    pub fn new() -> (a: AveragingCollector)
        ensures
            a@ == (AverageView { total: 0, count: 0 }),
    {
        AveragingCollector { sum: 0, count: 0 }
    }

    /// Collects `value`, if there is one.
    pub fn collect(&mut self, value: Option<isize>)
        requires
            old(self)@.in_range(),
            value is Some ==> old(self)@.count < usize::MAX,
        ensures
            final(self)@ == old(self)@.collected(value),
            final(self)@.in_range(),
    {
        if let Some(v) = value {
            let ghost c = self.count as int;
            assert(isize::MAX * (c + 1) < i128::MAX && isize::MIN * (c + 1) > i128::MIN) by (nonlinear_arith)
                requires
                    0 <= c < usize::MAX,
                    usize::MAX <= u64::MAX,
                    isize::MAX <= i64::MAX,
                    isize::MIN >= i64::MIN,
            ;
            assert(isize::MAX * c + isize::MAX == isize::MAX * (c + 1)) by (nonlinear_arith);
            assert(isize::MIN * c + isize::MIN == isize::MIN * (c + 1)) by (nonlinear_arith);
            self.sum = self.sum + v as i128;
            self.count = self.count + 1;
        }
    }
}

/// `x`, held within the range of `i128`.
pub open spec fn saturate(x: int) -> int {
    if x > i128::MAX {
        i128::MAX as int
    } else if x < i128::MIN {
        i128::MIN as int
    } else {
        x
    }
}

/// What an integrating collector holds, as the specifications see it.
pub struct IntegratorView {
    /// The sum of the values collected, held within the bounds.
    pub total: int,
    /// Whether a value was collected since the last reset.
    pub set: bool,
    /// The least the sum may be.
    pub clamp_min: Option<i128>,
    /// The most the sum may be.
    pub clamp_max: Option<i128>,
}

impl IntegratorView {
    /// The state after collecting `v`: the value is added (within the range
    /// of `i128`), the sum is brought up to the least and down to the most
    /// it may be, and the collector counts as set. Nothing changes when
    /// there is no value.
    pub open spec fn collected(self, v: Option<int>) -> IntegratorView {
        match v {
            Some(x) => {
                let added = saturate(self.total + x);
                let raised = match self.clamp_min {
                    Some(lo) => if added < lo { lo as int } else { added },
                    None => added,
                };
                let lowered = match self.clamp_max {
                    Some(hi) => if raised > hi { hi as int } else { raised },
                    None => raised,
                };
                IntegratorView { total: lowered, set: true, ..self }
            },
            None => self,
        }
    }

    /// The state after a reset: sum zero, and not set.
    pub open spec fn reset(self) -> IntegratorView {
        IntegratorView { total: 0, set: false, ..self }
    }

}

/// Adds up values over time, within optional bounds.
#[derive(Clone, Copy, Debug)]
pub struct IntegratingCollector {
    sum: i128,
    set: bool,
    clamp_min: Option<i128>,
    clamp_max: Option<i128>,
}

impl View for IntegratingCollector {
    type V = IntegratorView;

    closed spec fn view(&self) -> IntegratorView {
        IntegratorView {
            total: self.sum as int,
            set: self.set,
            clamp_min: self.clamp_min,
            clamp_max: self.clamp_max,
        }
    }
}

impl IntegratingCollector {
    /// A collector with sum zero, not set, with the given bounds.
    pub fn new(clamp_min: Option<i128>, clamp_max: Option<i128>) -> (c: IntegratingCollector)
        ensures
            c@ == (IntegratorView { total: 0, set: false, clamp_min, clamp_max }),
    {
        IntegratingCollector { sum: 0, set: false, clamp_min, clamp_max }
    }

    /// Collects `value`, if there is one.
    pub fn collect(&mut self, value: Option<i128>)
        ensures
            final(self)@ == old(self)@.collected(
                match value {
                    Some(v) => Some(v as int),
                    None => None,
                },
            ),
    {
        if let Some(v) = value {
            self.sum = match self.sum.checked_add(v) {
                Some(total) => total,
                None => if v > 0 {
                    i128::MAX
                } else {
                    i128::MIN
                },
            };
            self.set = true;
            if let Some(clamp_min) = self.clamp_min {
                if self.sum < clamp_min {
                    self.sum = clamp_min;
                }
            }
            if let Some(clamp_max) = self.clamp_max {
                if self.sum > clamp_max {
                    self.sum = clamp_max;
                }
            }
        }
    }

    /// Sets the sum to zero and the collector to not set.
    pub fn reset(&mut self)
        ensures
            final(self)@ == old(self)@.reset(),
            final(self)@.total == 0,
            !final(self)@.set,
    {
        self.sum = 0;
        self.set = false;
    }
}

/// The state code that `fields` hold, or `-1` when they hold none.
pub open spec fn state_code(fields: Map<Field, FieldValue>) -> int {
    match int_in(fields, Field::StateOfOperation) {
        Some(v) => v as int,
        None => -1,
    }
}

/// Whether a message with `new` after one with `old` marks the battery
/// turning full: the state changes into the float state.
pub open spec fn entering_float(old: Map<Field, FieldValue>, new: Map<Field, FieldValue>) -> bool {
    state_code(old) != FLOAT_STATE && state_code(new) == FLOAT_STATE
}

/// What a collector holds, as the specifications see it.
pub struct CollectorView {
    /// One averaging state per averaged field, in field order.
    pub averages: Seq<AverageView>,
    /// The fields of the latest message collected.
    pub latest: Map<Field, FieldValue>,
    /// The battery charge drawn, in milliampere-nanoseconds.
    pub amp_hours: IntegratorView,
    /// How many messages were collected.
    pub message_count: nat,
    /// How many frames failed their checksum.
    pub checksum_error_count: nat,
}

impl CollectorView {
    /// The collector's invariant: an average per averaged field, none over
    /// more values than there were messages, each sum within what its values
    /// can add up to; the charge drawn is bounded above by zero and never
    /// above it.
    pub open spec fn wf(self) -> bool {
        &&& self.averages.len() == AVERAGED_COUNT
        &&& forall|s: int|
            0 <= s < AVERAGED_COUNT ==> (#[trigger] self.averages[s]).in_range()
                && self.averages[s].count <= self.message_count
        &&& self.amp_hours.clamp_min is None
        &&& self.amp_hours.clamp_max == Some(0i128)
        &&& self.amp_hours.total <= 0
        &&& self.message_count <= usize::MAX
        &&& self.checksum_error_count <= usize::MAX
    }

    /// The state after collecting a message with fields `msg`, `elapsed`
    /// nanoseconds after the previous one (none for the first): each
    /// averaged field collects the message's value; the message becomes the
    /// latest; the battery current times the elapsed time is added to the
    /// charge drawn, which is set to zero when the battery turns full; one
    /// more message is counted.
    pub open spec fn after_collect(self, msg: Map<Field, FieldValue>, elapsed: Option<u64>) -> CollectorView {
        let integrated = match elapsed {
            Some(e) => match int_in(msg, Field::MainBatteryCurrent) {
                Some(c) => self.amp_hours.collected(Some(c * e)),
                None => self.amp_hours,
            },
            None => self.amp_hours,
        };
        CollectorView {
            averages: Seq::new(
                self.averages.len(),
                |s: int| self.averages[s].collected(int_in(msg, Field::averaged_at(s))),
            ),
            latest: msg,
            amp_hours: if entering_float(self.latest, msg) {
                IntegratorView { total: 0, ..integrated }
            } else {
                integrated
            },
            message_count: self.message_count + 1,
            checksum_error_count: self.checksum_error_count,
        }
    }

    /// The state at the start of a publishing period: nothing averaged,
    /// no latest message, nothing counted, and the charge drawn `amp_hours`.
    pub open spec fn fresh(amp_hours: IntegratorView) -> CollectorView {
        CollectorView {
            averages: Seq::new(AVERAGED_COUNT as nat, |s: int| AverageView { total: 0, count: 0 }),
            latest: Map::empty(),
            amp_hours: amp_hours,
            message_count: 0,
            checksum_error_count: 0,
        }
    }
}

/// Collects the messages of one publishing period.
pub struct Collector {
    averages: Vec<AveragingCollector>,
    latest: Message,
    last_collected_instant: Option<Instant>,
    main_battery_amp_hour_total: IntegratingCollector,
    message_count: usize,
    checksum_error_count: usize,
}

impl View for Collector {
    type V = CollectorView;

    closed spec fn view(&self) -> CollectorView {
        CollectorView {
            averages: self.averages@.map_values(|a: AveragingCollector| a@),
            latest: self.latest@,
            amp_hours: self.main_battery_amp_hour_total@,
            message_count: self.message_count as nat,
            checksum_error_count: self.checksum_error_count as nat,
        }
    }
}

impl Collector {
    /// The collector's invariant.
    pub open spec fn wf(&self) -> bool {
        self@.wf()
    }

    /// When the previous message was collected, if one was.
    pub closed spec fn last_collected(&self) -> Option<Instant> {
        self.last_collected_instant
    }

    /// The charge that nothing has been drawn of yet, bounded above by zero.
    pub open spec fn initial_amp_hours() -> IntegratorView {
        IntegratorView {
            total: 0,
            set: false,
            clamp_min: None,
            clamp_max: Some(0i128),
        }
    }

    fn fresh_averages() -> (v: Vec<AveragingCollector>)
        ensures
            v@.map_values(|a: AveragingCollector| a@) == Seq::new(
                AVERAGED_COUNT as nat,
                |s: int| AverageView { total: 0, count: 0 },
            ),
    {
        let mut v: Vec<AveragingCollector> = Vec::new();
        while v.len() < AVERAGED_COUNT
            invariant
                v.len() <= AVERAGED_COUNT,
                forall|j: int| 0 <= j < v.len() ==> (#[trigger] v@[j])@ == (AverageView { total: 0, count: 0 }),
            decreases AVERAGED_COUNT - v.len(),
        {
            v.push(AveragingCollector::new());
        }
        assert(v@.map_values(|a: AveragingCollector| a@) =~= Seq::new(
            AVERAGED_COUNT as nat,
            |s: int| AverageView { total: 0, count: 0 },
        ));
        v
    }

    /// A collector at the start of the first publishing period.
    pub fn new() -> (c: Collector)
        ensures
            c.wf(),
            c@ == CollectorView::fresh(Collector::initial_amp_hours()),
            c.last_collected() is None,
    {
        let c = Collector {
            averages: Collector::fresh_averages(),
            latest: Message::new(),
            last_collected_instant: None,
            main_battery_amp_hour_total: IntegratingCollector::new(None, Some(0)),
            message_count: 0,
            checksum_error_count: 0,
        };
        c
    }

    /// A collector for the next publishing period: it keeps the charge drawn
    /// and when the last message was collected, and starts all else afresh.
    pub fn next(old: Collector) -> (c: Collector)
        requires
            old.wf(),
        ensures
            c.wf(),
            c@ == CollectorView::fresh(old@.amp_hours),
            c.last_collected() == old.last_collected(),
    {
        Collector {
            averages: Collector::fresh_averages(),
            latest: Message::new(),
            last_collected_instant: old.last_collected_instant,
            main_battery_amp_hour_total: old.main_battery_amp_hour_total,
            message_count: 0,
            checksum_error_count: 0,
        }
    }

    /// Counts a frame that failed its checksum.
    pub fn increment_checksum_error(&mut self)
        requires
            old(self).wf(),
            old(self)@.checksum_error_count < usize::MAX,
        ensures
            final(self).wf(),
            final(self)@ == (CollectorView {
                checksum_error_count: old(self)@.checksum_error_count + 1,
                ..old(self)@
            }),
            final(self).last_collected() == old(self).last_collected(),
    {
        self.checksum_error_count += 1;
    }

    /// How many messages were collected.
    pub fn message_count(&self) -> (n: usize)
        ensures
            n == self@.message_count,
    {
        self.message_count
    }

    /// How many frames failed their checksum.
    pub fn checksum_error_count(&self) -> (n: usize)
        ensures
            n == self@.checksum_error_count,
    {
        self.checksum_error_count
    }

    /// Sets the charge drawn back to zero, and to not set.
    pub fn reset_totals(&mut self)
        requires
            old(self).wf(),
        ensures
            final(self).wf(),
            final(self)@ == (CollectorView { amp_hours: old(self)@.amp_hours.reset(), ..old(self)@ }),
            final(self)@.amp_hours.total == 0,
            !final(self)@.amp_hours.set,
            final(self).last_collected() == old(self).last_collected(),
    {
        self.main_battery_amp_hour_total.reset();
    }

    /// Collects `msg`, which arrived `elapsed` nanoseconds after the
    /// previous message (none for the first).
    pub fn collect_elapsed(&mut self, msg: Message, elapsed: Option<u64>)
        requires
            old(self).wf(),
            old(self)@.message_count < usize::MAX,
        ensures
            final(self).wf(),
            final(self)@ == old(self)@.after_collect(msg@, elapsed),
            final(self).last_collected() == old(self).last_collected(),
    {
        let ghost m = msg@;
        let ghost before = self@;
        let old_state = self.latest.int_field(Field::StateOfOperation);
        let mut s: usize = 0;
        while s < AVERAGED_COUNT
            invariant
                0 <= s <= AVERAGED_COUNT,
                m == msg@,
                self.averages.len() == AVERAGED_COUNT,
                before.wf(),
                before.message_count < usize::MAX,
                forall|j: int|
                    0 <= j < s ==> (#[trigger] self.averages@[j])@ == before.averages[j].collected(
                        int_in(m, Field::averaged_at(j)),
                    ),
                forall|j: int| s <= j < AVERAGED_COUNT ==> (#[trigger] self.averages@[j])@ == before.averages[j],
                self.latest@ == before.latest,
                self.main_battery_amp_hour_total@ == before.amp_hours,
                self.message_count == before.message_count,
                self.checksum_error_count == before.checksum_error_count,
                self.last_collected_instant == old(self).last_collected_instant,
                before == old(self)@,
            decreases AVERAGED_COUNT - s,
        {
            let f = Field::averaged_field(s);
            let mut a = self.averages[s];
            assert(a@ == before.averages[s as int]);
            a.collect(msg.int_field(f));
            self.averages.set(s, a);
            s += 1;
        }
        if let Some(e) = elapsed {
            if let Some(c) = msg.int_field(Field::MainBatteryCurrent) {
                proof {
                    assert(c * e <= i128::MAX && c * e >= i128::MIN) by (nonlinear_arith)
                        requires
                            isize::MIN <= c <= isize::MAX,
                            isize::MAX <= i64::MAX,
                            isize::MIN >= i64::MIN,
                            0 <= e <= u64::MAX,
                    ;
                }
                self.main_battery_amp_hour_total.collect(Some(c as i128 * e as i128));
            }
        }
        self.message_count += 1;
        let new_state = msg.int_field(Field::StateOfOperation);
        self.latest = msg;
        let old_code: isize = match old_state {
            Some(v) => v,
            None => -1,
        };
        let new_code: isize = match new_state {
            Some(v) => v,
            None => -1,
        };
        if old_code != FLOAT_STATE && new_code == FLOAT_STATE {
            self.main_battery_amp_hour_total.sum = 0;
        }
        assert(self@.averages =~= before.after_collect(m, elapsed).averages);
    }

    /// Collects `msg`, reading the clock: the reading becomes the instant of
    /// the last collection, and the time elapsed since the previous one (in
    /// whole nanoseconds, capped at `u64::MAX`) goes into the charge drawn;
    /// none for the first message.
    pub fn collect(&mut self, msg: Message)
        requires
            old(self).wf(),
            old(self)@.message_count < usize::MAX,
        ensures
            final(self).wf(),
            final(self).last_collected() matches Some(now)
                && final(self)@ == old(self)@.after_collect(msg@, nanos_since(now, old(self).last_collected())),
    {
        let now = instant_now();
        let elapsed = match self.last_collected_instant {
            Some(last) => Some(nanos_between(now, last)),
            None => None,
        };
        self.collect_elapsed(msg, elapsed);
        self.last_collected_instant = Some(now);
    }
}


/// How a field's value is published.
pub open spec fn published(v: FieldValue) -> JsonValueView {
    match v {
        FieldValue::Int(x) => JsonValueView::Int(x as int),
        FieldValue::Text(t) => JsonValueView::Text(t),
        FieldValue::Float(t) => JsonValueView::TenfoldFloat(t),
    }
}

/// The entry that field `f` gives the published message, if any: for an
/// averaged field the mean of its values, when a value was collected;
/// for any other field its value in the latest message, when it held one.
pub open spec fn field_entry(c: CollectorView, f: Field) -> Option<JsonEntryView> {
    match f.average_slot() {
        Some(s) => if c.averages[s as int].count > 0 {
            Some(
                JsonEntryView {
                    key: JsonKey::Field(f),
                    value: JsonValueView::Mean(c.averages[s as int].total, c.averages[s as int].count),
                },
            )
        } else {
            None
        },
        None => if c.latest.contains_key(f) {
            Some(JsonEntryView { key: JsonKey::Field(f), value: published(c.latest[f]) })
        } else {
            None
        },
    }
}

/// The entry, if any, as a sequence of at most one.
pub open spec fn optional_entry(e: Option<JsonEntryView>) -> Seq<JsonEntryView> {
    match e {
        Some(x) => seq![x],
        None => Seq::empty(),
    }
}

/// The entries of the first `n` fields, in field order.
pub open spec fn field_entries(c: CollectorView, n: nat) -> Seq<JsonEntryView>
    decreases n,
{
    if n == 0 {
        Seq::empty()
    } else {
        field_entries(c, (n - 1) as nat) + optional_entry(field_entry(c, Field::at(n - 1)))
    }
}

/// The published message of a period: the entries of the fields in field
/// order; the charge drawn, when a value went into it since the last reset; the count of messages; the count
/// of checksum errors.
pub open spec fn json_entries(c: CollectorView) -> Seq<JsonEntryView> {
    field_entries(c, FIELD_COUNT as nat) + optional_entry(
        if c.amp_hours.set {
            Some(JsonEntryView { key: JsonKey::MainBatteryAmpHourTotal, value: JsonValueView::Charge(c.amp_hours.total) })
        } else {
            None
        },
    ) + seq![
        JsonEntryView { key: JsonKey::MessageCount, value: JsonValueView::Int(c.message_count as int) },
        JsonEntryView { key: JsonKey::ChecksumErrorCount, value: JsonValueView::Int(c.checksum_error_count as int) },
    ]
}

impl Collector {
    /// The entry that field `f` gives the published message, if any.
    fn field_json(&self, f: Field) -> (r: Option<JsonEntry>)
        requires
            self.wf(),
        ensures
            match r {
                Some(e) => field_entry(self@, f) == Some(e@),
                None => field_entry(self@, f) is None,
            },
    {
        match f.averaged_slot() {
            Some(s) => {
                proof {
                    f.lemma_average_slot();
                }
                let a = self.averages[s];
                assert(a@ == self@.averages[s as int]);
                if a.count > 0 {
                    Some(JsonEntry { key: JsonKey::Field(f), value: JsonValue::Mean { sum: a.sum, count: a.count } })
                } else {
                    None
                }
            },
            None => match self.latest.field_data(f) {
                Some(FieldData::Int(x)) => Some(JsonEntry { key: JsonKey::Field(f), value: JsonValue::Int(x as i128) }),
                Some(FieldData::Text(t)) => Some(JsonEntry { key: JsonKey::Field(f), value: JsonValue::Text(t) }),
                Some(FieldData::Float(t)) => Some(JsonEntry { key: JsonKey::Field(f), value: JsonValue::TenfoldFloat(t) }),
                None => None,
            },
        }
    }

    /// The message to publish for the period: see `json_entries`.
    pub fn build_json_message(&self) -> (entries: Vec<JsonEntry>)
        requires
            self.wf(),
        ensures
            entries_view(entries@) == json_entries(self@),
    {
        let mut entries: Vec<JsonEntry> = Vec::new();
        let mut i: usize = 0;
        while i < FIELD_COUNT
            invariant
                i <= FIELD_COUNT,
                self.wf(),
                entries_view(entries@) == field_entries(self@, i as nat),
            decreases FIELD_COUNT - i,
        {
            let f = Field::from_index(i);
            let ghost before = entries@;
            match self.field_json(f) {
                Some(e) => {
                    entries.push(e);
                    assert(entries_view(entries@) =~= entries_view(before) + seq![e@]);
                },
                None => {
                    assert(optional_entry(field_entry(self@, f)) =~= Seq::<JsonEntryView>::empty());
                    assert(entries_view(before) + Seq::<JsonEntryView>::empty() =~= entries_view(before));
                },
            }
            i += 1;
        }
        let ghost fields_part = entries@;
        if self.main_battery_amp_hour_total.set {
            entries.push(JsonEntry {
                key: JsonKey::MainBatteryAmpHourTotal,
                value: JsonValue::Charge(self.main_battery_amp_hour_total.sum),
            });
        }
        let ghost with_total = entries@;
        entries.push(JsonEntry { key: JsonKey::MessageCount, value: JsonValue::Int(self.message_count as i128) });
        entries.push(JsonEntry {
            key: JsonKey::ChecksumErrorCount,
            value: JsonValue::Int(self.checksum_error_count as i128),
        });
        assert(entries_view(entries@) =~= json_entries(self@));
        entries
    }
}


impl Collector {
    /// Takes the outcome of one read from the line: a message is collected,
    /// a checksum error is counted, and any other failure changes nothing.
    pub fn record(&mut self, outcome: Result<Message, ReadError>)
        requires
            old(self).wf(),
            outcome is Ok ==> old(self)@.message_count < usize::MAX,
            outcome matches Err(ReadError::ChecksumError) ==> old(self)@.checksum_error_count < usize::MAX,
        ensures
            final(self).wf(),
            match outcome {
                Ok(msg) => final(self).last_collected() matches Some(now)
                    && final(self)@ == old(self)@.after_collect(msg@, nanos_since(now, old(self).last_collected())),
                Err(ReadError::ChecksumError) => {
                    &&& final(self)@ == (CollectorView {
                        checksum_error_count: old(self)@.checksum_error_count + 1,
                        ..old(self)@
                    })
                    &&& final(self).last_collected() == old(self).last_collected()
                },
                Err(_) => {
                    &&& final(self)@ == old(self)@
                    &&& final(self).last_collected() == old(self).last_collected()
                },
            },
    {
        match outcome {
            Ok(msg) => self.collect(msg),
            Err(ReadError::ChecksumError) => self.increment_checksum_error(),
            Err(_) => {},
        }
    }

    /// Whether the period's message is due: its time has come and it
    /// collected at least one message.
    pub fn ready_to_publish(&self, time_has_come: bool) -> (r: bool)
        ensures
            r == (time_has_come && self@.message_count > 0),
    {
        time_has_come && self.message_count > 0
    }

    /// Ends the publishing period: sets the charge drawn back to zero first
    /// if that was asked for, hands back the message to publish, and starts
    /// the next period.
    pub fn publish(&mut self, reset_requested: bool) -> (entries: Vec<JsonEntry>)
        requires
            old(self).wf(),
        ensures
            final(self).wf(),
            ({
                let ended = if reset_requested {
                    CollectorView { amp_hours: old(self)@.amp_hours.reset(), ..old(self)@ }
                } else {
                    old(self)@
                };
                &&& entries_view(entries@) == json_entries(ended)
                &&& final(self)@ == CollectorView::fresh(ended.amp_hours)
            }),
            final(self).last_collected() == old(self).last_collected(),
    {
        if reset_requested {
            self.reset_totals();
        }
        let entries = self.build_json_message();
        let mut ended = Collector::new();
        std::mem::swap(&mut ended, self);
        *self = Collector::next(ended);
        entries
    }
}


/// The collector after collecting the messages with fields `msgs` one after
/// another, the `i`th `elapsed[i]` nanoseconds after the one before.
pub open spec fn collect_all(
    c: CollectorView,
    msgs: Seq<Map<Field, FieldValue>>,
    elapsed: Seq<Option<u64>>,
) -> CollectorView
    decreases msgs.len(),
{
    if msgs.len() == 0 {
        c
    } else {
        collect_all(c, msgs.drop_last(), elapsed).after_collect(msgs.last(), elapsed[msgs.len() - 1])
    }
}

/// The sum of the integers that field `f` holds in the messages.
pub open spec fn present_sum(msgs: Seq<Map<Field, FieldValue>>, f: Field) -> int
    decreases msgs.len(),
{
    if msgs.len() == 0 {
        0
    } else {
        present_sum(msgs.drop_last(), f) + match int_in(msgs.last(), f) {
            Some(v) => v as int,
            None => 0,
        }
    }
}

/// How many of the messages hold an integer in field `f`.
pub open spec fn present_count(msgs: Seq<Map<Field, FieldValue>>, f: Field) -> nat
    decreases msgs.len(),
{
    if msgs.len() == 0 {
        0
    } else {
        present_count(msgs.drop_last(), f) + if int_in(msgs.last(), f) is Some {
            1nat
        } else {
            0nat
        }
    }
}

proof fn lemma_collect_all_average(
    amp: IntegratorView,
    msgs: Seq<Map<Field, FieldValue>>,
    elapsed: Seq<Option<u64>>,
    f: Field,
    s: int,
)
    requires
        0 <= s < AVERAGED_COUNT,
        f.average_slot() == Some(s as usize),
    ensures
        collect_all(CollectorView::fresh(amp), msgs, elapsed).averages.len() == AVERAGED_COUNT,
        collect_all(CollectorView::fresh(amp), msgs, elapsed).averages[s] == (AverageView {
            total: present_sum(msgs, f),
            count: present_count(msgs, f),
        }),
        collect_all(CollectorView::fresh(amp), msgs, elapsed).message_count == msgs.len(),
    decreases msgs.len(),
{
    f.lemma_average_slot();
    if msgs.len() > 0 {
        lemma_collect_all_average(amp, msgs.drop_last(), elapsed, f, s);
        let prev = collect_all(CollectorView::fresh(amp), msgs.drop_last(), elapsed);
        let now = prev.after_collect(msgs.last(), elapsed[msgs.len() - 1]);
        assert(now.averages[s] == prev.averages[s].collected(int_in(msgs.last(), f)));
    } else {
        assert(CollectorView::fresh(amp).averages[s] == AverageView { total: 0, count: 0 });
    }
}

/// Averaging: over a period of messages, the published entry of an averaged
/// field is the mean of the values that the messages held for it: their sum
/// over their number; a field that no message held is left out. The period's message count is the
/// number of messages.
pub proof fn lemma_period_average(
    amp: IntegratorView,
    msgs: Seq<Map<Field, FieldValue>>,
    elapsed: Seq<Option<u64>>,
    f: Field,
)
    requires
        f.average_slot() is Some,
    ensures
        ({
            let c = collect_all(CollectorView::fresh(amp), msgs, elapsed);
            &&& c.message_count == msgs.len()
            &&& field_entry(c, f) == if present_count(msgs, f) > 0 {
                Some(
                    JsonEntryView {
                        key: JsonKey::Field(f),
                        value: JsonValueView::Mean(present_sum(msgs, f), present_count(msgs, f)),
                    },
                )
            } else {
                None
            }
        }),
{
    f.lemma_average_slot();
    let s = f.average_slot()->Some_0 as int;
    lemma_collect_all_average(amp, msgs, elapsed, f, s);
}

/// Latest values: over a period of at least one message, the published
/// entry of a field that is not averaged is its value in the last message,
/// and is left out when the last message did not hold it.
pub proof fn lemma_period_latest(
    amp: IntegratorView,
    msgs: Seq<Map<Field, FieldValue>>,
    elapsed: Seq<Option<u64>>,
    f: Field,
)
    requires
        f.average_slot() is None,
        msgs.len() > 0,
    ensures
        field_entry(collect_all(CollectorView::fresh(amp), msgs, elapsed), f) == if msgs.last().contains_key(f) {
            Some(JsonEntryView { key: JsonKey::Field(f), value: published(msgs.last()[f]) })
        } else {
            None
        },
{
}

/// Every collected message keeps the collector's invariant, whatever its
/// fields and the time elapsed: in particular the charge drawn never rises
/// above zero.
pub proof fn lemma_collect_keeps_invariant(
    c: CollectorView,
    msg: Map<Field, FieldValue>,
    elapsed: Option<u64>,
)
    requires
        c.wf(),
        c.message_count < usize::MAX,
    ensures
        c.after_collect(msg, elapsed).wf(),
        c.after_collect(msg, elapsed).amp_hours.total <= 0,
{
    let n = c.after_collect(msg, elapsed);
    assert forall|s: int| 0 <= s < AVERAGED_COUNT implies (#[trigger] n.averages[s]).in_range()
        && n.averages[s].count <= n.message_count by {
        let a = c.averages[s];
        match int_in(msg, Field::averaged_at(s)) {
            Some(x) => {
                assert(isize::MIN * a.count + isize::MIN == isize::MIN * (a.count + 1)) by (nonlinear_arith);
                assert(isize::MAX * a.count + isize::MAX == isize::MAX * (a.count + 1)) by (nonlinear_arith);
            },
            None => {},
        }
    }
}

/// The averaging state after collecting the readings `xs` one after another.
pub open spec fn collected_all(a: AverageView, xs: Seq<Option<isize>>) -> AverageView
    decreases xs.len(),
{
    if xs.len() == 0 {
        a
    } else {
        collected_all(a, xs.drop_last()).collected(xs.last())
    }
}

/// The sum of the readings that are present.
pub open spec fn sum_present(xs: Seq<Option<isize>>) -> int
    decreases xs.len(),
{
    if xs.len() == 0 {
        0
    } else {
        sum_present(xs.drop_last()) + match xs.last() {
            Some(v) => v as int,
            None => 0,
        }
    }
}

/// How many of the readings are present.
pub open spec fn count_present(xs: Seq<Option<isize>>) -> nat
    decreases xs.len(),
{
    if xs.len() == 0 {
        0
    } else {
        count_present(xs.drop_last()) + if xs.last() is Some {
            1nat
        } else {
            0nat
        }
    }
}

/// Averaging, for one measurement: from nothing collected, collecting
/// readings one after another sums exactly the readings present and counts
/// exactly them, so that the sum over the count is their mean; a missing
/// reading changes nothing; and the sum stays within what the readings can
/// add up to, which `collect` asks of each call.
pub proof fn lemma_average_of_readings(xs: Seq<Option<isize>>)
    ensures
        collected_all(AverageView { total: 0, count: 0 }, xs) == (AverageView {
            total: sum_present(xs),
            count: count_present(xs),
        }),
        collected_all(AverageView { total: 0, count: 0 }, xs).in_range(),
        collected_all(AverageView { total: 0, count: 0 }, xs.push(None)) == collected_all(
            AverageView { total: 0, count: 0 },
            xs,
        ),
    decreases xs.len(),
{
    if xs.len() > 0 {
        lemma_average_of_readings(xs.drop_last());
        let c = count_present(xs.drop_last());
        assert(isize::MIN * c + isize::MIN == isize::MIN * (c + 1)) by (nonlinear_arith);
        assert(isize::MAX * c + isize::MAX == isize::MAX * (c + 1)) by (nonlinear_arith);
    }
    assert(xs.push(None).drop_last() =~= xs);
}

/// A call on a collector that changes what it holds, or builds its message.
pub enum CollectorCall {
    /// Collecting a message with these fields, this many nanoseconds after
    /// the previous one (none for the first).
    Collect(Map<Field, FieldValue>, Option<u64>),
    /// Counting a frame that failed its checksum.
    ChecksumError,
    /// Setting the charge drawn back to zero.
    ResetTotals,
    /// Building the message to publish, which changes nothing.
    BuildMessage,
}

/// The collector after `call`, as `collect`, `increment_checksum_error`,
/// `reset_totals` and `build_json_message` state it.
pub open spec fn after_call(c: CollectorView, call: CollectorCall) -> CollectorView {
    match call {
        CollectorCall::Collect(msg, elapsed) => c.after_collect(msg, elapsed),
        CollectorCall::ChecksumError => CollectorView { checksum_error_count: c.checksum_error_count + 1, ..c },
        CollectorCall::ResetTotals => CollectorView { amp_hours: c.amp_hours.reset(), ..c },
        CollectorCall::BuildMessage => c,
    }
}

/// The collector after the calls `calls`, one after another.
pub open spec fn after_calls(c: CollectorView, calls: Seq<CollectorCall>) -> CollectorView
    decreases calls.len(),
{
    if calls.len() == 0 {
        c
    } else {
        after_call(after_calls(c, calls.drop_last()), calls.last())
    }
}

/// How many of the calls collect a message.
pub open spec fn collects_in(calls: Seq<CollectorCall>) -> nat
    decreases calls.len(),
{
    if calls.len() == 0 {
        0
    } else {
        collects_in(calls.drop_last()) + if calls.last() is Collect {
            1nat
        } else {
            0nat
        }
    }
}

/// Counting messages: over a period, whatever checksum errors, resets of
/// the charge drawn and builds of the message come between the collections,
/// the message count is the number of messages collected, and the message to
/// publish says so.
pub proof fn lemma_message_count(amp: IntegratorView, calls: Seq<CollectorCall>)
    ensures
        ({
            let c = after_calls(CollectorView::fresh(amp), calls);
            let entries = json_entries(c);
            &&& c.message_count == collects_in(calls)
            &&& entries[entries.len() - 2] == (JsonEntryView {
                key: JsonKey::MessageCount,
                value: JsonValueView::Int(collects_in(calls) as int),
            })
        }),
    decreases calls.len(),
{
    if calls.len() > 0 {
        lemma_message_count(amp, calls.drop_last());
    }
    let c = after_calls(CollectorView::fresh(amp), calls);
    let head = field_entries(c, FIELD_COUNT as nat) + optional_entry(
        if c.amp_hours.set {
            Some(JsonEntryView { key: JsonKey::MainBatteryAmpHourTotal, value: JsonValueView::Charge(c.amp_hours.total) })
        } else {
            None
        },
    );
    let tail = seq![
        JsonEntryView { key: JsonKey::MessageCount, value: JsonValueView::Int(c.message_count as int) },
        JsonEntryView { key: JsonKey::ChecksumErrorCount, value: JsonValueView::Int(c.checksum_error_count as int) },
    ];
    assert(json_entries(c) == head + tail);
    assert((head + tail)[head.len() as int] == tail[0]);
}

/// Clearing the charge drawn: after a reset the charge drawn is zero and not
/// published, whatever was drawn before; drawing a current `cur` over `e`
/// nanoseconds then makes it `cur * e` when that is not above zero, and zero
/// otherwise (or when the battery turns full with that message).
pub proof fn lemma_reset_restarts_charge(
    c: CollectorView,
    msg: Map<Field, FieldValue>,
    e: u64,
    cur: isize,
)
    requires
        c.wf(),
        int_in(msg, Field::MainBatteryCurrent) == Some(cur),
    ensures
        after_call(c, CollectorCall::ResetTotals).amp_hours.total == 0,
        !after_call(c, CollectorCall::ResetTotals).amp_hours.set,
        after_calls(c, seq![CollectorCall::ResetTotals, CollectorCall::Collect(msg, Some(e))]).amp_hours.total
            == if entering_float(c.latest, msg) || cur * e > 0 {
            0
        } else {
            cur * e
        },
{
    let calls = seq![CollectorCall::ResetTotals, CollectorCall::Collect(msg, Some(e))];
    assert(calls.drop_last() =~= seq![CollectorCall::ResetTotals]);
    assert(calls.drop_last().drop_last() =~= Seq::<CollectorCall>::empty());
    assert(after_calls(c, Seq::<CollectorCall>::empty()) == c);
    let r = after_call(c, CollectorCall::ResetTotals);
    assert(after_calls(c, seq![CollectorCall::ResetTotals]) == r);
    assert(calls.last() == CollectorCall::Collect(msg, Some(e)));
    assert(after_calls(c, calls) == r.after_collect(msg, Some(e)));
    assert(r.latest == c.latest);
    assert(r.amp_hours.total == 0);
    assert(cur * e <= i128::MAX && cur * e >= i128::MIN) by (nonlinear_arith)
        requires
            isize::MIN <= cur <= isize::MAX,
            isize::MAX <= i64::MAX,
            isize::MIN >= i64::MIN,
            0 <= e <= u64::MAX,
    ;
    assert(saturate(0 + cur * e) == cur * e);
}

/// Averaged measurements: over a period of messages, each of the
/// measurements (see `is_measurement`) is published as the mean of the
/// values that the messages held for it (their sum over their number), or
/// not at all when none held one; every other field is published as its
/// value in the last message, or not at all when that did not hold it.
pub proof fn lemma_measurements_are_averaged(
    amp: IntegratorView,
    msgs: Seq<Map<Field, FieldValue>>,
    elapsed: Seq<Option<u64>>,
    f: Field,
)
    ensures
        is_measurement(f) ==> field_entry(collect_all(CollectorView::fresh(amp), msgs, elapsed), f)
            == if present_count(msgs, f) > 0 {
            Some(
                JsonEntryView {
                    key: JsonKey::Field(f),
                    value: JsonValueView::Mean(present_sum(msgs, f), present_count(msgs, f)),
                },
            )
        } else {
            None
        },
        !is_measurement(f) && msgs.len() > 0 ==> field_entry(
            collect_all(CollectorView::fresh(amp), msgs, elapsed),
            f,
        ) == if msgs.last().contains_key(f) {
            Some(JsonEntryView { key: JsonKey::Field(f), value: published(msgs.last()[f]) })
        } else {
            None
        },
{
    assert(is_measurement(f) <==> f.average_slot() is Some);
    if is_measurement(f) {
        lemma_period_average(amp, msgs, elapsed, f);
    } else if msgs.len() > 0 {
        lemma_period_latest(amp, msgs, elapsed, f);
    }
}

/// The entries of the first `n` fields hold the entry of each of them that
/// has one.
proof fn lemma_field_entries_hold(c: CollectorView, n: nat, k: int)
    requires
        0 <= k < n,
    ensures
        field_entry(c, Field::at(k)) matches Some(e) ==> field_entries(c, n).contains(e),
    decreases n,
{
    let prev = field_entries(c, (n - 1) as nat);
    let last = optional_entry(field_entry(c, Field::at(n - 1)));
    assert(field_entries(c, n) == prev + last);
    if k == n - 1 {
        if let Some(e) = field_entry(c, Field::at(k)) {
            assert((prev + last)[prev.len() as int] == e);
        }
    } else {
        lemma_field_entries_hold(c, (n - 1) as nat, k);
        if let Some(e) = field_entry(c, Field::at(k)) {
            let i = choose|i: int| 0 <= i < prev.len() && prev[i] == e;
            assert((prev + last)[i] == e);
        }
    }
}

/// Every field's entry is published: whenever a field has an entry, the
/// published message holds it.
pub proof fn lemma_field_entries_published(c: CollectorView, f: Field)
    ensures
        field_entry(c, f) matches Some(e) ==> json_entries(c).contains(e),
{
    f.lemma_index();
    lemma_field_entries_hold(c, FIELD_COUNT as nat, f.spec_index() as int);
    if let Some(e) = field_entry(c, f) {
        let fields = field_entries(c, FIELD_COUNT as nat);
        let i = choose|i: int| 0 <= i < fields.len() && fields[i] == e;
        let rest = optional_entry(
            if c.amp_hours.set {
                Some(JsonEntryView { key: JsonKey::MainBatteryAmpHourTotal, value: JsonValueView::Charge(c.amp_hours.total) })
            } else {
                None
            },
        );
        let counts = seq![
            JsonEntryView { key: JsonKey::MessageCount, value: JsonValueView::Int(c.message_count as int) },
            JsonEntryView { key: JsonKey::ChecksumErrorCount, value: JsonValueView::Int(c.checksum_error_count as int) },
        ];
        assert(json_entries(c) == fields + rest + counts);
        assert((fields + rest + counts)[i] == e);
    }
}

/// Published values: an integer field is published as that integer, a text
/// field as that text, and a floating-point field as ten times the number
/// its literal denotes.
pub proof fn lemma_published_values(v: isize, t: Seq<char>)
    ensures
        published(FieldValue::Int(v)) == JsonValueView::Int(v as int),
        published(FieldValue::Text(t)) == JsonValueView::Text(t),
        published(FieldValue::Float(t)) == JsonValueView::TenfoldFloat(t),
{
}

} // verus!
