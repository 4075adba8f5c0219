//! Reading text frames from the byte stream of the serial line.
//!
//! A frame is a run of lines `\n<label>\t<value>` that ends with the label
//! `Checksum`, a tab and one checksum byte; the bytes of the frame, checksum
//! byte included, add up to zero modulo 256. Hex records (from `:` to the
//! next `\n`) may be interleaved; they are skipped and not added up.

use vstd::prelude::*;
use vstd::string::StringSliceAdditionalSpecFns;

use crate::field::{bytes_equal, Field, FieldKind};
use crate::message::{FieldError, FieldValue, Message};
use crate::number::{is_float_literal, parse_isize, IntError};

verus! {

/// Capacity of the buffer that holds bytes read from the line.
pub const BUFFER_SIZE: usize = 1024;

/// Where in a frame the decoder stands.
#[derive(Clone, Copy, Debug, PartialEq, Eq, Structural)]
pub enum DecoderState {
    /// Waiting for the `\n` that starts a line.
    Idle,
    /// Reading a label, up to the tab.
    FieldName,
    /// Reading a value, up to the `\n`.
    FieldValue,
    /// The next byte is the checksum byte.
    Checksum,
    /// Inside a hex record, up to its `\n`.
    HexRecord,
}

/// Why no message came of a read.
#[derive(Debug)]
pub enum ReadError {
    /// The line sent nothing within the time allowed.
    Timeout,
    /// The bytes of the frame did not add up to zero.
    ChecksumError,
    /// Reading the line failed otherwise.
    Other(String),
}

/// Something that a read passed over: a byte it dropped, or a line whose
/// field it did not take.
#[derive(Debug)]
pub enum DecodeWarning {
    /// A byte outside ASCII in a label or a value, which was dropped.
    NonAscii(u8),
    /// A line whose field was not taken, and why.
    RejectedField(FieldError),
}

/// A warning, as the specifications see it.
pub enum WarningView {
    /// A byte outside ASCII, dropped.
    NonAscii(u8),
    /// A line under a label that names no field.
    UnknownField(Seq<char>),
    /// A line whose integer field got a value that is no decimal `isize`.
    InvalidInteger(IntError),
    /// A line whose floating-point field got a value that is no literal.
    InvalidFloat,
}

impl View for DecodeWarning {
    type V = WarningView;

    open spec fn view(&self) -> WarningView {
        match self {
            DecodeWarning::NonAscii(b) => WarningView::NonAscii(*b),
            DecodeWarning::RejectedField(FieldError::UnknownField(s)) => WarningView::UnknownField(s@),
            DecodeWarning::RejectedField(FieldError::InvalidInteger(e)) => WarningView::InvalidInteger(*e),
            DecodeWarning::RejectedField(FieldError::InvalidFloat) => WarningView::InvalidFloat,
        }
    }
}

/// Warnings as the specifications see them.
pub open spec fn warnings_view(w: Seq<DecodeWarning>) -> Seq<WarningView> {
    w.map_values(|x: DecodeWarning| x@)
}

/// The state of a frame being decoded, as the specifications see it.
pub struct Frame {
    /// The fields taken so far.
    pub fields: Map<Field, FieldValue>,
    /// The sum, modulo 256, of the bytes added up so far.
    pub checksum: u8,
    /// Where in the frame the decoder stands.
    pub state: DecoderState,
    /// Where to go back to at the end of a hex record.
    pub after_hex: DecoderState,
    /// The label read so far.
    pub name: Seq<u8>,
    /// The value read so far.
    pub value: Seq<u8>,
}

/// What one more byte makes of a frame.
pub enum Step {
    /// The frame goes on.
    Continue(Frame),
    /// The checksum byte came and the frame added up to zero: its fields.
    Done(Map<Field, FieldValue>),
    /// The checksum byte came and the frame did not add up to zero.
    ChecksumError,
}

/// The label `Checksum`.
pub open spec fn checksum_label() -> Seq<u8> {
    seq![67u8, 104u8, 101u8, 99u8, 107u8, 115u8, 117u8, 109u8]
}

/// ASCII bytes read as characters.
pub open spec fn ascii_chars(b: Seq<u8>) -> Seq<char> {
    b.map_values(|x: u8| x as char)
}

/// Whether all of `b` is ASCII.
pub open spec fn is_ascii_bytes(b: Seq<u8>) -> bool {
    forall|i: int| 0 <= i < b.len() ==> #[trigger] b[i] < 128
}

/// `c + b` modulo 256.
pub open spec fn add_wrapping(c: u8, b: u8) -> u8 {
    ((c + b) % 256) as u8
}

/// The fields after the line with label `name` and value `value` is taken:
/// the field with that label gets the value, if the value suits it; an
/// unknown label or an unsuitable value changes nothing.
pub open spec fn take_field(
    fields: Map<Field, FieldValue>,
    name: Seq<u8>,
    value: Seq<u8>,
) -> Map<Field, FieldValue> {
    match Field::named(name) {
        None => fields,
        Some(f) => match f.spec_kind() {
            FieldKind::Int => match parse_isize(value) {
                Ok(v) => fields.insert(f, FieldValue::Int(v)),
                Err(_) => fields,
            },
            FieldKind::Text => fields.insert(f, FieldValue::Text(ascii_chars(value))),
            FieldKind::Float => if is_float_literal(value) {
                fields.insert(f, FieldValue::Float(ascii_chars(value)))
            } else {
                fields
            },
        },
    }
}

/// The warning that the line with label `name` and value `value` gives,
/// if its field is not taken: the label names no field, or the value does
/// not suit the field.
pub open spec fn line_warnings(name: Seq<u8>, value: Seq<u8>) -> Seq<WarningView> {
    match Field::named(name) {
        None => seq![WarningView::UnknownField(ascii_chars(name))],
        Some(f) => match f.spec_kind() {
            FieldKind::Int => match parse_isize(value) {
                Ok(_) => Seq::empty(),
                Err(e) => seq![WarningView::InvalidInteger(e)],
            },
            FieldKind::Text => Seq::empty(),
            FieldKind::Float => if is_float_literal(value) {
                Seq::empty()
            } else {
                seq![WarningView::InvalidFloat]
            },
        },
    }
}

/// The warnings that byte `b` gives in frame `fr`: a byte outside ASCII
/// within a label or a value is dropped, and the end of a value line whose
/// field is not taken gives that line's warning.
pub open spec fn step_warnings(fr: Frame, b: u8) -> Seq<WarningView> {
    let entering_hex = b == 58 && fr.state != DecoderState::Checksum;
    let state = if entering_hex { DecoderState::HexRecord } else { fr.state };
    match state {
        DecoderState::FieldName => if b != 9 && b >= 128 {
            seq![WarningView::NonAscii(b)]
        } else {
            Seq::empty()
        },
        DecoderState::FieldValue => if b == 13 {
            Seq::empty()
        } else if b == 10 {
            line_warnings(fr.name, fr.value)
        } else if b >= 128 {
            seq![WarningView::NonAscii(b)]
        } else {
            Seq::empty()
        },
        _ => Seq::empty(),
    }
}

/// The state in which every read starts.
pub open spec fn initial_frame() -> Frame {
    Frame {
        fields: Map::empty(),
        checksum: 0,
        state: DecoderState::Idle,
        after_hex: DecoderState::Idle,
        name: Seq::empty(),
        value: Seq::empty(),
    }
}

/// What byte `b` makes of frame `fr`.
pub open spec fn step(fr: Frame, b: u8) -> Step {
    let entering_hex = b == 58 && fr.state != DecoderState::Checksum;
    let state = if entering_hex { DecoderState::HexRecord } else { fr.state };
    let after_hex = if entering_hex { fr.state } else { fr.after_hex };
    let checksum = if state != DecoderState::HexRecord { add_wrapping(fr.checksum, b) } else { fr.checksum };
    let f = Frame { state: state, after_hex: after_hex, checksum: checksum, ..fr };
    match state {
        DecoderState::Idle => Step::Continue(
            if b == 10 {
                Frame { state: DecoderState::FieldName, ..f }
            } else {
                f
            },
        ),
        DecoderState::FieldName => if b == 9 {
            Step::Continue(
                Frame {
                    state: if f.name == checksum_label() {
                        DecoderState::Checksum
                    } else {
                        DecoderState::FieldValue
                    },
                    ..f
                },
            )
        } else if b < 128 {
            Step::Continue(Frame { name: f.name.push(b), ..f })
        } else {
            Step::Continue(f)
        },
        DecoderState::FieldValue => if b == 13 {
            Step::Continue(f)
        } else if b == 10 {
            Step::Continue(
                Frame {
                    fields: take_field(f.fields, f.name, f.value),
                    name: Seq::empty(),
                    value: Seq::empty(),
                    state: DecoderState::FieldName,
                    ..f
                },
            )
        } else if b < 128 {
            Step::Continue(Frame { value: f.value.push(b), ..f })
        } else {
            Step::Continue(f)
        },
        DecoderState::Checksum => if checksum == 0 {
            Step::Done(f.fields)
        } else {
            Step::ChecksumError
        },
        DecoderState::HexRecord => Step::Continue(
            if b == 10 {
                Frame { state: f.after_hex, ..f }
            } else {
                f
            },
        ),
    }
}

/// What the bytes `bytes` make of frame `fr`: they are taken one by one
/// until the frame ends; bytes after its end change nothing.
pub open spec fn run(fr: Frame, bytes: Seq<u8>) -> Step
    decreases bytes.len(),
{
    if bytes.len() == 0 {
        Step::Continue(fr)
    } else {
        match run(fr, bytes.drop_last()) {
            Step::Continue(f) => step(f, bytes.last()),
            other => other,
        }
    }
}

/// The warnings that the bytes `bytes` give, taken one by one into frame
/// `fr` until the frame ends.
pub open spec fn run_warnings(fr: Frame, bytes: Seq<u8>) -> Seq<WarningView>
    decreases bytes.len(),
{
    if bytes.len() == 0 {
        Seq::empty()
    } else {
        match run(fr, bytes.drop_last()) {
            Step::Continue(f) => run_warnings(fr, bytes.drop_last()) + step_warnings(f, bytes.last()),
            _ => run_warnings(fr, bytes.drop_last()),
        }
    }
}

/// What the bytes `bytes` make of a read from its start.
pub open spec fn decode(bytes: Seq<u8>) -> Step {
    run(initial_frame(), bytes)
}

/// ASCII bytes as a string slice.
///
/// Trusted: `std::str::from_utf8`, which hands back the bytes as a `str`
/// when they are valid UTF-8, as ASCII bytes always are; each ASCII byte is
/// then one character of that value.
#[verifier::external_body]
fn ascii_str(bytes: &[u8]) -> (s: &str)
    requires
        is_ascii_bytes(bytes@),
    ensures
        s@ == ascii_chars(bytes@),
        s.spec_bytes() == bytes@,
{
    match std::str::from_utf8(bytes) {
        Ok(s) => s,
        Err(_) => "",
    }
}

/// The buffer of a decoder and how many of its bytes have been taken.
pub struct BufferState {
    /// The bytes of the last buffer handed over.
    pub buffer: Seq<u8>,
    /// How many of them have been taken.
    pub position: nat,
}

/// Taking a byte: the next byte of the buffer, if one is left, and the
/// position moves past it; otherwise none, and the position goes back to the
/// start of the buffer.
pub open spec fn take_byte(st: BufferState) -> (BufferState, Option<u8>) {
    if st.position < st.buffer.len() {
        (BufferState { position: st.position + 1, ..st }, Some(st.buffer[st.position as int]))
    } else {
        (BufferState { position: 0, ..st }, None)
    }
}

/// Decodes frames from the bytes of the serial line, which the caller reads
/// and hands over a buffer at a time.
pub struct SerialDecoder {
    buf: Vec<u8>,
    buf_start: usize,
    buf_end: usize,
    field_name: Vec<u8>,
    field_value: Vec<u8>,
    message: Message,
    checksum: u8,
    state: DecoderState,
    state_after_hex: DecoderState,
    warnings: Vec<DecodeWarning>,
}

impl SerialDecoder {
    /// The decoder's internal consistency.
    pub closed spec fn wf(&self) -> bool {
        &&& self.buf.len() == BUFFER_SIZE
        &&& self.buf_start <= self.buf_end <= BUFFER_SIZE
        &&& is_ascii_bytes(self.field_name@)
        &&& is_ascii_bytes(self.field_value@)
    }

    /// The bytes of the last buffer handed over.
    pub closed spec fn buffer(&self) -> Seq<u8> {
        self.buf@.take(self.buf_end as int)
    }

    /// How many bytes of the buffer have been taken.
    pub closed spec fn position(&self) -> nat {
        self.buf_start as nat
    }

    /// The bytes of the buffer not yet taken.
    pub open spec fn pending(&self) -> Seq<u8> {
        self.buffer().skip(self.position() as int)
    }

    /// The buffer and how many of its bytes have been taken.
    pub open spec fn buffer_state(&self) -> BufferState {
        BufferState { buffer: self.buffer(), position: self.position() }
    }

    /// The warnings not yet taken, oldest first.
    pub closed spec fn warnings(&self) -> Seq<WarningView> {
        warnings_view(self.warnings@)
    }

    /// The frame being decoded.
    pub closed spec fn frame(&self) -> Frame {
        Frame {
            fields: self.message@,
            checksum: self.checksum,
            state: self.state,
            after_hex: self.state_after_hex,
            name: self.field_name@,
            value: self.field_value@,
        }
    }

    /// The buffer holds at most `BUFFER_SIZE` bytes, and the position lies
    /// within it.
    pub proof fn lemma_wf(&self)
        requires
            self.wf(),
        ensures
            self.position() <= self.buffer().len() <= BUFFER_SIZE,
    {
    }

    /// A decoder with an empty buffer, at the start of a read.
    pub fn new() -> (d: SerialDecoder)
        ensures
            d.wf(),
            d.buffer() == Seq::<u8>::empty(),
            d.position() == 0,
            d.frame() == initial_frame(),
            d.warnings() == Seq::<WarningView>::empty(),
    {
        let d = SerialDecoder {
            buf: vec![0u8; BUFFER_SIZE],
            buf_start: 0,
            buf_end: 0,
            field_name: Vec::new(),
            field_value: Vec::new(),
            message: Message::new(),
            checksum: 0,
            state: DecoderState::Idle,
            state_after_hex: DecoderState::Idle,
            warnings: Vec::new(),
        };
        assert(d.buffer() =~= Seq::<u8>::empty());
        assert(d.warnings() =~= Seq::<WarningView>::empty());
        d
    }

    /// Takes the next byte of the buffer. When the buffer is spent, the
    /// position goes back to its start and nothing is taken: the caller
    /// reads more from the line and hands it over with `fill`.
    pub fn next_byte(&mut self) -> (r: Option<u8>)
        requires
            old(self).wf(),
        ensures
            final(self).wf(),
            final(self).buffer() == old(self).buffer(),
            final(self).frame() == old(self).frame(),
            final(self).warnings() == old(self).warnings(),
            (final(self).buffer_state(), r) == take_byte(old(self).buffer_state()),
            match r {
                Some(b) => {
                    &&& old(self).position() < old(self).buffer().len()
                    &&& b == old(self).buffer()[old(self).position() as int]
                    &&& final(self).position() == old(self).position() + 1
                },
                None => {
                    &&& old(self).position() >= old(self).buffer().len()
                    &&& final(self).position() == 0
                },
            },
    {
        if self.buf_start < self.buf_end {
            let result = self.buf[self.buf_start];
            self.buf_start += 1;
            Some(result)
        } else {
            self.buf_start = 0;
            None
        }
    }

    /// Hands over bytes read from the line: they become the buffer.
    pub fn fill(&mut self, data: &[u8])
        requires
            old(self).wf(),
            data.len() <= BUFFER_SIZE,
        ensures
            final(self).wf(),
            final(self).buffer() == data@,
            final(self).position() == 0,
            final(self).buffer_state() == (BufferState { buffer: data@, position: 0 }),
            final(self).frame() == old(self).frame(),
            final(self).warnings() == old(self).warnings(),
    {
        let mut i: usize = 0;
        while i < data.len()
            invariant
                i <= data.len() <= BUFFER_SIZE,
                self.buf.len() == BUFFER_SIZE,
                forall|j: int| 0 <= j < i ==> self.buf@[j] == data@[j],
                self.frame() == old(self).frame(),
                self.warnings == old(self).warnings,
                is_ascii_bytes(self.field_name@),
                is_ascii_bytes(self.field_value@),
            decreases data.len() - i,
        {
            self.buf.set(i, data[i]);
            i += 1;
        }
        self.buf_start = 0;
        self.buf_end = data.len();
        assert(self.buffer() =~= data@);
    }

    /// Starts a read: no field taken, nothing added up, waiting for a line.
    pub fn start_read(&mut self)
        requires
            old(self).wf(),
        ensures
            final(self).wf(),
            final(self).buffer() == old(self).buffer(),
            final(self).position() == old(self).position(),
            final(self).frame() == initial_frame(),
            final(self).warnings() == old(self).warnings(),
    {
        self.message = Message::new();
        self.checksum = 0;
        self.state = DecoderState::Idle;
        self.state_after_hex = DecoderState::Idle;
        self.field_name.clear();
        self.field_value.clear();
        assert(self.field_name@ =~= Seq::<u8>::empty());
        assert(self.field_value@ =~= Seq::<u8>::empty());
    }

    /// Takes byte `b` into the frame. When `b` is the checksum byte, the
    /// read ends: with the message if the frame added up to zero, with a
    /// checksum error otherwise; the decoder then stands at the start of the
    /// next read.
    pub fn feed(&mut self, b: u8) -> (r: Option<Result<Message, ReadError>>)
        requires
            old(self).wf(),
        ensures
            final(self).wf(),
            final(self).buffer() == old(self).buffer(),
            final(self).position() == old(self).position(),
            final(self).warnings() == old(self).warnings() + step_warnings(old(self).frame(), b),
            match step(old(self).frame(), b) {
                Step::Continue(f) => r is None && final(self).frame() == f,
                Step::Done(fields) => {
                    &&& r matches Some(Ok(m)) && m@ == fields
                    &&& final(self).frame() == initial_frame()
                },
                Step::ChecksumError => {
                    &&& r matches Some(Err(ReadError::ChecksumError))
                    &&& final(self).frame() == initial_frame()
                },
            },
    {
        let ghost before = self.frame();
        let ghost w0 = self.warnings();
        proof {
            assert(w0 + Seq::<WarningView>::empty() =~= w0);
        }
        if b == 58 && self.state != DecoderState::Checksum {
            self.state_after_hex = self.state;
            self.state = DecoderState::HexRecord;
        }
        if self.state != DecoderState::HexRecord {
            self.checksum = self.checksum.wrapping_add(b);
        }
        assert(self.checksum == (if self.state != DecoderState::HexRecord {
            add_wrapping(before.checksum, b)
        } else {
            before.checksum
        }));
        match self.state {
            DecoderState::Idle => {
                if b == 10 {
                    self.state = DecoderState::FieldName;
                }
                None
            },
            DecoderState::FieldName => {
                if b == 9 {
                    let label: &[u8] = &[67u8, 104u8, 101u8, 99u8, 107u8, 115u8, 117u8, 109u8];
                    assert(label@ =~= checksum_label());
                    if bytes_equal(self.field_name.as_slice(), label) {
                        self.state = DecoderState::Checksum;
                    } else {
                        self.state = DecoderState::FieldValue;
                    }
                } else if b < 128 {
                    self.field_name.push(b);
                } else {
                    self.warnings.push(DecodeWarning::NonAscii(b));
                    assert(self.warnings() =~= w0 + seq![WarningView::NonAscii(b)]);
                }
                None
            },
            DecoderState::FieldValue => {
                if b == 13 {
                } else if b == 10 {
                    let name = ascii_str(self.field_name.as_slice());
                    let value = ascii_str(self.field_value.as_slice());
                    match self.message.set_field(name, value) {
                        Ok(()) => {},
                        Err(e) => {
                            let ghost w = DecodeWarning::RejectedField(e)@;
                            self.warnings.push(DecodeWarning::RejectedField(e));
                            assert(self.warnings() =~= w0 + seq![w]);
                        },
                    }
                    assert(self.warnings() == w0 + line_warnings(before.name, before.value));
                    self.field_name.clear();
                    self.field_value.clear();
                    self.state = DecoderState::FieldName;
                    assert(self.field_name@ =~= Seq::<u8>::empty());
                    assert(self.field_value@ =~= Seq::<u8>::empty());
                } else if b < 128 {
                    self.field_value.push(b);
                } else {
                    self.warnings.push(DecodeWarning::NonAscii(b));
                    assert(self.warnings() =~= w0 + seq![WarningView::NonAscii(b)]);
                }
                None
            },
            DecoderState::Checksum => {
                let outcome = if self.checksum == 0 {
                    let mut m = Message::new();
                    std::mem::swap(&mut m, &mut self.message);
                    Ok(m)
                } else {
                    Err(ReadError::ChecksumError)
                };
                self.start_read();
                Some(outcome)
            },
            DecoderState::HexRecord => {
                if b == 10 {
                    self.state = self.state_after_hex;
                }
                None
            },
        }
    }

    /// Takes bytes of the buffer until the read ends or the buffer is spent.
    /// When the read ends, its outcome comes back and the position stands
    /// just after the checksum byte; the bytes taken are the shortest part
    /// of the buffer that ends the frame. When the buffer is spent, nothing
    /// comes back, every pending byte has gone into the frame, and the
    /// position goes back to the start of the buffer. The warnings of the
    /// bytes taken are added, in order.
    pub fn resume_read(&mut self) -> (r: Option<Result<Message, ReadError>>)
        requires
            old(self).wf(),
        ensures
            final(self).wf(),
            final(self).buffer() == old(self).buffer(),
            match r {
                None => {
                    &&& final(self).position() == 0
                    &&& run(old(self).frame(), old(self).pending()) == Step::Continue(final(self).frame())
                    &&& final(self).warnings() == old(self).warnings() + run_warnings(
                        old(self).frame(),
                        old(self).pending(),
                    )
                },
                Some(res) => {
                    let k = final(self).position() - old(self).position();
                    &&& 0 < k <= old(self).pending().len()
                    &&& run(old(self).frame(), old(self).pending().take(k - 1)) is Continue
                    &&& read_outcome(run(old(self).frame(), old(self).pending().take(k)), res)
                    &&& final(self).frame() == initial_frame()
                    &&& final(self).warnings() == old(self).warnings() + run_warnings(
                        old(self).frame(),
                        old(self).pending().take(k),
                    )
                },
            },
    {
        let ghost start = self.position();
        let ghost pending = self.pending();
        let ghost first = self.frame();
        let ghost w0 = self.warnings();
        proof {
            assert(pending.take(0) =~= Seq::<u8>::empty());
            assert(w0 + Seq::<WarningView>::empty() =~= w0);
        }
        loop
            invariant
                self.wf(),
                self.buffer() == old(self).buffer(),
                pending == old(self).pending(),
                first == old(self).frame(),
                start == old(self).position(),
                start <= self.position() <= self.buffer().len(),
                pending == self.buffer().skip(start as int),
                run(first, pending.take(self.position() - start)) == Step::Continue(self.frame()),
                w0 == old(self).warnings(),
                self.warnings() == w0 + run_warnings(first, pending.take(self.position() - start)),
            decreases self.buffer().len() - self.position(),
        {
            let ghost taken = self.position() - start;
            match self.next_byte() {
                None => {
                    assert(pending.take(taken) =~= pending);
                    return None;
                },
                Some(b) => {
                    assert(pending.take(taken + 1).drop_last() =~= pending.take(taken));
                    assert(pending.take(taken + 1).last() == b);
                    let ghost fr = self.frame();
                    let ghost w1 = self.warnings();
                    match self.feed(b) {
                        Some(res) => {
                            assert(w0 + run_warnings(first, pending.take(taken)) + step_warnings(fr, b)
                                =~= w0 + run_warnings(first, pending.take(taken + 1)));
                            return Some(res);
                        },
                        None => {
                            assert(w0 + run_warnings(first, pending.take(taken)) + step_warnings(fr, b)
                                =~= w0 + run_warnings(first, pending.take(taken + 1)));
                        },
                    }
                },
            }
        }
    }

    /// Hands back the warnings not yet taken, oldest first, and forgets them.
    pub fn take_warnings(&mut self) -> (w: Vec<DecodeWarning>)
        requires
            old(self).wf(),
        ensures
            final(self).wf(),
            warnings_view(w@) == old(self).warnings(),
            final(self).warnings() == Seq::<WarningView>::empty(),
            final(self).buffer_state() == old(self).buffer_state(),
            final(self).frame() == old(self).frame(),
    {
        let mut w: Vec<DecodeWarning> = Vec::new();
        std::mem::swap(&mut w, &mut self.warnings);
        assert(self.warnings() =~= Seq::<WarningView>::empty());
        w
    }
}

/// Whether `res` is what a read hands back when its frame came to `s`.
pub open spec fn read_outcome(s: Step, res: Result<Message, ReadError>) -> bool {
    match s {
        Step::Continue(_) => false,
        Step::Done(fields) => res matches Ok(m) && m@ == fields,
        Step::ChecksumError => res matches Err(ReadError::ChecksumError),
    }
}

} // verus!
