//! What the decoder makes of whole frames: a well-formed frame gives back its
//! fields, a wrong checksum byte is refused, and hex records are skipped;
//! and how the bytes of the line, handed over a buffer at a time, come back.

use vstd::prelude::*;

use crate::decoder::{
    add_wrapping, checksum_label, decode, initial_frame, is_ascii_bytes, run, step, take_byte, take_field,
    BufferState, DecoderState, Frame, Step,
};
use crate::field::Field;
use crate::message::FieldValue;

verus! {

/// The sum of the bytes of `s`.
pub open spec fn byte_sum(s: Seq<u8>) -> nat
    decreases s.len(),
{
    if s.len() == 0 {
        0
    } else {
        byte_sum(s.drop_last()) + s.last() as nat
    }
}

/// `c` plus the bytes of `s`, modulo 256.
pub open spec fn sum_wrapping(c: u8, s: Seq<u8>) -> u8 {
    ((c + byte_sum(s)) % 256) as u8
}

/// The byte that makes the bytes of `body` and itself add up to zero
/// modulo 256.
pub open spec fn checksum_byte(body: Seq<u8>) -> u8 {
    ((256 - byte_sum(body) % 256) % 256) as u8
}

/// Whether `s` holds no byte `x`.
pub open spec fn lacks(s: Seq<u8>, x: u8) -> bool {
    forall|i: int| 0 <= i < s.len() ==> #[trigger] s[i] != x
}

/// The bytes of a label that the decoder keeps: those within ASCII.
pub open spec fn kept_name(s: Seq<u8>) -> Seq<u8>
    decreases s.len(),
{
    if s.len() == 0 {
        s
    } else if s.last() < 128 {
        kept_name(s.drop_last()).push(s.last())
    } else {
        kept_name(s.drop_last())
    }
}

/// The bytes of a value that the decoder keeps: those within ASCII, but
/// carriage returns.
pub open spec fn kept_value(s: Seq<u8>) -> Seq<u8>
    decreases s.len(),
{
    if s.len() == 0 {
        s
    } else if s.last() < 128 && s.last() != 13 {
        kept_value(s.drop_last()).push(s.last())
    } else {
        kept_value(s.drop_last())
    }
}

/// A line that the decoder reads as one line of a frame: no tab, line feed
/// or colon in the label, no line feed or colon in the value, and a label
/// that is not `Checksum` once its bytes outside ASCII are dropped. A
/// carriage return in the value (as at the end of a `\r\n` line) and any
/// byte outside ASCII are dropped from what is taken.
pub open spec fn frame_line(name: Seq<u8>, value: Seq<u8>) -> bool {
    &&& lacks(name, 9) && lacks(name, 10) && lacks(name, 58)
    &&& kept_name(name) != checksum_label()
    &&& lacks(value, 10) && lacks(value, 58)
}

/// The lines `label \t value \n` one after another.
pub open spec fn field_lines(lines: Seq<(Seq<u8>, Seq<u8>)>) -> Seq<u8>
    decreases lines.len(),
{
    if lines.len() == 0 {
        Seq::empty()
    } else {
        field_lines(lines.drop_last()) + lines.last().0 + seq![9u8] + lines.last().1 + seq![10u8]
    }
}

/// A frame without its checksum byte: a line feed, the lines, and the
/// label `Checksum` with its tab.
pub open spec fn frame_body(lines: Seq<(Seq<u8>, Seq<u8>)>) -> Seq<u8> {
    seq![10u8] + field_lines(lines) + checksum_label() + seq![9u8]
}

/// The fields that the lines give, taken one after another, each from the
/// bytes of its label and value that the decoder keeps.
pub open spec fn taken_fields(lines: Seq<(Seq<u8>, Seq<u8>)>) -> Map<Field, FieldValue>
    decreases lines.len(),
{
    if lines.len() == 0 {
        Map::empty()
    } else {
        take_field(taken_fields(lines.drop_last()), kept_name(lines.last().0), kept_value(lines.last().1))
    }
}

/// Whether each of the lines is read as one line of a frame.
pub open spec fn frame_lines(lines: Seq<(Seq<u8>, Seq<u8>)>) -> bool {
    forall|i: int| 0 <= i < lines.len() ==> frame_line(#[trigger] lines[i].0, lines[i].1)
}

/// Running the bytes `a + b` runs `a` and then, if the frame goes on, `b`.
pub proof fn lemma_run_append(fr: Frame, a: Seq<u8>, b: Seq<u8>)
    ensures
        run(fr, a + b) == match run(fr, a) {
            Step::Continue(f) => run(f, b),
            other => other,
        },
    decreases b.len(),
{
    if b.len() == 0 {
        assert(a + b =~= a);
    } else {
        lemma_run_append(fr, a, b.drop_last());
        assert((a + b).drop_last() =~= a + b.drop_last());
        assert((a + b).last() == b.last());
    }
}

/// Running one byte is one step.
pub proof fn lemma_run_one(fr: Frame, b: u8)
    ensures
        run(fr, seq![b]) == step(fr, b),
{
    assert(seq![b].drop_last() =~= Seq::<u8>::empty());
    assert(run(fr, Seq::<u8>::empty()) == Step::Continue(fr));
}

proof fn lemma_sum_push(c: u8, s: Seq<u8>, b: u8)
    ensures
        add_wrapping(sum_wrapping(c, s), b) == sum_wrapping(c, s.push(b)),
{
    assert(s.push(b).drop_last() =~= s);
    let x = c + byte_sum(s);
    vstd::arithmetic::div_mod::lemma_add_mod_noop(x, b as int, 256);
    vstd::arithmetic::div_mod::lemma_mod_twice(b as int, 256);
}

proof fn lemma_sum_concat(c: u8, a: Seq<u8>, b: Seq<u8>)
    ensures
        sum_wrapping(sum_wrapping(c, a), b) == sum_wrapping(c, a + b),
    decreases b.len(),
{
    if b.len() == 0 {
        assert(a + b =~= a);
        vstd::arithmetic::div_mod::lemma_mod_twice(c + byte_sum(a), 256);
    } else {
        lemma_sum_concat(c, a, b.drop_last());
        lemma_sum_push(sum_wrapping(c, a), b.drop_last(), b.last());
        lemma_sum_push(c, a + b.drop_last(), b.last());
        assert(b.drop_last().push(b.last()) =~= b);
        assert((a + b.drop_last()).push(b.last()) =~= a + b);
    }
}

/// Reading a label adds the bytes it keeps to the label, and all its bytes
/// to the sum.
proof fn lemma_run_name(fr: Frame, name: Seq<u8>)
    requires
        fr.state == DecoderState::FieldName,
        lacks(name, 9),
        lacks(name, 58),
    ensures
        run(fr, name) == Step::Continue(
            Frame { name: fr.name + kept_name(name), checksum: sum_wrapping(fr.checksum, name), ..fr },
        ),
    decreases name.len(),
{
    if name.len() == 0 {
        assert(fr.name + kept_name(name) =~= fr.name);
        assert(byte_sum(name) == 0);
        vstd::arithmetic::div_mod::lemma_small_mod(fr.checksum as nat, 256);
        assert(sum_wrapping(fr.checksum, name) == fr.checksum);
    } else {
        let init = name.drop_last();
        assert(lacks(init, 9) && lacks(init, 58)) by {
            assert(forall|i: int| 0 <= i < init.len() ==> init[i] == name[i]);
        }
        lemma_run_name(fr, init);
        assert(name.last() == name[name.len() - 1]);
        lemma_sum_push(fr.checksum, init, name.last());
        assert(init.push(name.last()) =~= name);
        if name.last() < 128 {
            assert((fr.name + kept_name(init)).push(name.last()) =~= fr.name + kept_name(name));
        }
    }
}

/// Reading a value adds the bytes it keeps to the value, and all its bytes
/// to the sum.
proof fn lemma_run_value(fr: Frame, value: Seq<u8>)
    requires
        fr.state == DecoderState::FieldValue,
        lacks(value, 10),
        lacks(value, 58),
    ensures
        run(fr, value) == Step::Continue(
            Frame { value: fr.value + kept_value(value), checksum: sum_wrapping(fr.checksum, value), ..fr },
        ),
    decreases value.len(),
{
    if value.len() == 0 {
        assert(fr.value + kept_value(value) =~= fr.value);
        vstd::arithmetic::div_mod::lemma_small_mod(fr.checksum as nat, 256);
    } else {
        let init = value.drop_last();
        assert(lacks(init, 10) && lacks(init, 58)) by {
            assert(forall|i: int| 0 <= i < init.len() ==> init[i] == value[i]);
        }
        lemma_run_value(fr, init);
        assert(value.last() == value[value.len() - 1]);
        lemma_sum_push(fr.checksum, init, value.last());
        assert(init.push(value.last()) =~= value);
        if value.last() < 128 && value.last() != 13 {
            assert((fr.value + kept_value(init)).push(value.last()) =~= fr.value + kept_value(value));
        }
    }
}

/// A label within ASCII is kept whole.
proof fn lemma_kept_ascii(s: Seq<u8>)
    requires
        is_ascii_bytes(s),
    ensures
        kept_name(s) == s,
    decreases s.len(),
{
    if s.len() > 0 {
        let init = s.drop_last();
        assert(is_ascii_bytes(init)) by {
            assert(forall|i: int| 0 <= i < init.len() ==> init[i] == s[i]);
        }
        lemma_kept_ascii(init);
        assert(s.last() == s[s.len() - 1]);
        assert(init.push(s.last()) =~= s);
    }
}

/// A line of a frame, read from the start of a label, takes its field from
/// the bytes it keeps and adds all its bytes to the sum.
proof fn lemma_run_line(fr: Frame, name: Seq<u8>, value: Seq<u8>)
    requires
        fr.state == DecoderState::FieldName,
        fr.name == Seq::<u8>::empty(),
        fr.value == Seq::<u8>::empty(),
        frame_line(name, value),
    ensures
        run(fr, name + seq![9u8] + value + seq![10u8]) == Step::Continue(
            Frame {
                fields: take_field(fr.fields, kept_name(name), kept_value(value)),
                checksum: sum_wrapping(fr.checksum, name + seq![9u8] + value + seq![10u8]),
                ..fr
            },
        ),
{
    lemma_run_name(fr, name);
    let f1 = Frame { name: fr.name + kept_name(name), checksum: sum_wrapping(fr.checksum, name), ..fr };
    assert(fr.name + kept_name(name) =~= kept_name(name));
    lemma_run_append(fr, name, seq![9u8]);
    lemma_run_one(f1, 9u8);
    lemma_sum_push(fr.checksum, name, 9);
    assert(name.push(9) =~= name + seq![9u8]);
    let f2 = Frame {
        state: DecoderState::FieldValue,
        name: kept_name(name),
        checksum: sum_wrapping(fr.checksum, name + seq![9u8]),
        ..fr
    };
    assert(run(fr, name + seq![9u8]) == Step::Continue(f2));
    lemma_run_value(f2, value);
    assert(f2.value + kept_value(value) =~= kept_value(value));
    lemma_run_append(fr, name + seq![9u8], value);
    lemma_sum_concat(fr.checksum, name + seq![9u8], value);
    let f3 = Frame { value: kept_value(value), checksum: sum_wrapping(fr.checksum, name + seq![9u8] + value), ..f2 };
    assert(run(fr, name + seq![9u8] + value) == Step::Continue(f3));
    lemma_run_append(fr, name + seq![9u8] + value, seq![10u8]);
    lemma_run_one(f3, 10u8);
    lemma_sum_push(fr.checksum, name + seq![9u8] + value, 10);
    assert((name + seq![9u8] + value).push(10) =~= name + seq![9u8] + value + seq![10u8]);
    assert(Seq::<u8>::empty() =~= fr.name);
}

/// Lines of a frame, read from the start of a label, take their fields one
/// after another and add their bytes to the sum.
proof fn lemma_run_lines(fr: Frame, lines: Seq<(Seq<u8>, Seq<u8>)>)
    requires
        fr.state == DecoderState::FieldName,
        fr.name == Seq::<u8>::empty(),
        fr.value == Seq::<u8>::empty(),
        fr.fields == Map::<Field, FieldValue>::empty(),
        frame_lines(lines),
    ensures
        run(fr, field_lines(lines)) == Step::Continue(
            Frame {
                fields: taken_fields(lines),
                checksum: sum_wrapping(fr.checksum, field_lines(lines)),
                ..fr
            },
        ),
    decreases lines.len(),
{
    if lines.len() == 0 {
        vstd::arithmetic::div_mod::lemma_small_mod(fr.checksum as nat, 256);
        assert(byte_sum(Seq::<u8>::empty()) == 0);
    } else {
        let init = lines.drop_last();
        assert(frame_lines(init)) by {
            assert forall|i: int| 0 <= i < init.len() implies frame_line(#[trigger] init[i].0, init[i].1) by {
                assert(init[i] == lines[i]);
            }
        }
        lemma_run_lines(fr, init);
        let (name, value) = lines.last();
        assert(frame_line(lines[lines.len() - 1].0, lines[lines.len() - 1].1));
        let f1 = Frame {
            fields: taken_fields(init),
            checksum: sum_wrapping(fr.checksum, field_lines(init)),
            ..fr
        };
        lemma_run_line(f1, name, value);
        let line = name + seq![9u8] + value + seq![10u8];
        lemma_run_append(fr, field_lines(init), line);
        lemma_sum_concat(fr.checksum, field_lines(init), line);
        assert(field_lines(init) + line =~= field_lines(lines));
    }
}

/// A frame of lines with its checksum byte gives back the fields of its
/// lines, each taken from the bytes the decoder keeps: carriage returns in
/// values (such as those of `\r\n` line ends) and bytes outside ASCII are
/// dropped.
pub proof fn lemma_frame_decodes(lines: Seq<(Seq<u8>, Seq<u8>)>)
    requires
        frame_lines(lines),
    ensures
        decode(frame_body(lines).push(checksum_byte(frame_body(lines))))
            == Step::Done(taken_fields(lines)),
{
    let body = frame_body(lines);
    let c = checksum_byte(body);
    lemma_frame_up_to_checksum(lines);
    let fc = Frame {
        fields: taken_fields(lines),
        checksum: sum_wrapping(0, body),
        state: DecoderState::Checksum,
        after_hex: DecoderState::Idle,
        name: checksum_label(),
        value: Seq::empty(),
    };
    assert(body.push(c).drop_last() =~= body);
    lemma_sum_push(0, body, c);
    lemma_checksum_cancels(body);
    assert(add_wrapping(fc.checksum, c) == 0);
}

/// A frame of lines with any other byte in place of its checksum byte is
/// refused.
pub proof fn lemma_frame_wrong_checksum(lines: Seq<(Seq<u8>, Seq<u8>)>, c: u8)
    requires
        frame_lines(lines),
        c != checksum_byte(frame_body(lines)),
    ensures
        decode(frame_body(lines).push(c)) == Step::ChecksumError,
{
    let body = frame_body(lines);
    lemma_frame_up_to_checksum(lines);
    assert(body.push(c).drop_last() =~= body);
    lemma_sum_push(0, body, c);
    lemma_checksum_cancels(body);
    lemma_sum_push(0, body, checksum_byte(body));
    lemma_only_one_checksum(sum_wrapping(0, body), c, checksum_byte(body));
}

/// Whether byte `b`, read in frame `fr`, goes into the sum: every byte
/// does but those of a hex record, from its colon to its line feed.
pub open spec fn counts(fr: Frame, b: u8) -> bool {
    if b == 58 && fr.state != DecoderState::Checksum {
        false
    } else {
        fr.state != DecoderState::HexRecord
    }
}

/// The bytes of `bytes` that go into the sum, read into frame `fr` until the
/// frame ends.
pub open spec fn counted_bytes(fr: Frame, bytes: Seq<u8>) -> Seq<u8>
    decreases bytes.len(),
{
    if bytes.len() == 0 {
        Seq::empty()
    } else {
        match run(fr, bytes.drop_last()) {
            Step::Continue(f) => counted_bytes(fr, bytes.drop_last()) + if counts(f, bytes.last()) {
                seq![bytes.last()]
            } else {
                Seq::<u8>::empty()
            },
            _ => counted_bytes(fr, bytes.drop_last()),
        }
    }
}

/// While a frame goes on, its sum is the sum of the bytes counted.
proof fn lemma_counted_sum(fr: Frame, bytes: Seq<u8>)
    ensures
        run(fr, bytes) matches Step::Continue(f) ==> f.checksum == sum_wrapping(
            fr.checksum,
            counted_bytes(fr, bytes),
        ),
    decreases bytes.len(),
{
    if bytes.len() == 0 {
        vstd::arithmetic::div_mod::lemma_small_mod(fr.checksum as nat, 256);
        assert(byte_sum(Seq::<u8>::empty()) == 0);
    } else {
        let init = bytes.drop_last();
        let b = bytes.last();
        lemma_counted_sum(fr, init);
        if let Step::Continue(f) = run(fr, init) {
            let c0 = counted_bytes(fr, init);
            if counts(f, b) {
                lemma_sum_push(fr.checksum, c0, b);
                assert(c0.push(b) =~= c0 + seq![b]);
            } else {
                assert(c0 + Seq::<u8>::empty() =~= c0);
            }
        }
    }
}

/// The checksum, for any frame body: once the decoder waits for the checksum
/// byte, whatever the lines before it held, that byte ends the frame with
/// its fields exactly when it makes the counted bytes (all but those of hex
/// records) add up to zero modulo 256; any other byte ends it with a
/// checksum error.
pub proof fn lemma_checksum_decides(body: Seq<u8>, c: u8)
    requires
        decode(body) matches Step::Continue(f) && f.state == DecoderState::Checksum,
    ensures
        decode(body.push(c)) == if c == checksum_byte(counted_bytes(initial_frame(), body)) {
            Step::Done(decode(body)->Continue_0.fields)
        } else {
            Step::ChecksumError
        },
{
    let f = decode(body)->Continue_0;
    let counted = counted_bytes(initial_frame(), body);
    lemma_counted_sum(initial_frame(), body);
    assert(body.push(c).drop_last() =~= body);
    assert(body.push(c).last() == c);
    lemma_checksum_cancels(counted);
    if c != checksum_byte(counted) {
        lemma_only_one_checksum(sum_wrapping(0, counted), c, checksum_byte(counted));
    }
}

proof fn lemma_only_one_checksum(s: u8, c: u8, d: u8)
    requires
        add_wrapping(s, d) == 0,
        c != d,
    ensures
        add_wrapping(s, c) != 0,
{
}

proof fn lemma_checksum_cancels(body: Seq<u8>)
    ensures
        add_wrapping(sum_wrapping(0, body), checksum_byte(body)) == 0,
{
    let t = byte_sum(body);
    assert((((t % 256) + (256 - t % 256) % 256) % 256) == 0) by (nonlinear_arith);
    vstd::arithmetic::div_mod::lemma_mod_twice(t as int, 256);
    vstd::arithmetic::div_mod::lemma_mod_bound(t as int, 256);
    vstd::arithmetic::div_mod::lemma_mod_bound((256 - t % 256) as int, 256);
}

/// Up to its checksum byte, a frame of lines leaves the decoder
/// waiting for that byte, with the fields of the lines and the sum of the
/// bytes so far.
proof fn lemma_frame_up_to_checksum(lines: Seq<(Seq<u8>, Seq<u8>)>)
    requires
        frame_lines(lines),
    ensures
        decode(frame_body(lines)) == Step::Continue(
            Frame {
                fields: taken_fields(lines),
                checksum: sum_wrapping(0, frame_body(lines)),
                state: DecoderState::Checksum,
                after_hex: DecoderState::Idle,
                name: checksum_label(),
                value: Seq::empty(),
            },
        ),
{
    let f0 = initial_frame();
    lemma_run_one(f0, 10u8);
    let f1 = Frame { state: DecoderState::FieldName, checksum: sum_wrapping(0, seq![10u8]), ..f0 };
    lemma_sum_push(0, Seq::<u8>::empty(), 10);
    assert(Seq::<u8>::empty().push(10u8) =~= seq![10u8]);
    vstd::arithmetic::div_mod::lemma_small_mod(0, 256);
    assert(run(f0, seq![10u8]) == Step::Continue(f1));
    lemma_run_lines(f1, lines);
    lemma_run_append(f0, seq![10u8], field_lines(lines));
    lemma_sum_concat(0, seq![10u8], field_lines(lines));
    let head = seq![10u8] + field_lines(lines);
    let f2 = Frame { fields: taken_fields(lines), checksum: sum_wrapping(0, head), ..f1 };
    assert(run(f0, head) == Step::Continue(f2));
    assert(is_ascii_bytes(checksum_label()) && lacks(checksum_label(), 9) && lacks(checksum_label(), 58));
    lemma_kept_ascii(checksum_label());
    lemma_run_name(f2, checksum_label());
    lemma_run_append(f0, head, checksum_label());
    lemma_sum_concat(0, head, checksum_label());
    assert(f2.name + checksum_label() =~= checksum_label());
    let f3 = Frame {
        name: checksum_label(),
        checksum: sum_wrapping(0, head + checksum_label()),
        ..f2
    };
    assert(run(f0, head + checksum_label()) == Step::Continue(f3));
    lemma_run_append(f0, head + checksum_label(), seq![9u8]);
    lemma_run_one(f3, 9u8);
    lemma_sum_push(0, head + checksum_label(), 9);
    assert((head + checksum_label()).push(9) =~= frame_body(lines));
}


/// A hex record: a colon, bytes other than colons and line feeds, and the
/// line feed that ends it.
pub open spec fn hex_record(body: Seq<u8>) -> Seq<u8> {
    seq![58u8] + body + seq![10u8]
}

/// Frames that differ at most in where a hex record would return to, which
/// counts only inside a hex record.
pub open spec fn alike(a: Frame, b: Frame) -> bool {
    ||| a == b
    ||| a.state != DecoderState::HexRecord && Frame { after_hex: b.after_hex, ..a } == b
}

/// Steps that end alike, or go on with frames alike.
pub open spec fn alike_steps(x: Step, y: Step) -> bool {
    match x {
        Step::Continue(a) => y matches Step::Continue(b) && alike(a, b),
        _ => x == y,
    }
}

proof fn lemma_step_alike(a: Frame, b: Frame, byte: u8)
    requires
        alike(a, b),
    ensures
        alike_steps(step(a, byte), step(b, byte)),
{
}

proof fn lemma_run_alike(a: Frame, b: Frame, bytes: Seq<u8>)
    requires
        alike(a, b),
    ensures
        alike_steps(run(a, bytes), run(b, bytes)),
    decreases bytes.len(),
{
    if bytes.len() > 0 {
        lemma_run_alike(a, b, bytes.drop_last());
        if let Step::Continue(x) = run(a, bytes.drop_last()) {
            if let Step::Continue(y) = run(b, bytes.drop_last()) {
                lemma_step_alike(x, y, bytes.last());
            }
        }
    }
}

/// Inside a hex record, bytes other than colons and line feeds change
/// nothing.
proof fn lemma_run_hex_body(fr: Frame, body: Seq<u8>)
    requires
        fr.state == DecoderState::HexRecord,
        lacks(body, 10),
        lacks(body, 58),
    ensures
        run(fr, body) == Step::Continue(fr),
    decreases body.len(),
{
    if body.len() > 0 {
        let init = body.drop_last();
        assert(lacks(init, 10) && lacks(init, 58)) by {
            assert(forall|i: int| 0 <= i < init.len() ==> init[i] == body[i]);
        }
        lemma_run_hex_body(fr, init);
        assert(body.last() == body[body.len() - 1]);
    }
}

/// A hex record, outside the checksum byte and outside another hex record,
/// leaves the frame as it was but for where a hex record returns to.
proof fn lemma_run_hex_record(fr: Frame, body: Seq<u8>)
    requires
        fr.state != DecoderState::Checksum,
        fr.state != DecoderState::HexRecord,
        lacks(body, 10),
        lacks(body, 58),
    ensures
        run(fr, hex_record(body)) == Step::Continue(Frame { after_hex: fr.state, ..fr }),
{
    let inside = Frame { state: DecoderState::HexRecord, after_hex: fr.state, ..fr };
    lemma_run_one(fr, 58u8);
    assert(run(fr, seq![58u8]) == Step::Continue(inside));
    lemma_run_hex_body(inside, body);
    lemma_run_append(fr, seq![58u8], body);
    lemma_run_one(inside, 10u8);
    lemma_run_append(fr, seq![58u8] + body, seq![10u8]);
}

/// Hex records are skipped: read after any part of a frame that leaves the
/// decoder outside the checksum byte and outside a hex record, a hex record
/// changes neither the sum, nor the fields, nor how the frame ends.
pub proof fn lemma_hex_record_skipped(
    prefix: Seq<u8>,
    body: Seq<u8>,
    rest: Seq<u8>,
)
    requires
        decode(prefix) matches Step::Continue(f) && f.state != DecoderState::Checksum
            && f.state != DecoderState::HexRecord,
        lacks(body, 10),
        lacks(body, 58),
    ensures
        alike_steps(decode(prefix + hex_record(body) + rest), decode(prefix + rest)),
{
    let f = decode(prefix)->Continue_0;
    lemma_run_hex_record(f, body);
    lemma_run_append(initial_frame(), prefix, hex_record(body));
    lemma_run_append(initial_frame(), prefix + hex_record(body), rest);
    lemma_run_append(initial_frame(), prefix, rest);
    lemma_run_alike(Frame { after_hex: f.state, ..f }, f, rest);
}

/// A call on a decoder's buffer: handing over bytes, or taking one.
pub enum BufferCall {
    /// Handing over these bytes, as `fill` does.
    Fill(Seq<u8>),
    /// Taking a byte, as `next_byte` does.
    Take,
}

/// The buffer after the calls `calls`, and what each call that took a byte
/// gave, in order.
pub open spec fn buffer_run(st: BufferState, calls: Seq<BufferCall>) -> (BufferState, Seq<Option<u8>>)
    decreases calls.len(),
{
    if calls.len() == 0 {
        (st, Seq::empty())
    } else {
        let (before, given) = buffer_run(st, calls.drop_last());
        match calls.last() {
            BufferCall::Fill(data) => (BufferState { buffer: data, position: 0 }, given),
            BufferCall::Take => {
                let (after, r) = take_byte(before);
                (after, given.push(r))
            },
        }
    }
}

/// `n` takes.
pub open spec fn takes(n: nat) -> Seq<BufferCall> {
    Seq::new(n, |i: int| BufferCall::Take)
}

/// Reading the line a chunk at a time: each chunk is handed over, then bytes
/// are taken until the buffer is spent and none comes back.
pub open spec fn reading(chunks: Seq<Seq<u8>>) -> Seq<BufferCall>
    decreases chunks.len(),
{
    if chunks.len() == 0 {
        Seq::empty()
    } else {
        reading(chunks.drop_last()) + seq![BufferCall::Fill(chunks.last())] + takes(chunks.last().len() + 1)
    }
}

/// Each byte, as a byte that was given.
pub open spec fn given_bytes(b: Seq<u8>) -> Seq<Option<u8>> {
    b.map_values(|x: u8| Some(x))
}

/// What the takes of `reading(chunks)` should give: the bytes of each chunk
/// in order, then none, which is when the next chunk is read.
pub open spec fn chunk_bytes(chunks: Seq<Seq<u8>>) -> Seq<Option<u8>>
    decreases chunks.len(),
{
    if chunks.len() == 0 {
        Seq::empty()
    } else {
        chunk_bytes(chunks.drop_last()) + given_bytes(chunks.last()) + seq![None]
    }
}

/// Running calls one list after another is running them joined.
proof fn lemma_buffer_run_append(st: BufferState, a: Seq<BufferCall>, b: Seq<BufferCall>)
    ensures
        buffer_run(st, a + b) == ({
            let (mid, x) = buffer_run(st, a);
            let (end, y) = buffer_run(mid, b);
            (end, x + y)
        }),
    decreases b.len(),
{
    if b.len() == 0 {
        assert(a + b =~= a);
        let (mid, x) = buffer_run(st, a);
        assert(x + Seq::<Option<u8>>::empty() =~= x);
    } else {
        assert((a + b).drop_last() =~= a + b.drop_last());
        assert((a + b).last() == b.last());
        lemma_buffer_run_append(st, a, b.drop_last());
        let (mid, x) = buffer_run(st, a);
        let (end0, y0) = buffer_run(mid, b.drop_last());
        match b.last() {
            BufferCall::Fill(_) => {},
            BufferCall::Take => {
                let (end, r) = take_byte(end0);
                assert((x + y0).push(r) =~= x + y0.push(r));
            },
        }
    }
}

/// Taking `n` bytes from position `k` of `buffer`, while bytes are left,
/// gives the next `n` bytes and moves past them.
proof fn lemma_takes_within(buffer: Seq<u8>, k: nat, n: nat)
    requires
        k + n <= buffer.len(),
    ensures
        buffer_run(BufferState { buffer, position: k }, takes(n)) == (
            BufferState { buffer, position: k + n },
            given_bytes(buffer.subrange(k as int, (k + n) as int)),
        ),
    decreases n,
{
    let st = BufferState { buffer, position: k };
    if n == 0 {
        assert(takes(0) =~= Seq::<BufferCall>::empty());
        assert(given_bytes(buffer.subrange(k as int, k as int)) =~= Seq::<Option<u8>>::empty());
    } else {
        assert(takes(n).drop_last() =~= takes((n - 1) as nat));
        lemma_takes_within(buffer, k, (n - 1) as nat);
        assert(given_bytes(buffer.subrange(k as int, (k + n - 1) as int)).push(Some(buffer[(k + n - 1) as int]))
            =~= given_bytes(buffer.subrange(k as int, (k + n) as int)));
    }
}

/// Handing over a chunk and taking until none comes back gives the chunk's
/// bytes in order, then none.
proof fn lemma_one_chunk(st: BufferState, chunk: Seq<u8>)
    ensures
        buffer_run(st, seq![BufferCall::Fill(chunk)] + takes(chunk.len() + 1)).1 == given_bytes(chunk) + seq![None],
{
    let filled = BufferState { buffer: chunk, position: 0 };
    let fill = seq![BufferCall::Fill(chunk)];
    assert(fill.drop_last() =~= Seq::<BufferCall>::empty());
    assert(fill.last() == BufferCall::Fill(chunk));
    assert(buffer_run(st, Seq::<BufferCall>::empty()) == (st, Seq::<Option<u8>>::empty()));
    assert(buffer_run(st, fill) == (filled, Seq::<Option<u8>>::empty()));
    lemma_buffer_run_append(st, seq![BufferCall::Fill(chunk)], takes(chunk.len() + 1));
    let all = takes(chunk.len() + 1);
    assert(all.drop_last() =~= takes(chunk.len()));
    lemma_takes_within(chunk, 0, chunk.len());
    assert(chunk.subrange(0, chunk.len() as int) =~= chunk);
    assert(Seq::<Option<u8>>::empty() + given_bytes(chunk).push(None) =~= given_bytes(chunk) + seq![None]);
}

/// The stream, a buffer at a time: when the line is read a chunk at a time,
/// each chunk handed over and bytes taken until none comes back, the bytes
/// come back once each and in the order the line sent them, and none comes
/// back exactly when a chunk is spent, which is when the next one is read.
pub proof fn lemma_chunks_in_order(st: BufferState, chunks: Seq<Seq<u8>>)
    ensures
        buffer_run(st, reading(chunks)).1 == chunk_bytes(chunks),
    decreases chunks.len(),
{
    if chunks.len() > 0 {
        let before = reading(chunks.drop_last());
        let last = seq![BufferCall::Fill(chunks.last())] + takes(chunks.last().len() + 1);
        lemma_chunks_in_order(st, chunks.drop_last());
        assert(reading(chunks) =~= before + last);
        lemma_buffer_run_append(st, before, last);
        lemma_one_chunk(buffer_run(st, before).0, chunks.last());
        assert(chunk_bytes(chunks.drop_last()) + given_bytes(chunks.last()) + seq![None]
            =~= chunk_bytes(chunks.drop_last()) + (given_bytes(chunks.last()) + seq![None]));
    } else {
        assert(reading(chunks) =~= Seq::<BufferCall>::empty());
    }
}

} // verus!
