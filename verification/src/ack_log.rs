//! The acknowledgement log: one record per acknowledgement, append-only.
//!
//! Each record is one line `acknowledged_at_ms=<digits>\n`, the digits being
//! the decimal rendering of a timestamp in milliseconds since the epoch.
//! `log_after` models the file content after a run of acknowledgements, and
//! the lemmas below establish the append-only shape of that content: prior
//! content is preserved, each call appends exactly one well-formed line, and
//! the recorded values can be read back exactly, in call order.

use crate::decimal::dec_of;
use crate::decimal::dec_val;
use crate::decimal::is_dec_digit;
use crate::decimal::lemma_dec_of_digits;
use crate::decimal::lemma_dec_val_of_dec_of;
use crate::decimal::u128_to_decimal;
use vstd::prelude::*;

verus! {

/// The file name of the acknowledgement log.
pub open spec fn log_file_name_spec() -> Seq<char> {
    "acknowledgements.log"@
}

/// The file name of the acknowledgement log.
pub fn log_file_name() -> (r: &'static str)
    ensures
        r@ == log_file_name_spec(),
{
    "acknowledgements.log"
}

/// The key that opens every record line.
pub open spec fn ack_key_spec() -> Seq<char> {
    "acknowledged_at_ms="@
}

/// One record line for the given timestamp in milliseconds.
pub open spec fn ack_record_spec(ms: int) -> Seq<char> {
    ack_key_spec() + dec_of(ms) + "\n"@
}

/// The record line for the given timestamp in milliseconds.
pub fn ack_record(ms: u128) -> (r: String)
    ensures
        r@ == ack_record_spec(ms as int),
{
    let mut s = String::from_str("acknowledged_at_ms=");
    let digits = u128_to_decimal(ms);
    s.append(digits.as_str());
    s.append("\n");
    proof {
        assert(s@ =~= ack_record_spec(ms as int));
    }
    s
}

/// The log content after appending one record per clock reading, oldest
/// first, to the given initial content.
pub open spec fn log_after(init: Seq<char>, stamps: Seq<int>) -> Seq<char>
    decreases stamps.len(),
{
    if stamps.len() == 0 {
        init
    } else {
        log_after(init, stamps.drop_last()) + ack_record_spec(stamps.last())
    }
}

/// How many times a character occurs in a sequence.
pub open spec fn count_char(s: Seq<char>, c: char) -> int
    decreases s.len(),
{
    if s.len() == 0 {
        0
    } else {
        count_char(s.drop_last(), c) + (if s.last() == c {
            1int
        } else {
            0int
        })
    }
}

/// Occurrences in a concatenation are the occurrences in the two parts.
pub proof fn lemma_count_char_add(a: Seq<char>, b: Seq<char>, c: char)
    ensures
        count_char(a + b, c) == count_char(a, c) + count_char(b, c),
    decreases b.len(),
{
    if b.len() == 0 {
        assert(a + b =~= a);
    } else {
        lemma_count_char_add(a, b.drop_last(), c);
        assert((a + b).drop_last() =~= a + b.drop_last());
        assert((a + b).last() == b.last());
    }
}

/// A sequence in which the character never occurs counts zero occurrences.
pub proof fn lemma_count_char_none(s: Seq<char>, c: char)
    requires
        forall|i: int| 0 <= i < s.len() ==> s[i] != c,
    ensures
        count_char(s, c) == 0,
    decreases s.len(),
{
    if s.len() > 0 {
        lemma_count_char_none(s.drop_last(), c);
    }
}

/// The shape every record line has: it opens with the key, carries only
/// decimal digits after it, and closes with the one newline it contains.
pub open spec fn ack_record_shape(l: Seq<char>) -> bool {
    &&& l.len() >= 21
    &&& l.subrange(0, 19) == ack_key_spec()
    &&& (forall|i: int| 19 <= i < l.len() - 1 ==> is_dec_digit(#[trigger] l[i]))
    &&& l.last() == '\n'
    &&& count_char(l, '\n') == 1
}

/// Every record of a non-negative timestamp has the record shape.
pub proof fn lemma_ack_record_shape(ms: int)
    requires
        ms >= 0,
    ensures
        ack_record_shape(ack_record_spec(ms)),
{
    reveal_strlit("acknowledged_at_ms=");
    reveal_strlit("\n");
    lemma_dec_of_digits(ms);
    let key = ack_key_spec();
    let nl = "\n"@;
    let l = ack_record_spec(ms);
    assert(key.len() == 19);
    assert(nl.len() == 1);
    assert(l.subrange(0, 19) =~= key);
    assert(forall|i: int| 0 <= i < key.len() ==> key[i] != '\n');
    lemma_count_char_none(key, '\n');
    lemma_count_char_none(dec_of(ms), '\n');
    assert(count_char(nl, '\n') == 1) by {
        assert(nl.drop_last() =~= Seq::<char>::empty());
        assert(count_char(Seq::<char>::empty(), '\n') == 0);
        assert(nl.last() == '\n');
    }
    lemma_count_char_add(key, dec_of(ms), '\n');
    lemma_count_char_add(key + dec_of(ms), nl, '\n');
    assert(l =~= (key + dec_of(ms)) + nl);
    assert(l.last() == '\n');
}

/// Appending never touches what was already in the log: the initial content
/// is a prefix of the content after any run.
pub proof fn lemma_log_append_only(init: Seq<char>, stamps: Seq<int>)
    ensures
        init.is_prefix_of(log_after(init, stamps)),
    decreases stamps.len(),
{
    if stamps.len() > 0 {
        lemma_log_append_only(init, stamps.drop_last());
        assert(init.is_prefix_of(log_after(init, stamps))) by {
            let shorter = log_after(init, stamps.drop_last());
            assert(log_after(init, stamps).subrange(0, init.len() as int) =~= shorter.subrange(
                0,
                init.len() as int,
            ));
        }
    }
}

/// A run of N acknowledgements appends exactly N lines: the newline count
/// grows by exactly the number of clock readings.
pub proof fn lemma_log_line_count(init: Seq<char>, stamps: Seq<int>)
    requires
        forall|i: int| 0 <= i < stamps.len() ==> stamps[i] >= 0,
    ensures
        count_char(log_after(init, stamps), '\n') == count_char(init, '\n') + stamps.len(),
    decreases stamps.len(),
{
    if stamps.len() > 0 {
        lemma_log_line_count(init, stamps.drop_last());
        lemma_ack_record_shape(stamps.last());
        lemma_count_char_add(log_after(init, stamps.drop_last()), ack_record_spec(stamps.last()), '\n');
    }
}

/// The log after a run is the initial content followed by the records of the
/// readings, oldest first; nothing else is ever in it.
pub open spec fn records_of(stamps: Seq<int>) -> Seq<char>
    decreases stamps.len(),
{
    if stamps.len() == 0 {
        Seq::<char>::empty()
    } else {
        records_of(stamps.drop_last()) + ack_record_spec(stamps.last())
    }
}

/// The content after a run decomposes into the initial content and the
/// concatenated records, in call order.
pub proof fn lemma_log_decomposition(init: Seq<char>, stamps: Seq<int>)
    ensures
        log_after(init, stamps) == init + records_of(stamps),
    decreases stamps.len(),
{
    if stamps.len() == 0 {
        assert(log_after(init, stamps) =~= init + records_of(stamps));
    } else {
        lemma_log_decomposition(init, stamps.drop_last());
        assert(log_after(init, stamps) =~= init + records_of(stamps));
    }
}

/// The timestamp a record line carries, read back from its digits.
pub open spec fn record_value(l: Seq<char>) -> int {
    dec_val(l.subrange(19, l.len() - 1))
}

/// Reading a record back yields exactly the timestamp that was recorded.
pub proof fn lemma_record_value(ms: int)
    requires
        ms >= 0,
    ensures
        record_value(ack_record_spec(ms)) == ms,
{
    reveal_strlit("acknowledged_at_ms=");
    reveal_strlit("\n");
    let l = ack_record_spec(ms);
    assert(ack_key_spec().len() == 19);
    assert(l.subrange(19, l.len() - 1) =~= dec_of(ms));
    lemma_dec_val_of_dec_of(ms);
}

/// Non-decreasing clock readings leave non-decreasing values in the log:
/// the value read back from an earlier record never exceeds the value read
/// back from a later one.
pub proof fn lemma_recorded_values_monotonic(stamps: Seq<int>)
    requires
        forall|i: int| 0 <= i < stamps.len() ==> stamps[i] >= 0,
        forall|i: int, j: int| 0 <= i <= j < stamps.len() ==> stamps[i] <= stamps[j],
    ensures
        forall|i: int, j: int|
            0 <= i <= j < stamps.len() ==> record_value(#[trigger] ack_record_spec(stamps[i]))
                <= record_value(#[trigger] ack_record_spec(stamps[j])),
{
    assert forall|i: int, j: int|
        0 <= i <= j < stamps.len() implies record_value(#[trigger] ack_record_spec(stamps[i]))
        <= record_value(#[trigger] ack_record_spec(stamps[j])) by {
        lemma_record_value(stamps[i]);
        lemma_record_value(stamps[j]);
    }
}

} // verus!
