//! What holds of the registry as a whole, proved over the plain values that
//! the contracts of its functions speak of.

use crate::address::{
    address_bytes, digits_of, hex_digit, hex_text, hex_value, is_blank, without_prefix,
};
use crate::bounded::MAX_USERNAME_LEN;
use crate::ledger::{EventView, State, VersionToken};
use crate::pallet::{set_username_result, set_username_state, DispatchError, Error};
use crate::rpc::{query_outcome, username_text, QueryErrorView};
use crate::storage::entry_of;
use vstd::prelude::*;
use vstd::utf8::{encode_utf8, encode_utf8_decode_utf8, encode_utf8_valid_utf8, valid_utf8};

verus! {

/// No snapshot of a ledger holds a name for an address that none of the
/// writes before it was made for.
proof fn lemma_unwritten_absent(state: State, key: Seq<u8>, upto: int)
    requires
        state.wf(),
        0 <= upto < state.snapshots.len(),
        forall|i: int| 0 <= i < upto ==> (#[trigger] state.events[i]).key() != key,
    ensures
        !state.snapshots[upto].contains_key(key),
    decreases upto,
{
    if upto > 0 {
        lemma_unwritten_absent(state, key, upto - 1);
        assert(state.events[upto - 1].key() != key);
    }
}

/// An address that was never written has no name: reading it from the
/// newest snapshot gives `None`, and so does a query that names no version,
/// by any text that denotes the address.
pub proof fn law_never_written_reads_none(state: State, key: Seq<u8>, text: Seq<char>)
    requires
        state.wf(),
        forall|i: int| 0 <= i < state.events.len() ==> (#[trigger] state.events[i]).key() != key,
        address_bytes(text) == Some(key),
    ensures
        entry_of(state.current(), key) is None,
        query_outcome(state, text, None) == Ok::<Option<Seq<char>>, QueryErrorView>(None),
{
    lemma_unwritten_absent(state, key, state.snapshots.len() - 1);
}

/// The same of the text that `hex_text` writes for the address.
pub proof fn law_never_written_reads_none_by_hex(state: State, key: Seq<u8>)
    requires
        state.wf(),
        forall|i: int| 0 <= i < state.events.len() ==> (#[trigger] state.events[i]).key() != key,
        key.len() == 20,
    ensures
        query_outcome(state, hex_text(key), None) == Ok::<Option<Seq<char>>, QueryErrorView>(None),
{
    law_every_address_has_a_text(key);
    law_never_written_reads_none(state, key, hex_text(key));
}

/// No snapshot of a ledger holds a name of more than 64 bytes.
pub proof fn law_stored_names_are_bounded(state: State, at: VersionToken, key: Seq<u8>)
    requires
        state.wf(),
        state.knows(at),
        state.at(at).contains_key(key),
    ensures
        state.at(at)[key].len() <= MAX_USERNAME_LEN,
    decreases at.0,
{
    if at.0 > 0 {
        let told = state.events[at.0 - 1];
        assert(told.name().len() <= MAX_USERNAME_LEN);
        if told.key() != key {
            law_stored_names_are_bounded(state, VersionToken((at.0 - 1) as u64), key);
        }
    }
}

/// A call leaves a well-formed ledger well formed, as long as its writes can
/// still be counted.
pub proof fn law_calls_keep_the_ledger_well_formed(
    state: State,
    signed: bool,
    key: Seq<u8>,
    name: Seq<u8>,
)
    requires
        state.wf(),
        state.events.len() < u64::MAX,
    ensures
        set_username_state(state, signed, key, name).wf(),
{
    let after = set_username_state(state, signed, key, name);
    if after != state {
        assert forall|i: int| 0 <= i < after.events.len() implies {
            &&& (#[trigger] after.events[i]).name().len() <= MAX_USERNAME_LEN
            &&& after.snapshots[i + 1] == after.snapshots[i].insert(
                after.events[i].key(),
                after.events[i].name(),
            )
        } by {
            if i < state.events.len() {
                assert(after.events[i] == state.events[i]);
            }
        }
    }
}

/// A name of at most 64 bytes that a signed call sets is the name that a read
/// of the same address then gives, byte for byte.
pub proof fn law_write_then_read(state: State, key: Seq<u8>, name: Seq<u8>)
    requires
        name.len() <= MAX_USERNAME_LEN,
    ensures
        set_username_result(true, name) is Ok,
        entry_of(set_username_state(state, true, key, name).current(), key) == Some(name),
{
}

/// A name of more than 64 bytes is never stored: the call fails, with
/// `UsernameTooLong` where it is signed, and the ledger is as it was, so
/// every address reads as before.
pub proof fn law_too_long_changes_nothing(state: State, signed: bool, key: Seq<u8>, name: Seq<u8>)
    requires
        name.len() > MAX_USERNAME_LEN,
    ensures
        set_username_result(signed, name) is Err,
        signed ==> set_username_result(signed, name) == Err::<(), DispatchError>(
            DispatchError::Module(Error::UsernameTooLong),
        ),
        set_username_state(state, signed, key, name) == state,
{
}

/// A call that is not signed fails with `BadOrigin` and leaves the ledger as
/// it was, whatever name it carries.
pub proof fn law_unsigned_changes_nothing(state: State, key: Seq<u8>, name: Seq<u8>)
    ensures
        set_username_result(false, name) == Err::<(), DispatchError>(DispatchError::BadOrigin),
        set_username_state(state, false, key, name) == state,
{
}

/// Setting the same name for the same address twice in a row leaves every
/// address reading as after the first time, and emits two notifications, both
/// of that address and that name.
pub proof fn law_overwrite_idempotent(state: State, key: Seq<u8>, name: Seq<u8>)
    requires
        name.len() <= MAX_USERNAME_LEN,
    ensures
        ({
            let once = set_username_state(state, true, key, name);
            let twice = set_username_state(once, true, key, name);
            let told = EventView::UsernameSet { ethereum_address: key, username: name };
            &&& twice.current() == once.current()
            &&& twice.events == state.events.push(told).push(told)
        }),
{
    let once = set_username_state(state, true, key, name);
    let twice = set_username_state(once, true, key, name);
    assert(twice.current() =~= once.current());
}

/// A call that sets the name of one address changes what no other address
/// reads.
pub proof fn law_distinct_keys_independent(
    state: State,
    signed: bool,
    written: Seq<u8>,
    name: Seq<u8>,
    other: Seq<u8>,
)
    requires
        written != other,
    ensures
        entry_of(set_username_state(state, signed, written, name).current(), other) == entry_of(
            state.current(),
            other,
        ),
{
}

/// A version that the ledger knows stays as it is under every later call:
/// the token still identifies the same snapshot, so a query that names it
/// answers after the call what it answered before.
pub proof fn law_snapshot_isolation(
    state: State,
    at: VersionToken,
    signed: bool,
    key: Seq<u8>,
    name: Seq<u8>,
    text: Seq<char>,
)
    requires
        state.knows(at),
    ensures
        ({
            let after = set_username_state(state, signed, key, name);
            &&& after.knows(at)
            &&& after.at(at) == state.at(at)
            &&& query_outcome(after, text, Some(at)) == query_outcome(state, text, Some(at))
        }),
{
}

/// The token of the newest version, taken before a call, answers after the
/// call what a query that named no version answered before it: the value as
/// of that version, not the newest.
pub proof fn law_historical_read(
    state: State,
    signed: bool,
    key: Seq<u8>,
    name: Seq<u8>,
    text: Seq<char>,
)
    requires
        state.wf(),
    ensures
        query_outcome(
            set_username_state(state, signed, key, name),
            text,
            Some(state.best()),
        ) == query_outcome(state, text, None),
{
}

/// A text that is no address is refused with `InvalidAddress` whatever the
/// ledger holds and whatever version is asked for, known or not: nothing of
/// the ledger is looked at.
pub proof fn law_malformed_address_refused(text: Seq<char>)
    requires
        address_bytes(text) is None,
    ensures
        forall|state: State, at: Option<VersionToken>| #[trigger]
            query_outcome(state, text, at) == Err::<Option<Seq<char>>, QueryErrorView>(
                QueryErrorView::InvalidAddress,
            ),
{
}

/// A text of fewer than forty characters is no address; the empty text is
/// one such.
pub proof fn law_short_text_is_no_address(text: Seq<char>)
    requires
        text.len() < 40,
    ensures
        address_bytes(text) is None,
{
    without_prefix(text).lemma_filter_len(|c: char| !is_blank(c));
}

/// A text that holds, after its prefix, a character that is neither a
/// hexadecimal digit nor a blank is no address.
pub proof fn law_non_hex_text_is_no_address(text: Seq<char>, i: int)
    requires
        0 <= i < without_prefix(text).len(),
        hex_value(without_prefix(text)[i]) is None,
        !is_blank(without_prefix(text)[i]),
    ensures
        address_bytes(text) is None,
{
    let body = without_prefix(text);
    let keep = |c: char| !is_blank(c);
    body.lemma_filter_contains(keep, i);
    let d = digits_of(text);
    let j = choose|j: int| 0 <= j < d.len() && d[j] == body[i];
    assert(hex_value(d[j]) is None);
}

/// Filtering keeps a sequence as it is where every element passes.
proof fn lemma_filter_all<A>(s: Seq<A>, pred: spec_fn(A) -> bool)
    requires
        forall|i: int| 0 <= i < s.len() ==> pred(#[trigger] s[i]),
    ensures
        s.filter(pred) == s,
    decreases s.len(),
{
    reveal(Seq::filter);
    if s.len() > 0 {
        lemma_filter_all(s.drop_last(), pred);
        assert(s.drop_last().push(s.last()) =~= s);
    }
}

/// A text without blanks whose length after the prefix is not forty is no
/// address.
pub proof fn law_wrong_length_is_no_address(text: Seq<char>)
    requires
        forall|i: int| 0 <= i < text.len() ==> !is_blank(#[trigger] text[i]),
        without_prefix(text).len() != 40,
    ensures
        address_bytes(text) is None,
{
    let body = without_prefix(text);
    assert forall|i: int| 0 <= i < body.len() implies !is_blank(#[trigger] body[i]) by {
        if body != text {
            assert(body[i] == text[i + 2]);
        }
    }
    lemma_filter_all(body, |c: char| !is_blank(c));
}

/// Forty hexadecimal digits, with or without `0x` before them, are an
/// address: byte `i` is sixteen times the value of digit `2i` plus the value
/// of digit `2i + 1`.
pub proof fn law_forty_digits_are_an_address(text: Seq<char>)
    requires
        without_prefix(text).len() == 40,
        forall|i: int| 0 <= i < 40 ==> (#[trigger] hex_value(without_prefix(text)[i])) is Some,
    ensures
        address_bytes(text) is Some,
        address_bytes(text).unwrap().len() == 20,
        forall|i: int|
            0 <= i < 20 ==> (#[trigger] address_bytes(text).unwrap()[i]) == 16 * hex_value(
                without_prefix(text)[2 * i],
            ).unwrap() + hex_value(without_prefix(text)[2 * i + 1]).unwrap(),
{
    let body = without_prefix(text);
    assert forall|i: int| 0 <= i < body.len() implies !is_blank(#[trigger] body[i]) by {
        assert(hex_value(body[i]) is Some);
    }
    lemma_filter_all(body, |c: char| !is_blank(c));
    assert(digits_of(text) == body);
    assert forall|i: int| 0 <= i < 20 implies (#[trigger] address_bytes(text).unwrap()[i]) == 16
        * hex_value(body[2 * i]).unwrap() + hex_value(body[2 * i + 1]).unwrap() by {
        assert(hex_value(body[2 * i]) is Some);
        assert(hex_value(body[2 * i + 1]) is Some);
    }
}

/// Every address has a text that denotes it: what `hex_text` writes for
/// twenty bytes reads back as those bytes.
pub proof fn law_every_address_has_a_text(key: Seq<u8>)
    requires
        key.len() == 20,
    ensures
        address_bytes(hex_text(key)) == Some(key),
{
    let text = hex_text(key);
    let body = without_prefix(text);
    let written = Seq::new(
        40,
        |i: int|
            hex_digit(
                if i % 2 == 0 {
                    key[i / 2] as int / 16
                } else {
                    key[i / 2] as int % 16
                },
            ),
    );
    assert(text[0] == '0' && text[1] == 'x');
    assert(body =~= written);
    assert forall|i: int| 0 <= i < 40 implies (#[trigger] hex_value(body[i])) is Some by {
        let v = if i % 2 == 0 {
            key[i / 2] as int / 16
        } else {
            key[i / 2] as int % 16
        };
        assert(0 <= v < 16);
        assert(body[i] == hex_digit(v));
        assert(hex_value(hex_digit(v)) == Some(v));
    }
    law_forty_digits_are_an_address(text);
    let read = address_bytes(text).unwrap();
    assert forall|j: int| 0 <= j < 20 implies read[j] == key[j] by {
        let hi = key[j] as int / 16;
        let lo = key[j] as int % 16;
        assert(body[2 * j] == hex_digit(hi));
        assert(body[2 * j + 1] == hex_digit(lo));
        assert(hex_value(hex_digit(hi)) == Some(hi));
        assert(hex_value(hex_digit(lo)) == Some(lo));
        assert(read[j] == 16 * hi + lo);
    }
    assert(read =~= key);
}

/// A stored name that is the UTF-8 of a text is shown as that text.
pub proof fn law_text_names_are_shown_as_written(text: Seq<char>)
    ensures
        username_text(encode_utf8(text)) == text,
{
    encode_utf8_valid_utf8(text);
    encode_utf8_decode_utf8(text);
}

/// A stored name that is not UTF-8 is shown as the text `Invalid UTF-8`, and
/// so is a stored name that spells that text: a query cannot tell the two
/// apart.
pub proof fn law_placeholder_hides_undecodable(bytes: Seq<u8>)
    requires
        !valid_utf8(bytes),
    ensures
        username_text(bytes) == "Invalid UTF-8"@,
        username_text(bytes) == username_text(encode_utf8("Invalid UTF-8"@)),
{
    encode_utf8_valid_utf8("Invalid UTF-8"@);
    encode_utf8_decode_utf8("Invalid UTF-8"@);
}

} // verus!
