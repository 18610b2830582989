//! Where the fragments stand in a body, read as one text.
//!
//! The `[` of a body are those of the literal `password[` of its fragments:
//! neither a key nor an encoded value holds one. So the literal text of a
//! field stands in a body at the start of that field's fragment and nowhere
//! else, and not at all where the field is not set.

use crate::args::PPCTextView;
use crate::body::{
    body_of, fragment, fragments, is_key_char, lemma_fixed_order, lemma_fragment_iff_set,
    lemma_keys, lemma_payload_first, set_fields, Field,
};
use crate::join::{
    joined, lemma_joined_part, lemma_joined_place, lemma_part_start_increases, occurs_at,
    occurs_in, part_start,
};
use crate::percent::{lemma_encoded_alphabet, percent_encoded};
use vstd::prelude::*;

verus! {

/// The place in the body at which the fragment of a set field starts.
pub open spec fn fragment_place(text: PPCTextView, field: Field) -> int
    recommends
        text.is_set(field),
{
    part_start(fragments(text), "&"@, set_fields(text).index_of(field))
}

/// The shape of the literal text that starts a fragment.
proof fn lemma_head_shape(field: Field)
    ensures
        ({
            let head = field.head();
            let key = field.key();
            let n = key.len() as int;
            &&& head.len() == 11 + n
            &&& head[8] == '['
            &&& head[9 + n] == ']'
            &&& forall|j: int| 0 <= j < n ==> head[9 + j] == #[trigger] key[j]
        }),
{
    reveal_strlit("password[");
    reveal_strlit("]=");
}

/// The shape of a fragment: it starts with the literal text of its field,
/// and its one `[` is that of the literal text.
proof fn lemma_fragment_shape(field: Field, value: Seq<char>)
    ensures
        ({
            let whole = fragment(field.key(), value);
            let key = field.key();
            let n = key.len() as int;
            &&& whole.len() == 11 + n + percent_encoded(value).len()
            &&& occurs_at(field.head(), whole, 0)
            &&& whole[8] == '['
            &&& whole[9 + n] == ']'
            &&& forall|j: int| 0 <= j < n ==> whole[9 + j] == #[trigger] key[j]
            &&& forall|place: int|
                0 <= place < whole.len() && place != 8 ==> #[trigger] whole[place] != '['
        }),
{
    reveal_strlit("password[");
    reveal_strlit("]=");
    lemma_keys(field);
    lemma_encoded_alphabet(value);
    let whole = fragment(field.key(), value);
    assert(whole.subrange(0, field.head().len() as int) =~= field.head());
}

/// Where every part holds `[` at its ninth place and nowhere else and the
/// separator holds none, a `[` of the joined parts is the ninth character of
/// a part. Returns the number of that part.
proof fn lemma_bracket_in_joined(parts: Seq<Seq<char>>, separator: Seq<char>, place: int) -> (i:
    int)
    requires
        0 <= place < joined(parts, separator).len(),
        joined(parts, separator)[place] == '[',
        forall|at: int| 0 <= at < separator.len() ==> separator[at] != '[',
        forall|i: int, at: int|
            0 <= i < parts.len() && 0 <= at < parts[i].len() && #[trigger] parts[i][at] == '['
                ==> at == 8,
    ensures
        0 <= i < parts.len(),
        place == part_start(parts, separator, i) + 8,
{
    let i = lemma_joined_place(parts, separator, place);
    lemma_joined_part(parts, separator, i);
    let start = part_start(parts, separator, i);
    if start <= place < start + parts[i].len() {
        assert(parts[i][place - start] == '[');
    } else {
        assert(separator[place - (start - separator.len())] == '[');
    }
    i
}

/// A `[` of the body is the one that a fragment's literal text holds.
/// Returns the number of that fragment.
proof fn lemma_bracket_is_literal(text: PPCTextView, place: int) -> (i: int)
    requires
        0 <= place < body_of(text).len(),
        body_of(text)[place] == '[',
    ensures
        0 <= i < set_fields(text).len(),
        place == part_start(fragments(text), "&"@, i) + 8,
{
    let parts = fragments(text);
    assert forall|i: int, at: int|
        0 <= i < parts.len() && 0 <= at < parts[i].len() && #[trigger] parts[i][at]
            == '[' implies at == 8 by {
        let found = set_fields(text)[i];
        lemma_fragment_shape(found, text.value_of(found)->0);
    }
    reveal_strlit("&");
    lemma_bracket_in_joined(parts, "&"@, place)
}

/// The literal text of one field does not start the fragment of another.
proof fn lemma_head_starts_own_fragment_only(field: Field, found: Field, value: Seq<char>)
    requires
        ({
            let head = field.head();
            let part = fragment(found.key(), value);
            forall|j: int| 0 <= j < head.len() && j < part.len() ==> head[j] == part[j]
        }),
    ensures
        field == found,
{
    let key = field.key();
    let found_key = found.key();
    let n = key.len() as int;
    let m = found_key.len() as int;
    lemma_head_shape(field);
    lemma_fragment_shape(found, value);
    lemma_keys(field);
    lemma_keys(found);
    // Where one key ends, the other would show a letter against a `]`. So
    // the keys are of one length, and no two keys are.
    if n < m {
        assert(is_key_char(found_key[n]));
    } else if n > m {
        assert(is_key_char(key[m]));
    }
}

/// Wherever the literal text of a field stands in the body, a fragment of
/// that field starts. Returns the number of that fragment.
proof fn lemma_head_starts_fragment(text: PPCTextView, field: Field, at: int) -> (i: int)
    requires
        occurs_at(field.head(), body_of(text), at),
    ensures
        0 <= i < set_fields(text).len(),
        set_fields(text)[i] == field,
        at == part_start(fragments(text), "&"@, i),
{
    assert(field.head().len() > 8 && field.head()[8] == '[') by {
        lemma_head_shape(field);
    }
    let i = lemma_bracket_is_literal(text, at + 8);
    let found = set_fields(text)[i];
    lemma_joined_part(fragments(text), "&"@, i);
    lemma_head_starts_own_fragment_only(field, found, text.value_of(found)->0);
    i
}

/// A field that is not set leaves no trace in the body: the literal text
/// that would start its fragment stands nowhere in it.
pub proof fn lemma_unset_field_not_in_body(text: PPCTextView, field: Field)
    requires
        !text.is_set(field),
    ensures
        !occurs_in(field.head(), body_of(text)),
{
    if occurs_in(field.head(), body_of(text)) {
        let at = choose|at: int| occurs_at(field.head(), body_of(text), at);
        lemma_head_starts_fragment(text, field, at);
        lemma_fragment_iff_set(text, field);
    }
}

/// The fragment of a set field stands in the body at its place, and the
/// literal text of the field stands nowhere else: a field has one fragment,
/// not two.
pub proof fn lemma_fragment_place(text: PPCTextView, field: Field)
    requires
        text.is_set(field),
    ensures
        occurs_at(text.fragment_of(field), body_of(text), fragment_place(text, field)),
        forall|at: int|
            occurs_at(field.head(), body_of(text), at) <==> at == fragment_place(text, field),
{
    lemma_fragment_iff_set(text, field);
    lemma_fixed_order(text);
    let body = body_of(text);
    let parts = fragments(text);
    let k = set_fields(text).index_of(field);
    let place = fragment_place(text, field);
    lemma_joined_part(parts, "&"@, k);
    assert(occurs_at(field.head(), body, place)) by {
        lemma_fragment_shape(field, text.value_of(field)->0);
        assert(body.subrange(place, place + field.head().len()) =~= parts[k].subrange(
            0,
            field.head().len() as int,
        ));
    }
    assert forall|at: int| occurs_at(field.head(), body, at) implies at == place by {
        lemma_head_starts_fragment(text, field, at);
    }
}

/// The fragment of every set field but the payload has a literal `&` right
/// before it.
pub proof fn lemma_separator_before(text: PPCTextView, field: Field)
    requires
        text.is_set(field),
        field != Field::Payload,
    ensures
        fragment_place(text, field) >= 1,
        body_of(text)[fragment_place(text, field) - 1] == '&',
{
    lemma_fragment_iff_set(text, field);
    lemma_payload_first(text);
    let body = body_of(text);
    let k = set_fields(text).index_of(field);
    let place = fragment_place(text, field);
    reveal_strlit("&");
    lemma_joined_part(fragments(text), "&"@, k);
    assert(body.subrange(place - 1, place)[0] == body[place - 1]);
}

/// The body names a field exactly when the field is set.
pub proof fn lemma_field_in_body_iff_set(text: PPCTextView, field: Field)
    ensures
        occurs_in(field.head(), body_of(text)) <==> text.is_set(field),
{
    if text.is_set(field) {
        lemma_fragment_place(text, field);
        assert(occurs_at(field.head(), body_of(text), fragment_place(text, field)));
    } else {
        lemma_unset_field_not_in_body(text, field);
    }
}

/// The body starts with the payload's fragment.
pub proof fn lemma_payload_at_start(text: PPCTextView)
    ensures
        fragment_place(text, Field::Payload) == 0,
        occurs_at(fragment("payload"@, text.password_payload), body_of(text), 0),
{
    lemma_fixed_order(text);
    lemma_fragment_iff_set(text, Field::Payload);
    lemma_fragment_place(text, Field::Payload);
}

/// Of two fields that are set, the one that comes first in the fixed order
/// has its fragment first in the body: the other's starts after its end.
pub proof fn lemma_body_order(text: PPCTextView, first: Field, second: Field)
    requires
        text.is_set(first),
        text.is_set(second),
        first.position() < second.position(),
    ensures
        fragment_place(text, first) + text.fragment_of(first).len() < fragment_place(
            text,
            second,
        ),
{
    lemma_fragment_iff_set(text, first);
    lemma_fragment_iff_set(text, second);
    lemma_fixed_order(text);
    let i = set_fields(text).index_of(first);
    let j = set_fields(text).index_of(second);
    reveal_strlit("&");
    lemma_part_start_increases(fragments(text), "&"@, i, j);
}

} // verus!
