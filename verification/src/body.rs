//! What the body of a request that publishes a text secret looks like.
//!
//! The service does not take JSON. It takes `password[<key>]=<value>`
//! fragments joined by `&`: one for the payload and one for each option that
//! is set, in a fixed order. The key and the punctuation around it are sent as
//! they are; the value, and only the value, is percent-encoded. An option that
//! is not set is not sent at all, so that the service applies its own default.

use crate::args::{text_of, PPCText, PPCTextView};
use crate::decimal::{decimal, lemma_decimal_unreserved, render_decimal};
use crate::join::joined;
use crate::percent::{lemma_unreserved_kept, percent_encoded};
use vstd::prelude::*;
use vstd::string::*;

verus! {

/// The fields of a text secret that can appear in a request body.
#[derive(Debug, Copy, Clone, PartialEq, Eq, Structural)]
pub enum Field {
    /// The secret itself.
    Payload,
    /// The passphrase that guards it.
    Passphrase,
    /// The creator's note.
    Note,
    /// The number of days it lives.
    ExpireAfterDays,
    /// The number of views it lives.
    ExpireAfterViews,
    /// Whether a viewer may delete it.
    DeletableByViewer,
    /// Whether a viewer passes an extra step before the reveal.
    RetrievalStep,
}

/// The number of fields.
pub const FIELD_COUNT: usize = 7;

/// All fields, in the order in which their fragments are sent.
pub open spec fn field_order() -> Seq<Field> {
    seq![
        Field::Payload,
        Field::Passphrase,
        Field::Note,
        Field::ExpireAfterDays,
        Field::ExpireAfterViews,
        Field::DeletableByViewer,
        Field::RetrievalStep,
    ]
}

/// How a flag is written.
pub open spec fn flag_text(flag: bool) -> Seq<char> {
    if flag {
        "true"@
    } else {
        "false"@
    }
}

/// One fragment: the literal `password[`, the key, the literal `]=`, and the
/// percent-encoded value.
pub open spec fn fragment(key: Seq<char>, value: Seq<char>) -> Seq<char> {
    "password["@ + key + "]="@ + percent_encoded(value)
}

impl Field {
    /// The place of the field in [`field_order`].
    pub open spec fn position(&self) -> int {
        match self {
            Field::Payload => 0,
            Field::Passphrase => 1,
            Field::Note => 2,
            Field::ExpireAfterDays => 3,
            Field::ExpireAfterViews => 4,
            Field::DeletableByViewer => 5,
            Field::RetrievalStep => 6,
        }
    }

    /// The key that names the field on the wire.
    pub open spec fn key(&self) -> Seq<char> {
        match self {
            Field::Payload => "payload"@,
            Field::Passphrase => "passphrase"@,
            Field::Note => "note"@,
            Field::ExpireAfterDays => "expire_after_days"@,
            Field::ExpireAfterViews => "expire_after_views"@,
            Field::DeletableByViewer => "deletable_by_viewer"@,
            Field::RetrievalStep => "retrieval_step"@,
        }
    }

    /// The literal text that starts the field's fragment.
    pub open spec fn head(&self) -> Seq<char> {
        "password["@ + self.key() + "]="@
    }

    /// The field at a place of the fixed order, or `None` where the order has
    /// no such place.
    pub fn nth(position: usize) -> (field: Option<Field>)
        ensures
            field == if position < FIELD_COUNT {
                Some(field_order()[position as int])
            } else {
                None
            },
    {
        if position == 0 {
            Some(Field::Payload)
        } else if position == 1 {
            Some(Field::Passphrase)
        } else if position == 2 {
            Some(Field::Note)
        } else if position == 3 {
            Some(Field::ExpireAfterDays)
        } else if position == 4 {
            Some(Field::ExpireAfterViews)
        } else if position == 5 {
            Some(Field::DeletableByViewer)
        } else if position == 6 {
            Some(Field::RetrievalStep)
        } else {
            None
        }
    }

    /// The key that names the field on the wire.
    pub fn name(&self) -> (name: &'static str)
        ensures
            name@ == self.key(),
    {
        match self {
            Field::Payload => "payload",
            Field::Passphrase => "passphrase",
            Field::Note => "note",
            Field::ExpireAfterDays => "expire_after_days",
            Field::ExpireAfterViews => "expire_after_views",
            Field::DeletableByViewer => "deletable_by_viewer",
            Field::RetrievalStep => "retrieval_step",
        }
    }
}

impl PPCTextView {
    /// The text that a field holds before encoding, or `None` where the field
    /// is not set. The payload is always set. Numbers are written in base ten
    /// and flags as `true` or `false`.
    pub open spec fn value_of(&self, field: Field) -> Option<Seq<char>> {
        match field {
            Field::Payload => Some(self.password_payload),
            Field::Passphrase => self.passphrase,
            Field::Note => self.note,
            Field::ExpireAfterDays => match self.expire_after_days {
                Some(days) => Some(decimal(days as nat)),
                None => None,
            },
            Field::ExpireAfterViews => match self.expire_after_views {
                Some(views) => Some(decimal(views as nat)),
                None => None,
            },
            Field::DeletableByViewer => match self.deletable_by_viewer {
                Some(flag) => Some(flag_text(flag)),
                None => None,
            },
            Field::RetrievalStep => match self.retrieval_step {
                Some(flag) => Some(flag_text(flag)),
                None => None,
            },
        }
    }

    /// Whether a field is set.
    pub open spec fn is_set(&self, field: Field) -> bool {
        self.value_of(field) is Some
    }

    /// The fragment that a set field contributes to the body.
    pub open spec fn fragment_of(&self, field: Field) -> Seq<char>
        recommends
            self.is_set(field),
    {
        fragment(field.key(), self.value_of(field)->0)
    }
}

/// The fields of `text` that are set, in the fixed order.
pub open spec fn set_fields(text: PPCTextView) -> Seq<Field> {
    field_order().filter(|field: Field| text.is_set(field))
}

/// The fragments of the body: one for each field that is set, in the fixed
/// order.
pub open spec fn fragments(text: PPCTextView) -> Seq<Seq<char>> {
    set_fields(text).map_values(|field: Field| text.fragment_of(field))
}

/// The body of the request that publishes `text`.
pub open spec fn body_of(text: PPCTextView) -> Seq<char> {
    joined(fragments(text), "&"@)
}

impl PPCText {
    /// The text that a field holds before encoding, or `None` where the field
    /// is not set.
    pub fn rendered(&self, field: Field) -> (value: Option<String>)
        ensures
            text_of(value) == self@.value_of(field),
    {
        match field {
            Field::Payload => Some(self.password_payload.clone()),
            Field::Passphrase => match &self.passphrase {
                Some(passphrase) => Some(passphrase.clone()),
                None => None,
            },
            Field::Note => match &self.note {
                Some(note) => Some(note.clone()),
                None => None,
            },
            Field::ExpireAfterDays => match self.expire_after_days {
                Some(days) => Some(render_decimal(days)),
                None => None,
            },
            Field::ExpireAfterViews => match self.expire_after_views {
                Some(views) => Some(render_decimal(views)),
                None => None,
            },
            Field::DeletableByViewer => match self.deletable_by_viewer {
                Some(flag) => Some(render_flag(flag)),
                None => None,
            },
            Field::RetrievalStep => match self.retrieval_step {
                Some(flag) => Some(render_flag(flag)),
                None => None,
            },
        }
    }
}

/// Writes a flag as `true` or `false`.
pub fn render_flag(flag: bool) -> (text: String)
    ensures
        text@ == flag_text(flag),
{
    if flag {
        "true".to_owned()
    } else {
        "false".to_owned()
    }
}

/// A key is made of lower-case letters and underscores.
pub open spec fn is_key_char(c: char) -> bool {
    ('a' <= c <= 'z') || c == '_'
}

/// The keys are made of lower-case letters and underscores, and no two of
/// them have the same length.
pub proof fn lemma_keys(field: Field)
    ensures
        field.key().len() == match field {
            Field::Payload => 7int,
            Field::Passphrase => 10,
            Field::Note => 4,
            Field::ExpireAfterDays => 17,
            Field::ExpireAfterViews => 18,
            Field::DeletableByViewer => 19,
            Field::RetrievalStep => 14,
        },
        forall|i: int| 0 <= i < field.key().len() ==> is_key_char(#[trigger] field.key()[i]),
{
    reveal_strlit("payload");
    reveal_strlit("passphrase");
    reveal_strlit("note");
    reveal_strlit("expire_after_days");
    reveal_strlit("expire_after_views");
    reveal_strlit("deletable_by_viewer");
    reveal_strlit("retrieval_step");
}

/// What is known of the set fields among the first `count` of the fixed
/// order.
proof fn lemma_set_fields_among(text: PPCTextView, count: int)
    requires
        0 <= count <= field_order().len(),
    ensures
        ({
            let found = field_order().take(count).filter(|field: Field| text.is_set(field));
            &&& forall|i: int|
                0 <= i < found.len() ==> text.is_set(#[trigger] found[i]) && found[i].position()
                    < count
            &&& forall|i: int, j: int|
                0 <= i < j < found.len() ==> (#[trigger] found[i]).position() < (
                #[trigger] found[j]).position()
            &&& forall|field: Field|
                field.position() < count && text.is_set(field) ==> #[trigger] found.contains(
                    field,
                )
            &&& count >= 1 ==> found.len() >= 1 && found[0] == Field::Payload
        }),
    decreases count,
{
    let is_set = |field: Field| text.is_set(field);
    let found = field_order().take(count).filter(is_set);
    if count > 0 {
        let before = field_order().take(count - 1);
        let last = field_order()[count - 1];
        let found_before = before.filter(is_set);
        lemma_set_fields_among(text, count - 1);
        assert(field_order().take(count) =~= before.push(last));
        before.lemma_filter_push(last, is_set);
        assert forall|field: Field|
            field.position() < count && text.is_set(field) implies #[trigger] found.contains(
            field,
        ) by {
            if field.position() < count - 1 {
                assert(found_before.contains(field));
                let i = choose|i: int| 0 <= i < found_before.len() && found_before[i] == field;
                assert(found[i] == field);
            } else {
                assert(found[found.len() - 1] == field);
            }
        }
    }
}

/// A field has a fragment exactly when it is set: an option that is not set
/// is absent, not sent with an empty or a default value.
pub proof fn lemma_fragment_iff_set(text: PPCTextView, field: Field)
    ensures
        set_fields(text).contains(field) <==> text.is_set(field),
{
    if set_fields(text).contains(field) {
        let i = choose|i: int| 0 <= i < set_fields(text).len() && set_fields(text)[i] == field;
        assert(text.is_set(set_fields(text)[i]));
    }
}

/// The fragments follow the fixed order, whichever fields are set: each
/// fragment is that of a set field, and of two fragments the one that comes
/// first belongs to the field that comes first in [`field_order`]. So no
/// field has two fragments.
pub proof fn lemma_fixed_order(text: PPCTextView)
    ensures
        fragments(text).len() == set_fields(text).len(),
        forall|i: int|
            0 <= i < set_fields(text).len() ==> #[trigger] fragments(text)[i] == text.fragment_of(
                set_fields(text)[i],
            ),
        forall|i: int, j: int|
            0 <= i < j < set_fields(text).len() ==> (#[trigger] set_fields(text)[i]).position() < (
            #[trigger] set_fields(text)[j]).position(),
{
    lemma_set_fields_among(text, field_order().len() as int);
    assert(field_order().take(field_order().len() as int) =~= field_order());
}

/// The payload's fragment is always there and always first, whatever the
/// payload holds and whichever options are set.
pub proof fn lemma_payload_first(text: PPCTextView)
    ensures
        fragments(text).len() >= 1,
        set_fields(text)[0] == Field::Payload,
        fragments(text)[0] == fragment("payload"@, text.password_payload),
{
    lemma_set_fields_among(text, field_order().len() as int);
    assert(field_order().take(field_order().len() as int) =~= field_order());
}

/// With no option set, the body is the payload's fragment and nothing else;
/// for an empty payload it is `password[payload]=`.
pub proof fn lemma_payload_alone(text: PPCTextView)
    requires
        forall|field: Field| field != Field::Payload ==> !text.is_set(field),
    ensures
        body_of(text) == "password[payload]="@ + percent_encoded(text.password_payload),
        text.password_payload.len() == 0 ==> body_of(text) == "password[payload]="@,
{
    lemma_payload_first(text);
    lemma_fixed_order(text);
    reveal_strlit("password[");
    reveal_strlit("payload");
    reveal_strlit("]=");
    reveal_strlit("password[payload]=");
}

/// A flag is written in letters only, so percent-encoding leaves it as it is.
pub proof fn lemma_flag_text_kept(flag: bool)
    ensures
        percent_encoded(flag_text(flag)) == flag_text(flag),
{
    reveal_strlit("true");
    reveal_strlit("false");
    lemma_unreserved_kept(flag_text(flag));
}

/// The fragment of a number holds its base-ten numeral and the fragment of a
/// flag holds `true` or `false`, each as written: encoding changes neither.
pub proof fn lemma_number_and_flag_fragments(text: PPCTextView)
    ensures
        text.expire_after_days matches Some(days) ==> text.fragment_of(Field::ExpireAfterDays)
            == Field::ExpireAfterDays.head() + decimal(days as nat),
        text.expire_after_views matches Some(views) ==> text.fragment_of(Field::ExpireAfterViews)
            == Field::ExpireAfterViews.head() + decimal(views as nat),
        text.deletable_by_viewer matches Some(flag) ==> text.fragment_of(Field::DeletableByViewer)
            == Field::DeletableByViewer.head() + flag_text(flag),
        text.retrieval_step matches Some(flag) ==> text.fragment_of(Field::RetrievalStep)
            == Field::RetrievalStep.head() + flag_text(flag),
{
    if let Some(days) = text.expire_after_days {
        lemma_decimal_unreserved(days as nat);
    }
    if let Some(views) = text.expire_after_views {
        lemma_decimal_unreserved(views as nat);
    }
    if let Some(flag) = text.deletable_by_viewer {
        lemma_flag_text_kept(flag);
    }
    if let Some(flag) = text.retrieval_step {
        lemma_flag_text_kept(flag);
    }
}

} // verus!
