//! What holds of the rules of the form for every form: which forms are
//! valid, that each broken rule is listed once, and that an accepted inquiry
//! is in normal form.

use crate::formats::{email_format, email_split};
use crate::models::contact::{
    email_violations, format_violations, length_violations, normalized_email, normalized_optional,
    normalized_phone, phone_accepted, phone_violations, required_violations, subject_violations,
    FormModel, Violation, EMAIL_MAX, FIELD_EMAIL, FIELD_MESSAGE, FIELD_NAME, FIELD_PHONE,
    FIELD_SUBJECT, MESSAGE_MAX, NAME_MAX, PHONE_MAX, SUBJECT_MAX,
};
use crate::text::{
    ascii_digits, ascii_lower, ascii_lowercase, is_trimmed, is_whitespace,
    lemma_ascii_digits_fixed, lemma_ascii_digits_shape, lemma_ascii_lowercase_idempotent,
    lemma_trimmed_fixed, lemma_trimmed_idempotent, lemma_trimmed_shape, trimmed,
};
use crate::timestamp::Timestamp;
use vstd::prelude::*;

verus! {

/// One for a rule that is broken, none for one that is kept.
pub open spec fn tally(broken: bool) -> nat {
    if broken {
        1
    } else {
        0
    }
}

/// Whether an optional text is there and has more than `max` characters.
pub open spec fn longer_than(value: Option<Seq<char>>, max: nat) -> bool {
    match normalized_optional(value) {
        Some(v) => v.len() > max,
        None => false,
    }
}

/// Whether an e-mail address is there and not of the shape `local@domain.tld`.
pub open spec fn out_of_email_format(value: Option<Seq<char>>) -> bool {
    match normalized_optional(value) {
        Some(v) => !email_format(v),
        None => false,
    }
}

impl FormModel {
    pub open spec fn name_missing(self) -> bool {
        trimmed(self.name).len() == 0
    }

    pub open spec fn name_too_long(self) -> bool {
        trimmed(self.name).len() > NAME_MAX
    }

    pub open spec fn phone_missing(self) -> bool {
        trimmed(self.phone).len() == 0
    }

    pub open spec fn phone_too_long(self) -> bool {
        trimmed(self.phone).len() > PHONE_MAX
    }

    pub open spec fn phone_malformed(self) -> bool {
        !self.phone_missing() && !phone_accepted(trimmed(self.phone))
    }

    pub open spec fn email_too_long(self) -> bool {
        longer_than(self.email, EMAIL_MAX as nat)
    }

    pub open spec fn email_malformed(self) -> bool {
        out_of_email_format(self.email)
    }

    pub open spec fn subject_too_long(self) -> bool {
        longer_than(self.subject, SUBJECT_MAX as nat)
    }

    pub open spec fn message_missing(self) -> bool {
        trimmed(self.message).len() == 0
    }

    pub open spec fn message_too_long(self) -> bool {
        trimmed(self.message).len() > MESSAGE_MAX
    }

    /// How many rules the form breaks.
    pub open spec fn broken_rules(self) -> nat {
        tally(self.name_missing()) + tally(self.name_too_long()) + tally(self.phone_missing())
            + tally(self.phone_too_long()) + tally(self.phone_malformed()) + tally(
            self.email_too_long(),
        ) + tally(self.email_malformed()) + tally(self.subject_too_long()) + tally(
            self.message_missing(),
        ) + tally(self.message_too_long())
    }
}

proof fn lemma_contains_either<A>(a: Seq<A>, b: Seq<A>, x: A)
    ensures
        (a + b).contains(x) <==> a.contains(x) || b.contains(x),
{
    if a.contains(x) {
        let k = choose|k: int| 0 <= k < a.len() && a[k] == x;
        assert((a + b)[k] == x);
    }
    if b.contains(x) {
        let k = choose|k: int| 0 <= k < b.len() && b[k] == x;
        assert((a + b)[a.len() + k] == x);
    }
    if (a + b).contains(x) {
        let k = choose|k: int| 0 <= k < (a + b).len() && (a + b)[k] == x;
        if k < a.len() {
            assert(a[k] == x);
        } else {
            assert(b[k - a.len()] == x);
        }
    }
}

proof fn lemma_length_listed(field: Seq<char>, v: Seq<char>, max: nat, x: Violation)
    ensures
        length_violations(field, v, max).len() == tally(v.len() > max),
        length_violations(field, v, max).contains(x) <==> v.len() > max && x == (
        Violation::TooLong { field, max }),
{
    let list = length_violations(field, v, max);
    if v.len() > max {
        assert(list[0] == Violation::TooLong { field, max });
    }
}

proof fn lemma_format_listed(field: Seq<char>, in_format: bool, x: Violation)
    ensures
        format_violations(field, in_format).len() == tally(!in_format),
        format_violations(field, in_format).contains(x) <==> !in_format && x == (
        Violation::InvalidFormat { field }),
{
    let list = format_violations(field, in_format);
    if !in_format {
        assert(list[0] == Violation::InvalidFormat { field });
    }
}

proof fn lemma_required_listed(field: Seq<char>, value: Seq<char>, max: nat, x: Violation)
    ensures
        required_violations(field, value, max).len() == tally(trimmed(value).len() == 0) + tally(
            trimmed(value).len() > max,
        ),
        required_violations(field, value, max).contains(x) <==> (trimmed(value).len() == 0 && x == (
        Violation::EmptyField { field })) || (trimmed(value).len() > max && x == (
        Violation::TooLong { field, max })),
{
    let list = required_violations(field, value, max);
    lemma_length_listed(field, trimmed(value), max, x);
    if trimmed(value).len() == 0 {
        assert(list[0] == Violation::EmptyField { field });
    }
}

proof fn lemma_phone_listed(value: Seq<char>, x: Violation)
    ensures
        phone_violations(value).len() == tally(trimmed(value).len() == 0) + tally(
            trimmed(value).len() > PHONE_MAX,
        ) + tally(trimmed(value).len() > 0 && !phone_accepted(trimmed(value))),
        phone_violations(value).contains(x) <==> (trimmed(value).len() == 0 && x == (
        Violation::EmptyField { field: FIELD_PHONE@ })) || (trimmed(value).len() > PHONE_MAX && x
            == (Violation::TooLong { field: FIELD_PHONE@, max: PHONE_MAX as nat })) || (trimmed(
            value,
        ).len() > 0 && !phone_accepted(trimmed(value)) && x == (
        Violation::InvalidFormat { field: FIELD_PHONE@ })),
{
    let v = trimmed(value);
    let list = phone_violations(value);
    if v.len() == 0 {
        assert(list[0] == Violation::EmptyField { field: FIELD_PHONE@ });
    } else {
        lemma_length_listed(FIELD_PHONE@, v, PHONE_MAX as nat, x);
        lemma_format_listed(FIELD_PHONE@, phone_accepted(v), x);
        lemma_contains_either(
            length_violations(FIELD_PHONE@, v, PHONE_MAX as nat),
            format_violations(FIELD_PHONE@, phone_accepted(v)),
            x,
        );
    }
}

proof fn lemma_email_listed(value: Option<Seq<char>>, x: Violation)
    ensures
        email_violations(value).len() == tally(longer_than(value, EMAIL_MAX as nat)) + tally(
            out_of_email_format(value),
        ),
        email_violations(value).contains(x) <==> (longer_than(value, EMAIL_MAX as nat) && x == (
        Violation::TooLong { field: FIELD_EMAIL@, max: EMAIL_MAX as nat })) || (out_of_email_format(
            value,
        ) && x == (Violation::InvalidFormat { field: FIELD_EMAIL@ })),
{
    match normalized_optional(value) {
        Some(v) => {
            lemma_length_listed(FIELD_EMAIL@, v, EMAIL_MAX as nat, x);
            lemma_format_listed(FIELD_EMAIL@, email_format(v), x);
            lemma_contains_either(
                length_violations(FIELD_EMAIL@, v, EMAIL_MAX as nat),
                format_violations(FIELD_EMAIL@, email_format(v)),
                x,
            );
        },
        None => {},
    }
}

proof fn lemma_subject_listed(value: Option<Seq<char>>, x: Violation)
    ensures
        subject_violations(value).len() == tally(longer_than(value, SUBJECT_MAX as nat)),
        subject_violations(value).contains(x) <==> longer_than(value, SUBJECT_MAX as nat) && x == (
        Violation::TooLong { field: FIELD_SUBJECT@, max: SUBJECT_MAX as nat }),
{
    match normalized_optional(value) {
        Some(v) => {
            lemma_length_listed(FIELD_SUBJECT@, v, SUBJECT_MAX as nat, x);
        },
        None => {},
    }
}

/// Whether `x` says that a rule is broken which the form does break.
pub open spec fn is_broken_rule(form: FormModel, x: Violation) -> bool {
    ||| form.name_missing() && x == (Violation::EmptyField { field: FIELD_NAME@ })
    ||| form.name_too_long() && x == (Violation::TooLong {
        field: FIELD_NAME@,
        max: NAME_MAX as nat,
    })
    ||| form.phone_missing() && x == (Violation::EmptyField { field: FIELD_PHONE@ })
    ||| form.phone_too_long() && x == (Violation::TooLong {
        field: FIELD_PHONE@,
        max: PHONE_MAX as nat,
    })
    ||| form.phone_malformed() && x == (Violation::InvalidFormat { field: FIELD_PHONE@ })
    ||| form.email_too_long() && x == (Violation::TooLong {
        field: FIELD_EMAIL@,
        max: EMAIL_MAX as nat,
    })
    ||| form.email_malformed() && x == (Violation::InvalidFormat { field: FIELD_EMAIL@ })
    ||| form.subject_too_long() && x == (Violation::TooLong {
        field: FIELD_SUBJECT@,
        max: SUBJECT_MAX as nat,
    })
    ||| form.message_missing() && x == (Violation::EmptyField { field: FIELD_MESSAGE@ })
    ||| form.message_too_long() && x == (Violation::TooLong {
        field: FIELD_MESSAGE@,
        max: MESSAGE_MAX as nat,
    })
}

/// A form is valid exactly where it breaks no rule, and what is listed for
/// it has one entry for each rule it breaks: as many entries as broken rules,
/// and an entry is listed exactly where its rule is broken.
pub proof fn lemma_each_broken_rule_is_listed_once(form: FormModel)
    ensures
        form.violations().len() == form.broken_rules(),
        form.is_valid() <==> form.broken_rules() == 0,
        forall|x: Violation| #[trigger] form.violations().contains(x) <==> is_broken_rule(form, x),
{
    let name = required_violations(FIELD_NAME@, form.name, NAME_MAX as nat);
    let phone = phone_violations(form.phone);
    let email = email_violations(form.email);
    let subject = subject_violations(form.subject);
    let message = required_violations(FIELD_MESSAGE@, form.message, MESSAGE_MAX as nat);
    assert forall|x: Violation| #[trigger] form.violations().contains(x) <==> is_broken_rule(
        form,
        x,
    ) by {
        lemma_required_listed(FIELD_NAME@, form.name, NAME_MAX as nat, x);
        lemma_phone_listed(form.phone, x);
        lemma_email_listed(form.email, x);
        lemma_subject_listed(form.subject, x);
        lemma_required_listed(FIELD_MESSAGE@, form.message, MESSAGE_MAX as nat, x);
        lemma_contains_either(name, phone, x);
        lemma_contains_either(name + phone, email, x);
        lemma_contains_either(name + phone + email, subject, x);
        lemma_contains_either(name + phone + email + subject, message, x);
    }
    let any = Violation::EmptyField { field: FIELD_NAME@ };
    lemma_required_listed(FIELD_NAME@, form.name, NAME_MAX as nat, any);
    lemma_phone_listed(form.phone, any);
    lemma_email_listed(form.email, any);
    lemma_subject_listed(form.subject, any);
    lemma_required_listed(FIELD_MESSAGE@, form.message, MESSAGE_MAX as nat, any);
}

/// A form with a name and a message that are not empty, each field within
/// its bound, and the mobile number and the e-mail address in their formats,
/// is valid; and the inquiry that it becomes holds the name and the message
/// trimmed, the ASCII digits of the mobile number in their order, the e-mail
/// address trimmed and in lower case, and the subject trimmed.
pub proof fn lemma_well_formed_form_is_valid(
    form: FormModel,
    ip_address: Option<Seq<char>>,
    user_agent: Option<Seq<char>>,
    at: Timestamp,
)
    requires
        0 < trimmed(form.name).len() <= NAME_MAX,
        0 < trimmed(form.message).len() <= MESSAGE_MAX,
        0 < trimmed(form.phone).len() <= PHONE_MAX,
        phone_accepted(trimmed(form.phone)),
        !longer_than(form.email, EMAIL_MAX as nat),
        !out_of_email_format(form.email),
        !longer_than(form.subject, SUBJECT_MAX as nat),
    ensures
        form.is_valid(),
        form.accepted(ip_address, user_agent, at).name == trimmed(form.name),
        form.accepted(ip_address, user_agent, at).message == trimmed(form.message),
        form.accepted(ip_address, user_agent, at).phone == ascii_digits(trimmed(form.phone)),
        form.accepted(ip_address, user_agent, at).email == normalized_email(form.email),
        form.accepted(ip_address, user_agent, at).subject == normalized_optional(form.subject),
        form.accepted(ip_address, user_agent, at).id == at.id_text(),
        form.accepted(ip_address, user_agent, at).is_well_formed(),
{
    lemma_each_broken_rule_is_listed_once(form);
    lemma_accepted_inquiry_is_normal(form, ip_address, user_agent, at);
}

/// Lower case keeps a character that is no white space from becoming one,
/// and makes no `@` and no dot that was not there.
proof fn lemma_ascii_lower_keeps_marks(c: char)
    ensures
        is_whitespace(ascii_lower(c)) == is_whitespace(c),
        (ascii_lower(c) == '@') == (c == '@'),
        (ascii_lower(c) == '.') == (c == '.'),
{
}

/// An address of the shape `local@domain.tld` keeps that shape in lower case.
pub proof fn lemma_lowercase_keeps_email_format(v: Seq<char>)
    requires
        email_format(v),
    ensures
        email_format(ascii_lowercase(v)),
{
    let l = ascii_lowercase(v);
    let (at, dot) = choose|at: int, dot: int| email_split(v, at, dot);
    assert forall|k: int| 0 <= k < l.len() implies !is_whitespace(#[trigger] l[k]) by {
        lemma_ascii_lower_keeps_marks(v[k]);
    }
    assert forall|k: int| 0 <= k < l.len() && k != at implies l[k] != '@' by {
        lemma_ascii_lower_keeps_marks(v[k]);
    }
    lemma_ascii_lower_keeps_marks(v[at]);
    lemma_ascii_lower_keeps_marks(v[dot]);
    assert(email_split(l, at, dot));
}

/// A trimmed text stays trimmed in lower case.
proof fn lemma_lowercase_keeps_trimmed(v: Seq<char>)
    requires
        is_trimmed(v),
    ensures
        is_trimmed(ascii_lowercase(v)),
{
    if v.len() > 0 {
        lemma_ascii_lower_keeps_marks(v.first());
        lemma_ascii_lower_keeps_marks(v.last());
    }
}

/// The inquiry that a valid form becomes is in normal form: its fields make
/// a valid form again, and that form becomes the same inquiry.
pub proof fn lemma_accepted_inquiry_is_normal(
    form: FormModel,
    ip_address: Option<Seq<char>>,
    user_agent: Option<Seq<char>>,
    at: Timestamp,
)
    requires
        form.is_valid(),
    ensures
        form.accepted(ip_address, user_agent, at).form().is_valid(),
        form.accepted(ip_address, user_agent, at).form().accepted(ip_address, user_agent, at)
            == form.accepted(ip_address, user_agent, at),
{
    let inquiry = form.accepted(ip_address, user_agent, at);
    let again = inquiry.form();
    lemma_each_broken_rule_is_listed_once(form);

    lemma_trimmed_idempotent(form.name);
    lemma_trimmed_idempotent(form.message);

    let typed = trimmed(form.phone);
    let digits = ascii_digits(typed);
    lemma_ascii_digits_shape(typed);
    lemma_ascii_digits_fixed(digits);
    assert(is_trimmed(digits));
    lemma_trimmed_fixed(digits);

    match normalized_optional(form.email) {
        Some(v) => {
            lemma_trimmed_shape(form.email->0);
            lemma_lowercase_keeps_trimmed(v);
            lemma_trimmed_fixed(ascii_lowercase(v));
            lemma_lowercase_keeps_email_format(v);
            lemma_ascii_lowercase_idempotent(v);
        },
        None => {},
    }
    match normalized_optional(form.subject) {
        Some(v) => {
            lemma_trimmed_idempotent(form.subject->0);
        },
        None => {},
    }
    lemma_each_broken_rule_is_listed_once(again);
    assert(again.accepted(ip_address, user_agent, at) == inquiry);
}

} // verus!
