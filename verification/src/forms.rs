//! Form fields and forms of the presentation layer: text entry with
//! per-field length limits and validation rules.

use crate::textops::{pop_char, push_char};
use vstd::prelude::*;

verus! {

/// The rule a form field's text must satisfy before the form may be
/// submitted. The rules are data rather than closures so that each can carry
/// an exact specification.
#[derive(Clone, Copy, Debug, PartialEq, Eq, Structural)]
pub enum Validation {
    /// Any text is accepted.
    Any,
    /// Every character is a decimal digit or a dash (a phone number).
    PhoneChars,
    /// Some character is an at sign (an email address).
    ContainsAt,
    /// The text is a decimal number that fits in a `u64` (an id).
    Uint,
}

pub open spec fn is_digit(c: char) -> bool {
    '0' <= c && c <= '9'
}

pub open spec fn is_phone_char(c: char) -> bool {
    is_digit(c) || c == '-'
}

pub open spec fn digit_val(c: char) -> int {
    c as u32 as int - 48
}

pub open spec fn all_digits(s: Seq<char>) -> bool {
    forall|i: int| 0 <= i < s.len() ==> is_digit(#[trigger] s[i])
}

/// The number a digit string denotes, most significant digit first.
pub open spec fn digits_value(s: Seq<char>) -> int
    decreases s.len(),
{
    if s.len() == 0 {
        0
    } else {
        digits_value(s.drop_last()) * 10 + digit_val(s.last())
    }
}

/// The text that a digit string denotes never denotes a negative number.
proof fn lemma_digits_value_nonneg(s: Seq<char>)
    requires
        all_digits(s),
    ensures
        digits_value(s) >= 0,
    decreases s.len(),
{
    if s.len() > 0 {
        assert(all_digits(s.drop_last()));
        lemma_digits_value_nonneg(s.drop_last());
    }
}

/// Extending a digit string never shrinks the number it denotes.
proof fn lemma_digits_value_prefix_mono(s: Seq<char>, i: int)
    requires
        all_digits(s),
        0 <= i <= s.len(),
    ensures
        digits_value(s.subrange(0, i)) <= digits_value(s),
    decreases s.len() - i,
{
    if i < s.len() {
        let t = s.subrange(0, i + 1);
        assert(t.drop_last() =~= s.subrange(0, i));
        assert(all_digits(t.drop_last()));
        lemma_digits_value_nonneg(t.drop_last());
        assert(digits_value(t) == digits_value(s.subrange(0, i)) * 10 + digit_val(t.last()));
        assert(digits_value(s.subrange(0, i)) * 10 >= digits_value(s.subrange(0, i))) by {
            lemma_digits_value_nonneg(t.drop_last());
        }
        lemma_digits_value_prefix_mono(s, i + 1);
    } else {
        assert(s.subrange(0, i) =~= s);
    }
}

/// What `Validation` accepts of a text.
pub open spec fn validation_accepts(v: Validation, s: Seq<char>) -> bool {
    match v {
        Validation::Any => true,
        Validation::PhoneChars => forall|i: int| 0 <= i < s.len() ==> is_phone_char(#[trigger] s[i]),
        Validation::ContainsAt => exists|i: int| 0 <= i < s.len() && s[i] == '@',
        Validation::Uint => s.len() > 0 && all_digits(s) && digits_value(s) <= u64::MAX,
    }
}

/// Reads a decimal number. Returns the number exactly when the text is
/// non-empty, entirely digits, and denotes a value that fits in a `u64`.
pub fn parse_u64(s: &str) -> (r: Option<u64>)
    ensures
        match r {
            Some(n) => s@.len() > 0 && all_digits(s@) && digits_value(s@) <= u64::MAX && n as int
                == digits_value(s@),
            None => !(s@.len() > 0 && all_digits(s@) && digits_value(s@) <= u64::MAX),
        },
{
    let n = s.unicode_len();
    if n == 0 {
        return None;
    }
    let mut acc: u64 = 0;
    let mut i: usize = 0;
    while i < n
        invariant
            n == s@.len(),
            0 < n,
            i <= n,
            all_digits(s@.subrange(0, i as int)),
            acc as int == digits_value(s@.subrange(0, i as int)),
        decreases n - i,
    {
        let c = s.get_char(i);
        let u = c as u32;
        if u < 48 || u > 57 {
            proof {
                assert(!is_digit(s@[i as int]));
            }
            return None;
        }
        let d = (u - 48) as u64;
        proof {
            assert(s@.subrange(0, i + 1).drop_last() =~= s@.subrange(0, i as int));
            assert(s@.subrange(0, i + 1).last() == s@[i as int]);
        }
        if acc > (u64::MAX - d) / 10 {
            proof {
                assert(acc as int * 10 + d as int > u64::MAX) by (nonlinear_arith)
                    requires
                        acc as int > ((u64::MAX - d) as int) / 10,
                        0 <= d <= 9,
                        acc <= u64::MAX,
                ;
                assert(digits_value(s@.subrange(0, i + 1)) > u64::MAX);
                if all_digits(s@) {
                    lemma_digits_value_prefix_mono(s@, i + 1);
                }
            }
            return None;
        }
        proof {
            assert(acc * 10 + d <= u64::MAX) by (nonlinear_arith)
                requires
                    acc as int <= ((u64::MAX - d) as int) / 10,
                    0 <= d <= 9,
                    0 <= acc,
            ;
        }
        acc = acc * 10 + d;
        i = i + 1;
    }
    proof {
        assert(s@.subrange(0, n as int) =~= s@);
    }
    Some(acc)
}

/// Tests whether every character is a digit or a dash.
fn check_phone_chars(s: &str) -> (r: bool)
    ensures
        r == forall|i: int| 0 <= i < s@.len() ==> is_phone_char(#[trigger] s@[i]),
{
    let n = s.unicode_len();
    let mut i: usize = 0;
    while i < n
        invariant
            n == s@.len(),
            i <= n,
            forall|k: int| 0 <= k < i ==> is_phone_char(#[trigger] s@[k]),
        decreases n - i,
    {
        let c = s.get_char(i);
        let u = c as u32;
        if !(48 <= u && u <= 57 || u == 45) {
            proof {
                assert(!is_phone_char(s@[i as int]));
            }
            return false;
        }
        i = i + 1;
    }
    true
}

/// Tests whether some character is an at sign.
fn check_contains_at(s: &str) -> (r: bool)
    ensures
        r == exists|i: int| 0 <= i < s@.len() && s@[i] == '@',
{
    let n = s.unicode_len();
    let mut i: usize = 0;
    while i < n
        invariant
            n == s@.len(),
            i <= n,
            forall|k: int| 0 <= k < i ==> s@[k] != '@',
        decreases n - i,
    {
        let c = s.get_char(i);
        if c == '@' {
            return true;
        }
        i = i + 1;
    }
    false
}

/// One labelled text field of a form.
#[derive(Clone, Debug)]
pub struct FormField {
    pub label: String,
    pub value: String,
    pub required: bool,
    pub max_length: usize,
    pub validation: Validation,
}

impl FormField {
    /// An empty field that accepts any text.
    pub fn new(label: &str, required: bool, max_length: usize) -> (r: FormField)
        ensures
            r.label@ == label@,
            r.value@ =~= Seq::<char>::empty(),
            r.required == required,
            r.max_length == max_length,
            r.validation == Validation::Any,
    {
        FormField {
            label: label.to_owned(),
            value: String::new(),
            required,
            max_length,
            validation: Validation::Any,
        }
    }

    /// The same field with the given validation rule.
    pub fn with_validation(self, validation: Validation) -> (r: FormField)
        ensures
            r.label@ == self.label@,
            r.value@ == self.value@,
            r.required == self.required,
            r.max_length == self.max_length,
            r.validation == validation,
    {
        FormField {
            label: self.label,
            value: self.value,
            required: self.required,
            max_length: self.max_length,
            validation,
        }
    }

    /// A field passes when it is not a required field left empty and its
    /// validation rule accepts its text.
    pub open spec fn spec_is_valid(&self) -> bool {
        &&& self.required ==> self.value@.len() > 0
        &&& validation_accepts(self.validation, self.value@)
    }

    pub fn is_valid(&self) -> (r: bool)
        ensures
            r == self.spec_is_valid(),
    {
        if self.required && self.value.as_str().is_empty() {
            return false;
        }
        match self.validation {
            Validation::Any => true,
            Validation::PhoneChars => check_phone_chars(self.value.as_str()),
            Validation::ContainsAt => check_contains_at(self.value.as_str()),
            Validation::Uint => parse_u64(self.value.as_str()).is_some(),
        }
    }
}

/// A titled stack of fields with one focused field.
#[derive(Clone, Debug)]
pub struct Form {
    pub fields: Vec<FormField>,
    pub focused_field: usize,
    pub title: String,
}

impl Form {
    /// A form always has a field, and the focus always rests on one of them.
    pub open spec fn wf(&self) -> bool {
        &&& self.fields@.len() > 0
        &&& self.focused_field < self.fields@.len()
    }

    pub fn new(title: &str, fields: Vec<FormField>) -> (r: Form)
        requires
            fields@.len() > 0,
        ensures
            r.wf(),
            r.title@ == title@,
            r.fields@ == fields@,
            r.focused_field == 0,
    {
        Form { fields, focused_field: 0, title: title.to_owned() }
    }

    /// Moves the focus one field down, wrapping at the end.
    pub fn next_field(&mut self)
        requires
            old(self).wf(),
        ensures
            final(self).wf(),
            final(self).fields@ == old(self).fields@,
            final(self).title@ == old(self).title@,
            final(self).focused_field == (old(self).focused_field + 1) % old(
                self,
            ).fields@.len() as int,
    {
        let n = self.fields.len();
        self.focused_field = (self.focused_field + 1) % n;
    }

    /// Moves the focus one field up, wrapping at the start.
    pub fn prev_field(&mut self)
        requires
            old(self).wf(),
        ensures
            final(self).wf(),
            final(self).fields@ == old(self).fields@,
            final(self).title@ == old(self).title@,
            final(self).focused_field == (if old(self).focused_field == 0 {
                old(self).fields@.len() - 1
            } else {
                old(self).focused_field - 1
            }),
    {
        if self.focused_field == 0 {
            self.focused_field = self.fields.len() - 1;
        } else {
            self.focused_field = self.focused_field - 1;
        }
    }

    /// Appends `c` to the focused field's text, unless that text is already
    /// at the field's length limit, counted in characters.
    pub fn input(&mut self, c: char)
        requires
            old(self).wf(),
        ensures
            final(self).wf(),
            final(self).title@ == old(self).title@,
            final(self).focused_field == old(self).focused_field,
            ({
                let f = old(self).focused_field as int;
                let field = old(self).fields@[f];
                if field.value@.len() < field.max_length {
                    final(self).fields@ =~= old(self).fields@.update(
                        f,
                        FormField { value: final(self).fields@[f].value, ..field },
                    ) && final(self).fields@[f].value@ == field.value@.push(c)
                } else {
                    final(self).fields@ == old(self).fields@
                }
            }),
    {
        let f = self.focused_field;
        let field = &mut self.fields[f];
        let len = field.value.as_str().unicode_len();
        if len < field.max_length {
            push_char(&mut field.value, c);
        }
    }

    /// Removes the last character of the focused field's text, if any.
    pub fn backspace(&mut self)
        requires
            old(self).wf(),
        ensures
            final(self).wf(),
            final(self).title@ == old(self).title@,
            final(self).focused_field == old(self).focused_field,
            ({
                let f = old(self).focused_field as int;
                let field = old(self).fields@[f];
                &&& final(self).fields@ =~= old(self).fields@.update(
                    f,
                    FormField { value: final(self).fields@[f].value, ..field },
                )
                &&& final(self).fields@[f].value@ == (if field.value@.len() > 0 {
                    field.value@.drop_last()
                } else {
                    field.value@
                })
            }),
    {
        let f = self.focused_field;
        let field = &mut self.fields[f];
        let _ = pop_char(&mut field.value);
    }

    /// A form passes when every field passes.
    pub open spec fn spec_is_valid(&self) -> bool {
        forall|i: int| 0 <= i < self.fields@.len() ==> (#[trigger] self.fields@[i]).spec_is_valid()
    }

    pub fn is_valid(&self) -> (r: bool)
        ensures
            r == self.spec_is_valid(),
    {
        let n = self.fields.len();
        let mut i: usize = 0;
        while i < n
            invariant
                n == self.fields@.len(),
                i <= n,
                forall|k: int| 0 <= k < i ==> (#[trigger] self.fields@[k]).spec_is_valid(),
            decreases n - i,
        {
            if !self.fields[i].is_valid() {
                return false;
            }
            i = i + 1;
        }
        true
    }

    /// The entered texts, field by field, in field order.
    pub fn get_values(&self) -> (r: Vec<String>)
        ensures
            r@.len() == self.fields@.len(),
            forall|i: int| 0 <= i < r@.len() ==> (#[trigger] r@[i])@ == self.fields@[i].value@,
    {
        let n = self.fields.len();
        let mut out: Vec<String> = Vec::new();
        let mut i: usize = 0;
        while i < n
            invariant
                n == self.fields@.len(),
                i <= n,
                out@.len() == i,
                forall|k: int| 0 <= k < i ==> (#[trigger] out@[k])@ == self.fields@[k].value@,
            decreases n - i,
        {
            out.push(self.fields[i].value.clone());
            i = i + 1;
        }
        out
    }
}

} // verus!
