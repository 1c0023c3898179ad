use vstd::prelude::*;

use crate::errors::ApiError;
use crate::user::{LoginParams, UserParams};
use std::borrow::Cow;
use validator::{ValidationError, ValidationErrors};

verus! {

/// A field of a request body that carries a length rule.
#[derive(Debug, Clone, Copy, PartialEq, Eq, Structural)]
pub enum Field {
    Name,
    Account,
    Password,
}

impl Field {
    /// The field's name in request bodies.
    pub fn name(&self) -> (r: &'static str)
        ensures
            r@ == field_name(*self),
    {
        match self {
            Field::Name => "name",
            Field::Account => "account",
            Field::Password => "password",
        }
    }
}

pub open spec fn field_name(f: Field) -> Seq<char> {
    match f {
        Field::Name => "name"@,
        Field::Account => "account"@,
        Field::Password => "password"@,
    }
}

/// A field whose length (in characters) is outside what its rule allows,
/// with the rule's message.
#[derive(Debug)]
pub struct LengthViolation {
    pub field: Field,
    pub message: String,
}

/// Whether a text has between `min` and `max` characters (`None`: no
/// bound on that side), as the `length` rule counts them.
pub open spec fn length_within(text: Seq<char>, min: Option<nat>, max: Option<nat>) -> bool {
    &&& (min matches Some(m) ==> text.len() >= m)
    &&& (max matches Some(m) ==> text.len() <= m)
}

/// The violation for `field` if `text` breaks its length rule, else
/// nothing.
pub open spec fn rule(
    field: Field,
    text: Seq<char>,
    min: Option<nat>,
    max: Option<nat>,
    message: Seq<char>,
) -> Seq<(Field, Seq<char>)> {
    if length_within(text, min, max) {
        seq![]
    } else {
        seq![(field, message)]
    }
}

pub open spec fn violation_views(v: Seq<LengthViolation>) -> Seq<(Field, Seq<char>)> {
    v.map_values(|x: LengthViolation| (x.field, x.message@))
}

pub open spec fn field_rank(f: Field) -> int {
    match f {
        Field::Name => 0,
        Field::Account => 1,
        Field::Password => 2,
    }
}

/// Every violation's field comes strictly after the previous ones.
pub open spec fn fields_ascending(s: Seq<(Field, Seq<char>)>) -> bool {
    forall|i: int, j: int| 0 <= i < j < s.len() ==> field_rank(s[i].0) < field_rank(s[j].0)
}

proof fn lemma_concat_ascending(s: Seq<(Field, Seq<char>)>, t: Seq<(Field, Seq<char>)>, below: int)
    requires
        fields_ascending(s),
        fields_ascending(t),
        forall|i: int| 0 <= i < s.len() ==> field_rank(#[trigger] s[i].0) < below,
        forall|j: int| 0 <= j < t.len() ==> field_rank(#[trigger] t[j].0) >= below,
    ensures
        fields_ascending(s + t),
{
    assert forall|i: int, j: int| 0 <= i < j < (s + t).len() implies field_rank((s + t)[i].0)
        < field_rank((s + t)[j].0) by {
        if j < s.len() {
        } else if i < s.len() {
            assert((s + t)[j] == t[j - s.len()]);
        } else {
            assert((s + t)[j] == t[j - s.len()]);
            assert((s + t)[i] == t[i - s.len()]);
        }
    }
}

proof fn lemma_ascending_distinct(v: Seq<LengthViolation>)
    requires
        fields_ascending(violation_views(v)),
    ensures
        distinct_fields(v),
{
    assert forall|i: int, j: int| 0 <= i < v.len() && 0 <= j < v.len() && i != j implies v[i].field
        != v[j].field by {
        assert(violation_views(v)[i].0 == v[i].field);
        assert(violation_views(v)[j].0 == v[j].field);
        if i < j {
            assert(field_rank(violation_views(v)[i].0) < field_rank(violation_views(v)[j].0));
        } else {
            assert(field_rank(violation_views(v)[j].0) < field_rank(violation_views(v)[i].0));
        }
    }
}

pub open spec fn has_field(s: Seq<(Field, Seq<char>)>, f: Field) -> bool {
    exists|i: int| 0 <= i < s.len() && (#[trigger] s[i]).0 == f
}

pub open spec fn field_messages(s: Seq<(Field, Seq<char>)>, f: Field, m: Seq<char>) -> bool {
    forall|i: int| 0 <= i < s.len() && (#[trigger] s[i]).0 == f ==> s[i].1 == m
}

proof fn lemma_concat_fields(s: Seq<(Field, Seq<char>)>, t: Seq<(Field, Seq<char>)>, f: Field, m: Seq<char>)
    ensures
        has_field(s + t, f) <==> (has_field(s, f) || has_field(t, f)),
        field_messages(s, f, m) && field_messages(t, f, m) ==> field_messages(s + t, f, m),
{
    if has_field(s + t, f) {
        let i = choose|i: int| 0 <= i < (s + t).len() && (#[trigger] (s + t)[i]).0 == f;
        if i < s.len() {
            assert(s[i] == (s + t)[i]);
        } else {
            assert(t[i - s.len()] == (s + t)[i]);
        }
    }
    if has_field(s, f) {
        let i = choose|i: int| 0 <= i < s.len() && (#[trigger] s[i]).0 == f;
        assert((s + t)[i] == s[i]);
    }
    if has_field(t, f) {
        let j = choose|j: int| 0 <= j < t.len() && (#[trigger] t[j]).0 == f;
        assert((s + t)[s.len() + j] == t[j]);
    }
    if field_messages(s, f, m) && field_messages(t, f, m) {
        assert forall|i: int| 0 <= i < (s + t).len() && (#[trigger] (s + t)[i]).0 == f implies (s
            + t)[i].1 == m by {
            if i < s.len() {
                assert(s[i] == (s + t)[i]);
            } else {
                assert(t[i - s.len()] == (s + t)[i]);
            }
        }
    }
}

proof fn lemma_rule_fields(
    field: Field,
    text: Seq<char>,
    min: Option<nat>,
    max: Option<nat>,
    message: Seq<char>,
    f: Field,
    m: Seq<char>,
)
    ensures
        has_field(rule(field, text, min, max, message), f) <==> (f == field && !length_within(
            text,
            min,
            max,
        )),
        (f != field || message == m) ==> field_messages(rule(field, text, min, max, message), f, m),
{
    let r = rule(field, text, min, max, message);
    if !length_within(text, min, max) && f == field {
        assert(r[0].0 == f);
    }
}

proof fn lemma_views_fields(v: Seq<LengthViolation>, f: Field, m: Seq<char>)
    ensures
        has_field(violation_views(v), f) <==> exists|i: int|
            0 <= i < v.len() && (#[trigger] v[i]).field == f,
        field_messages(violation_views(v), f, m) <==> forall|i: int|
            0 <= i < v.len() && (#[trigger] v[i]).field == f ==> v[i].message@ == m,
{
    let w = violation_views(v);
    if has_field(w, f) {
        let i = choose|i: int| 0 <= i < w.len() && (#[trigger] w[i]).0 == f;
        assert(v[i].field == f);
    }
    if exists|i: int| 0 <= i < v.len() && (#[trigger] v[i]).field == f {
        let i = choose|i: int| 0 <= i < v.len() && (#[trigger] v[i]).field == f;
        assert(w[i].0 == f);
    }
    if field_messages(w, f, m) {
        assert forall|i: int| 0 <= i < v.len() && (#[trigger] v[i]).field == f implies v[i].message@
            == m by {
            assert(w[i].0 == f);
        }
    }
    if forall|i: int| 0 <= i < v.len() && (#[trigger] v[i]).field == f ==> v[i].message@ == m {
        assert forall|i: int| 0 <= i < w.len() && (#[trigger] w[i]).0 == f implies w[i].1 == m by {
            assert(v[i].field == f);
        }
    }
}

/// The length rules of a login body, in field order.
pub open spec fn login_rules(p: LoginParams) -> Seq<(Field, Seq<char>)> {
    rule(
        Field::Account,
        p.account@,
        Some(3),
        Some(16),
        "Account length must be between 3 and 16 characters"@,
    ) + rule(
        Field::Password,
        p.password@,
        Some(6),
        Some(16),
        "Password length must be between 6 and 16 characters"@,
    )
}

/// The length rules of a user body, in field order. The rule on the phone
/// number is not among them.
pub open spec fn user_rules(p: UserParams) -> Seq<(Field, Seq<char>)> {
    rule(Field::Name, p.name@, Some(1), Some(16), "Name length must be between 1 and 16"@)
        + rule(
        Field::Account,
        p.account@,
        Some(1),
        Some(16),
        "Account length must be between 1 and 16"@,
    ) + rule(Field::Password, p.password@, None, Some(16), "Password length must be between 6 and 16"@)
}

fn check_length(
    out: &mut Vec<LengthViolation>,
    field: Field,
    text: &str,
    min: Option<u64>,
    max: Option<u64>,
    message: &str,
)
    ensures
        violation_views(final(out)@) == violation_views(old(out)@) + rule(
            field,
            text@,
            match min {
                Some(m) => Some(m as nat),
                None => None,
            },
            match max {
                Some(m) => Some(m as nat),
                None => None,
            },
            message@,
        ),
{
    let n: usize = text.unicode_len();
    let n64: u64 = n as u64;
    let too_short = match min {
        Some(m) => n64 < m,
        None => false,
    };
    let too_long = match max {
        Some(m) => n64 > m,
        None => false,
    };
    let ghost before = out@;
    if too_short || too_long {
        out.push(LengthViolation { field, message: String::from_str(message) });
        assert(violation_views(out@) =~= violation_views(before).push(
            (field, message@),
        ));
    }
    assert(violation_views(out@) =~= violation_views(before) + rule(
        field,
        text@,
        match min {
            Some(m) => Some(m as nat),
            None => None,
        },
        match max {
            Some(m) => Some(m as nat),
            None => None,
        },
        message@,
    ));
}

/// The length rules a login body breaks.
pub fn login_violations(p: &LoginParams) -> (r: Vec<LengthViolation>)
    ensures
        violation_views(r@) == login_rules(*p),
        distinct_fields(r@),
        (exists|i: int| 0 <= i < r@.len() && (#[trigger] r@[i]).field == Field::Account) <==> !(3
            <= p.account@.len() && p.account@.len() <= 16),
        forall|i: int|
            0 <= i < r@.len() && (#[trigger] r@[i]).field == Field::Account ==> r@[i].message@
                == "Account length must be between 3 and 16 characters"@,
        (exists|i: int| 0 <= i < r@.len() && (#[trigger] r@[i]).field == Field::Password) <==> !(6
            <= p.password@.len() && p.password@.len() <= 16),
        forall|i: int|
            0 <= i < r@.len() && (#[trigger] r@[i]).field == Field::Password ==> r@[i].message@
                == "Password length must be between 6 and 16 characters"@,
        forall|i: int| 0 <= i < r@.len() ==> (#[trigger] r@[i]).field != Field::Name,
{
    let mut out: Vec<LengthViolation> = Vec::new();
    assert(violation_views(out@) =~= seq![]);
    check_length(
        &mut out,
        Field::Account,
        p.account.as_str(),
        Some(3),
        Some(16),
        "Account length must be between 3 and 16 characters",
    );
    check_length(
        &mut out,
        Field::Password,
        p.password.as_str(),
        Some(6),
        Some(16),
        "Password length must be between 6 and 16 characters",
    );
    assert(violation_views(out@) =~= login_rules(*p));
    proof {
        let a = rule(Field::Account, p.account@, Some(3), Some(16),
            "Account length must be between 3 and 16 characters"@);
        let b = rule(Field::Password, p.password@, Some(6), Some(16),
            "Password length must be between 6 and 16 characters"@);
        lemma_concat_ascending(a, b, 2);
        lemma_ascending_distinct(out@);
        let ma = "Account length must be between 3 and 16 characters"@;
        let mb = "Password length must be between 6 and 16 characters"@;
        lemma_concat_fields(a, b, Field::Account, ma);
        lemma_concat_fields(a, b, Field::Password, mb);
        lemma_concat_fields(a, b, Field::Name, seq![]);
        lemma_rule_fields(Field::Account, p.account@, Some(3), Some(16), ma, Field::Account, ma);
        lemma_rule_fields(Field::Account, p.account@, Some(3), Some(16), ma, Field::Password, mb);
        lemma_rule_fields(Field::Account, p.account@, Some(3), Some(16), ma, Field::Name, seq![]);
        lemma_rule_fields(Field::Password, p.password@, Some(6), Some(16), mb, Field::Account, ma);
        lemma_rule_fields(Field::Password, p.password@, Some(6), Some(16), mb, Field::Password, mb);
        lemma_rule_fields(Field::Password, p.password@, Some(6), Some(16), mb, Field::Name, seq![]);
        lemma_views_fields(out@, Field::Account, ma);
        lemma_views_fields(out@, Field::Password, mb);
        lemma_views_fields(out@, Field::Name, seq![]);
        if exists|i: int| 0 <= i < out@.len() && (#[trigger] out@[i]).field == Field::Name {
            assert(has_field(violation_views(out@), Field::Name));
        }
    }
    out
}

/// The length rules a user body breaks.
pub fn user_violations(p: &UserParams) -> (r: Vec<LengthViolation>)
    ensures
        violation_views(r@) == user_rules(*p),
        distinct_fields(r@),
        (exists|i: int| 0 <= i < r@.len() && (#[trigger] r@[i]).field == Field::Name) <==> !(1
            <= p.name@.len() && p.name@.len() <= 16),
        forall|i: int|
            0 <= i < r@.len() && (#[trigger] r@[i]).field == Field::Name ==> r@[i].message@
                == "Name length must be between 1 and 16"@,
        (exists|i: int| 0 <= i < r@.len() && (#[trigger] r@[i]).field == Field::Account) <==> !(1
            <= p.account@.len() && p.account@.len() <= 16),
        forall|i: int|
            0 <= i < r@.len() && (#[trigger] r@[i]).field == Field::Account ==> r@[i].message@
                == "Account length must be between 1 and 16"@,
        (exists|i: int| 0 <= i < r@.len() && (#[trigger] r@[i]).field == Field::Password) <==> p.password@.len() > 16,
        forall|i: int|
            0 <= i < r@.len() && (#[trigger] r@[i]).field == Field::Password ==> r@[i].message@
                == "Password length must be between 6 and 16"@,
{
    let mut out: Vec<LengthViolation> = Vec::new();
    assert(violation_views(out@) =~= seq![]);
    check_length(
        &mut out,
        Field::Name,
        p.name.as_str(),
        Some(1),
        Some(16),
        "Name length must be between 1 and 16",
    );
    check_length(
        &mut out,
        Field::Account,
        p.account.as_str(),
        Some(1),
        Some(16),
        "Account length must be between 1 and 16",
    );
    check_length(
        &mut out,
        Field::Password,
        p.password.as_str(),
        None,
        Some(16),
        "Password length must be between 6 and 16",
    );
    assert(violation_views(out@) =~= user_rules(*p));
    proof {
        let a = rule(Field::Name, p.name@, Some(1), Some(16), "Name length must be between 1 and 16"@);
        let b = rule(Field::Account, p.account@, Some(1), Some(16),
            "Account length must be between 1 and 16"@);
        let c = rule(Field::Password, p.password@, None, Some(16),
            "Password length must be between 6 and 16"@);
        lemma_concat_ascending(a, b, 1);
        lemma_concat_ascending(a + b, c, 2);
        lemma_ascending_distinct(out@);
        let ma = "Name length must be between 1 and 16"@;
        let mb = "Account length must be between 1 and 16"@;
        let mc = "Password length must be between 6 and 16"@;
        lemma_concat_fields(a, b, Field::Name, ma);
        lemma_concat_fields(a, b, Field::Account, mb);
        lemma_concat_fields(a, b, Field::Password, mc);
        lemma_concat_fields(a + b, c, Field::Name, ma);
        lemma_concat_fields(a + b, c, Field::Account, mb);
        lemma_concat_fields(a + b, c, Field::Password, mc);
        lemma_rule_fields(Field::Name, p.name@, Some(1), Some(16), ma, Field::Name, ma);
        lemma_rule_fields(Field::Name, p.name@, Some(1), Some(16), ma, Field::Account, mb);
        lemma_rule_fields(Field::Name, p.name@, Some(1), Some(16), ma, Field::Password, mc);
        lemma_rule_fields(Field::Account, p.account@, Some(1), Some(16), mb, Field::Name, ma);
        lemma_rule_fields(Field::Account, p.account@, Some(1), Some(16), mb, Field::Account, mb);
        lemma_rule_fields(Field::Account, p.account@, Some(1), Some(16), mb, Field::Password, mc);
        lemma_rule_fields(Field::Password, p.password@, None, Some(16), mc, Field::Name, ma);
        lemma_rule_fields(Field::Password, p.password@, None, Some(16), mc, Field::Account, mb);
        lemma_rule_fields(Field::Password, p.password@, None, Some(16), mc, Field::Password, mc);
        lemma_views_fields(out@, Field::Name, ma);
        lemma_views_fields(out@, Field::Account, mb);
        lemma_views_fields(out@, Field::Password, mc);
    }
    out
}

/// Lines joined by newlines.
pub open spec fn join_lines(lines: Seq<Seq<char>>) -> Seq<char>
    decreases lines.len(),
{
    if lines.len() == 0 {
        seq![]
    } else if lines.len() == 1 {
        lines[0]
    } else {
        join_lines(lines.drop_last()) + "\n"@ + lines.last()
    }
}

/// Whether the text is the given lines joined by newlines, in some order.
pub open spec fn lines_in_some_order(text: Seq<char>, lines: Seq<Seq<char>>) -> bool {
    exists|ls: Seq<Seq<char>>| ls.to_multiset() == lines.to_multiset() && text == join_lines(ls)
}

/// The line `field: message` of each entry.
pub open spec fn entry_lines(entries: Seq<(&'static str, String)>) -> Seq<Seq<char>> {
    Seq::new(entries.len(), |i: int| entries[i].0@ + ": "@ + entries[i].1@)
}

pub open spec fn distinct_names(entries: Seq<(&'static str, String)>) -> bool {
    forall|i: int, j: int|
        0 <= i < entries.len() && 0 <= j < entries.len() && i != j ==> entries[i].0@
            != entries[j].0@
}

/// The text the `validator` crate gives (`Display` of `ValidationErrors`)
/// for `length` errors on the given fields, each with its message: one line
/// `field: message` per field, the lines joined by newlines. The lines come
/// in the order of the crate's hash map, which depends on the process, so
/// only the set of lines is stated.
#[verifier::external_body]
fn validator_text(entries: &Vec<(&'static str, String)>) -> (r: String)
    ensures
        distinct_names(entries@) ==> lines_in_some_order(r@, entry_lines(entries@)),
        entries@.len() == 1 ==> r@ == entries@[0].0@ + ": "@ + entries@[0].1@,
        entries@.len() == 2 && entries@[0].0@ != entries@[1].0@ ==> (r@ == entries@[0].0@ + ": "@
            + entries@[0].1@ + "\n"@ + entries@[1].0@ + ": "@ + entries@[1].1@ || r@
            == entries@[1].0@ + ": "@ + entries@[1].1@ + "\n"@ + entries@[0].0@ + ": "@
            + entries@[0].1@),
{
    let mut errors = ValidationErrors::new();
    for (field, message) in entries.iter() {
        errors.add(field, ValidationError::new("length").with_message(Cow::Owned(message.clone())));
    }
    errors.to_string()
}

/// The line `field: message` of each violation.
pub open spec fn violation_lines(v: Seq<LengthViolation>) -> Seq<Seq<char>> {
    Seq::new(v.len(), |i: int| field_name(v[i].field) + ": "@ + v[i].message@)
}

pub open spec fn distinct_fields(v: Seq<LengthViolation>) -> bool {
    forall|i: int, j: int| 0 <= i < v.len() && 0 <= j < v.len() && i != j ==> v[i].field != v[j].field
}

proof fn lemma_field_names_differ(a: Field, b: Field)
    requires
        a != b,
    ensures
        field_name(a) != field_name(b),
{
    reveal_strlit("name");
    reveal_strlit("account");
    reveal_strlit("password");
    assert(field_name(a).len() != field_name(b).len());
}

/// The refusal for a request body that breaks the given length rules,
/// `None` when it breaks none. Its text holds one line `field: message` per
/// broken rule (on distinct fields), joined by newlines in some order.
pub fn validation_refusal(violations: Vec<LengthViolation>) -> (r: Option<ApiError>)
    ensures
        r is None <==> violations@.len() == 0,
        r matches Some(e) ==> e is Validation,
        violations@.len() == 1 ==> (r matches Some(e) && (e matches ApiError::Validation(m) && m@
            == field_name(violations@[0].field) + ": "@ + violations@[0].message@)),
        violations@.len() == 2 && violations@[0].field != violations@[1].field ==> (r matches Some(e)
            && (e matches ApiError::Validation(m) && (m@ == field_name(violations@[0].field) + ": "@
            + violations@[0].message@ + "\n"@ + field_name(violations@[1].field) + ": "@
            + violations@[1].message@ || m@ == field_name(violations@[1].field) + ": "@
            + violations@[1].message@ + "\n"@ + field_name(violations@[0].field) + ": "@
            + violations@[0].message@))),
        distinct_fields(violations@) && violations@.len() > 0 ==> (r matches Some(e) && (e matches ApiError::Validation(m)
            && lines_in_some_order(m@, violation_lines(violations@)))),
{
    if violations.len() == 0 {
        return None;
    }
    let mut entries: Vec<(&'static str, String)> = Vec::new();
    let mut i: usize = 0;
    while i < violations.len()
        invariant
            i <= violations@.len(),
            entries@.len() == i,
            forall|k: int|
                0 <= k < i ==> (#[trigger] entries@[k]).0@ == field_name(violations@[k].field)
                    && entries@[k].1@ == violations@[k].message@,
        decreases violations@.len() - i,
    {
        let name = violations[i].field.name();
        let message = violations[i].message.clone();
        entries.push((name, message));
        i = i + 1;
    }
    proof {
        assert(entry_lines(entries@) =~= violation_lines(violations@));
        if distinct_fields(violations@) {
            assert forall|a: int, b: int|
                0 <= a < entries@.len() && 0 <= b < entries@.len() && a != b implies entries@[a].0@
                != entries@[b].0@ by {
                lemma_field_names_differ(violations@[a].field, violations@[b].field);
            }
        }
        if violations@.len() == 2 && violations@[0].field != violations@[1].field {
            lemma_field_names_differ(violations@[0].field, violations@[1].field);
        }
    }
    Some(ApiError::Validation(validator_text(&entries)))
}

} // verus!
