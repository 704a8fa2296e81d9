//! The contact form and the scope wizard: their checks and the mail they
//! send.
use vstd::prelude::*;

use crate::text::{chars_of, contains_char, push_str, string_of, trim_chars, trimmed};

verus! {

/// A submitted contact or scope-wizard form (absent fields are empty).
#[derive(Clone, Debug)]
pub struct ContactForm {
    pub name: String,
    pub email: String,
    pub company: String,
    pub subject: String,
    pub message: String,
    pub phone: String,
    pub details: String,
    pub wizard_approach: String,
    pub wizard_scope: String,
    pub wizard_duration: String,
    pub wizard_estimate: String,
}

/// Why a form was sent back.
#[derive(Clone, Copy, Debug, PartialEq, Eq, Structural)]
pub enum ContactError {
    /// The name or the e-mail address is blank.
    MissingFields,
    /// The e-mail address lacks an `@` or a `.`.
    InvalidEmail,
}

/// The text shown for each error.
pub open spec fn contact_error_text(e: ContactError) -> Seq<char> {
    match e {
        ContactError::MissingFields => "Name and email are required."@,
        ContactError::InvalidEmail => "Please enter a valid email address."@,
    }
}

impl ContactError {
    /// The message shown on the form.
    pub fn message(&self) -> (r: &'static str)
        ensures
            r@ == contact_error_text(*self),
    {
        match self {
            ContactError::MissingFields => "Name and email are required.",
            ContactError::InvalidEmail => "Please enter a valid email address.",
        }
    }
}

/// The verdict on a form: blank name or address first, then an address
/// without `@` or `.` (both judged on the trimmed texts).
pub open spec fn contact_verdict(name: Seq<char>, email: Seq<char>) -> Result<(), ContactError> {
    if trimmed(name).len() == 0 || trimmed(email).len() == 0 {
        Err(ContactError::MissingFields)
    } else if !trimmed(email).contains('@') || !trimmed(email).contains('.') {
        Err(ContactError::InvalidEmail)
    } else {
        Ok(())
    }
}

/// A form is accepted only with a name and an e-mail address that, once
/// trimmed, holds both an `@` and a `.`; a form with a name and an address
/// lacking either is refused as an invalid address.
pub proof fn lemma_contact_email_checked(name: Seq<char>, email: Seq<char>)
    ensures
        contact_verdict(name, email) is Ok ==> trimmed(name).len() > 0 && trimmed(email).contains(
            '@',
        ) && trimmed(email).contains('.'),
        trimmed(name).len() > 0 && trimmed(email).len() > 0 && (!trimmed(email).contains('@')
            || !trimmed(email).contains('.')) ==> contact_verdict(name, email) == Err::<
            (),
            ContactError,
        >(ContactError::InvalidEmail),
        trimmed(name).len() == 0 || trimmed(email).len() == 0 ==> contact_verdict(name, email)
            == Err::<(), ContactError>(ContactError::MissingFields),
{
}

/// Checks a submitted form.
pub fn check_contact(form: &ContactForm) -> (r: Result<(), ContactError>)
    ensures
        r == contact_verdict(form.name@, form.email@),
        r is Ok ==> trimmed(form.name@).len() > 0 && trimmed(form.email@).contains('@')
            && trimmed(form.email@).contains('.'),
        trimmed(form.name@).len() > 0 && trimmed(form.email@).len() > 0 && (!trimmed(
            form.email@,
        ).contains('@') || !trimmed(form.email@).contains('.')) ==> r == Err::<(), ContactError>(
            ContactError::InvalidEmail,
        ),
{
    proof {
        lemma_contact_email_checked(form.name@, form.email@);
    }
    let name = trim_chars(&chars_of(form.name.as_str()));
    let email = trim_chars(&chars_of(form.email.as_str()));
    if name.len() == 0 || email.len() == 0 {
        return Err(ContactError::MissingFields);
    }
    if !contains_char(&email, '@') || !contains_char(&email, '.') {
        return Err(ContactError::InvalidEmail);
    }
    Ok(())
}

/// The mail a form sends.
#[derive(Clone, Debug)]
pub struct ContactMessage {
    /// Whether the form came from the scope wizard.
    pub is_scope: bool,
    pub subject: String,
    pub text: String,
    pub html: String,
    pub reply_to: String,
}

/// The scope wizard sends its forms with this subject.
pub open spec fn is_scope_form(f: ContactForm) -> bool {
    f.subject@ == "scope-wizard"@
}

/// The subject of the mail.
pub open spec fn contact_subject(f: ContactForm) -> Seq<char> {
    if is_scope_form(f) {
        "[GetHacked] Scope request from "@ + f.name@ + " ("@ + f.email@ + ")"@
    } else {
        "[GetHacked] Contact: "@ + f.subject@ + " \u{2014} "@ + f.name@
    }
}

/// The plain-text body of the mail.
pub open spec fn contact_body(f: ContactForm) -> Seq<char> {
    if is_scope_form(f) {
        "Name: "@ + f.name@ + "\nEmail: "@ + f.email@ + "\nCompany: "@ + f.company@ + "\nPhone: "@
            + f.phone@ + "\n\n--- Scope Wizard ---\nApproach: "@ + f.wizard_approach@
            + "\nTargets: "@ + f.wizard_scope@ + "\nDuration: "@ + f.wizard_duration@
            + " man-days\nEstimate: EUR "@ + f.wizard_estimate@ + "\n\n--- Details ---\n"@
            + f.details@
    } else {
        "Name: "@ + f.name@ + "\nEmail: "@ + f.email@ + "\nCompany: "@ + f.company@ + "\nSubject: "@
            + f.subject@ + "\n\n--- Message ---\n"@ + f.message@
    }
}

/// A text with every line break written as `<br>`.
pub open spec fn with_breaks(s: Seq<char>) -> Seq<char>
    decreases s.len(),
{
    if s.len() == 0 {
        seq![]
    } else {
        with_breaks(s.drop_last()) + if s.last() == '\n' {
            "<br>"@
        } else {
            seq![s.last()]
        }
    }
}

/// Writes every line break of `s` as `<br>`.
pub fn break_lines(s: &str) -> (r: String)
    ensures
        r@ == with_breaks(s@),
{
    let cs = chars_of(s);
    let mut v: Vec<char> = Vec::new();
    let n = cs.len();
    assert(cs@.take(0) =~= Seq::<char>::empty());
    for i in 0..n
        invariant
            n == cs@.len(),
            v@ == with_breaks(cs@.take(i as int)),
    {
        assert(cs@.take(i + 1).drop_last() =~= cs@.take(i as int));
        assert(cs@.take(i + 1).last() == cs@[i as int]);
        if cs[i] == '\n' {
            push_str(&mut v, "<br>");
        } else {
            let ghost before = v@;
            v.push(cs[i]);
            assert(v@ =~= before + seq![cs@[i as int]]);
        }
    }
    assert(cs@.take(n as int) =~= cs@);
    string_of(&v)
}

/// Composes the mail a checked form sends.
pub fn contact_message(f: &ContactForm) -> (r: ContactMessage)
    ensures
        r.is_scope == is_scope_form(*f),
        r.subject@ == contact_subject(*f),
        r.text@ == contact_body(*f),
        r.html@ == with_breaks(contact_body(*f)),
        r.reply_to@ == f.email@,
{
    let subj = chars_of(f.subject.as_str());
    let scope_tag = chars_of("scope-wizard");
    let is_scope = crate::text::seq_eq(&subj, &scope_tag);
    let mut s: Vec<char> = Vec::new();
    let mut b: Vec<char> = Vec::new();
    if is_scope {
        push_str(&mut s, "[GetHacked] Scope request from ");
        push_str(&mut s, f.name.as_str());
        push_str(&mut s, " (");
        push_str(&mut s, f.email.as_str());
        push_str(&mut s, ")");
        push_str(&mut b, "Name: ");
        push_str(&mut b, f.name.as_str());
        push_str(&mut b, "\nEmail: ");
        push_str(&mut b, f.email.as_str());
        push_str(&mut b, "\nCompany: ");
        push_str(&mut b, f.company.as_str());
        push_str(&mut b, "\nPhone: ");
        push_str(&mut b, f.phone.as_str());
        push_str(&mut b, "\n\n--- Scope Wizard ---\nApproach: ");
        push_str(&mut b, f.wizard_approach.as_str());
        push_str(&mut b, "\nTargets: ");
        push_str(&mut b, f.wizard_scope.as_str());
        push_str(&mut b, "\nDuration: ");
        push_str(&mut b, f.wizard_duration.as_str());
        push_str(&mut b, " man-days\nEstimate: EUR ");
        push_str(&mut b, f.wizard_estimate.as_str());
        push_str(&mut b, "\n\n--- Details ---\n");
        push_str(&mut b, f.details.as_str());
    } else {
        push_str(&mut s, "[GetHacked] Contact: ");
        push_str(&mut s, f.subject.as_str());
        push_str(&mut s, " \u{2014} ");
        push_str(&mut s, f.name.as_str());
        push_str(&mut b, "Name: ");
        push_str(&mut b, f.name.as_str());
        push_str(&mut b, "\nEmail: ");
        push_str(&mut b, f.email.as_str());
        push_str(&mut b, "\nCompany: ");
        push_str(&mut b, f.company.as_str());
        push_str(&mut b, "\nSubject: ");
        push_str(&mut b, f.subject.as_str());
        push_str(&mut b, "\n\n--- Message ---\n");
        push_str(&mut b, f.message.as_str());
    }
    assert(s@ =~= contact_subject(*f));
    assert(b@ =~= contact_body(*f));
    let text = string_of(&b);
    let html = break_lines(text.as_str());
    ContactMessage { is_scope, subject: string_of(&s), text, html, reply_to: f.email.clone() }
}

/// A setting's value, or the default when it is not set.
pub fn setting_or(value: Option<String>, default: &str) -> (r: String)
    ensures
        r@ == (match value {
            Some(v) => v@,
            None => default@,
        }),
{
    match value {
        Some(v) => v,
        None => default.to_owned(),
    }
}

/// Where contact mail goes unless the `contact_email` setting says
/// otherwise.
pub fn default_contact_recipient() -> (r: &'static str)
    ensures
        r@ == "hello@gethacked.eu"@,
{
    "hello@gethacked.eu"
}

/// The sender of contact mail unless the `mailer_from` setting says
/// otherwise.
pub fn default_mail_sender() -> (r: &'static str)
    ensures
        r@ == "noreply@gethacked.eu"@,
{
    "noreply@gethacked.eu"
}

} // verus!
