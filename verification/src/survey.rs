//! Surveys: the wire shape a client submits, the validated shape the
//! handlers work on, and the persisted shape whose content is a
//! single JSON string.
//!
//! Two survey shapes circulated historically: a free-form map of
//! question to answer, and a list of question/answer pairs. The list
//! of pairs is the canonical shape here: it keeps the order the
//! client chose and serializes deterministically. An answer may be
//! absent (the question was shown and left unanswered).

use vstd::prelude::*;
use crate::LiftrightError;
use crate::device::{DeviceId, parse_device_id, spec_is_uuid, spec_uuid_value};
use crate::strutil::{chars_to_string, hex_char, spec_hex_char};

verus! {

/// A timezone-aware instant, kept as whole milliseconds since the
/// Unix epoch in UTC.
#[derive(Debug, Clone, Copy, PartialEq, Eq, Structural)]
pub struct Timestamp {
    /// Milliseconds since the Unix epoch, UTC.
    pub epoch_ms: i64,
}

/// One question of a survey with its answer; `None` means the
/// question was left unanswered.
#[derive(Debug, PartialEq)]
pub struct SurveyData {
    /// The question as shown to the user.
    pub question: String,
    /// The answer given, if any.
    pub answer: Option<String>,
}

/// A survey as submitted on the wire, before validation: the device
/// identifier is still raw text.
#[derive(Debug, PartialEq)]
pub struct IncomingSurvey {
    /// The submitting device's identifier, as text.
    pub device_id: String,
    /// When the survey was submitted, if the client reported it.
    pub submitted: Option<Timestamp>,
    /// The questions with their answers.
    pub survey_data: Vec<SurveyData>,
}

/// A validated survey: the device identifier parsed, the content kept
/// as the client sent it.
#[derive(Debug, PartialEq)]
pub struct Survey {
    /// The submitting device.
    pub device_id: DeviceId,
    /// When the survey was submitted, if the client reported it.
    pub submitted: Option<Timestamp>,
    /// The questions with their answers.
    pub survey_data: Vec<SurveyData>,
}

/// The persisted form of a survey: the content is serialized into a
/// single JSON string, built by a total function, so persisting a
/// survey never fails outwardly.
#[derive(Debug, PartialEq)]
pub struct SurveyRecord {
    /// The submitting device.
    pub device_id: DeviceId,
    /// When the survey was submitted, if the client reported it.
    pub submitted: Option<Timestamp>,
    /// The survey content as one JSON string: an object of the
    /// questions in order, each mapped to its answer or to `null`.
    pub content: String,
}

/// The note a stored content string would carry if serialization
/// could fail. Serialization here is total, and
/// `lemma_content_never_failure_note` shows no stored content ever
/// begins with this note, so stored surveys are never mistaken for
/// the failure case.
pub open spec fn spec_serialization_failure_note() -> Seq<char> {
    "could not serialize survey content"@
}

/// How one character appears inside a JSON string literal: quote and
/// backslash are escaped, control characters take the `\u00..` form,
/// everything else stands as itself.
pub open spec fn spec_json_escape_char(c: char) -> Seq<char> {
    if c == '"' {
        seq!['\\', '"']
    } else if c == '\\' {
        seq!['\\', '\\']
    } else if (c as int) < 32 {
        seq!['\\', 'u', '0', '0', spec_hex_char((c as int) / 16), spec_hex_char((c as int) % 16)]
    } else {
        seq![c]
    }
}

/// A text with every character escaped for a JSON string literal.
pub open spec fn spec_json_escape(s: Seq<char>) -> Seq<char>
    decreases s.len(),
{
    if s.len() == 0 {
        Seq::<char>::empty()
    } else {
        spec_json_escape(s.drop_last()) + spec_json_escape_char(s.last())
    }
}

/// A JSON string literal: the escaped text between double quotes.
pub open spec fn spec_json_string(s: Seq<char>) -> Seq<char> {
    seq!['"'] + spec_json_escape(s) + seq!['"']
}

/// One member of the content object: the question mapped to its
/// answer, or to `null` when unanswered.
pub open spec fn spec_entry(d: SurveyData) -> Seq<char> {
    spec_json_string(d.question@) + seq![':'] + match d.answer {
        Some(a) => spec_json_string(a@),
        None => seq!['n', 'u', 'l', 'l'],
    }
}

/// The members of the content object, in order, separated by commas.
pub open spec fn spec_entries(s: Seq<SurveyData>) -> Seq<char>
    decreases s.len(),
{
    if s.len() == 0 {
        Seq::<char>::empty()
    } else if s.len() == 1 {
        spec_entry(s[0])
    } else {
        spec_entry(s[0]) + seq![','] + spec_entries(s.drop_first())
    }
}

/// The serialized survey content: one JSON object holding the
/// questions in order.
pub open spec fn spec_survey_content(s: Seq<SurveyData>) -> Seq<char> {
    seq!['{'] + spec_entries(s) + seq!['}']
}

fn push_escaped_char(c: char, out: &mut Vec<char>)
    ensures
        final(out)@ == old(out)@ + spec_json_escape_char(c),
{
    if c == '"' {
        out.push('\\');
        out.push('"');
        assert(out@ =~= old(out)@ + spec_json_escape_char(c));
    } else if c == '\\' {
        out.push('\\');
        out.push('\\');
        assert(out@ =~= old(out)@ + spec_json_escape_char(c));
    } else {
        let u = c as u32;
        if u < 32 {
            out.push('\\');
            out.push('u');
            out.push('0');
            out.push('0');
            out.push(hex_char(u / 16));
            out.push(hex_char(u % 16));
            assert(out@ =~= old(out)@ + spec_json_escape_char(c));
        } else {
            out.push(c);
            assert(out@ =~= old(out)@ + spec_json_escape_char(c));
        }
    }
}

fn push_escaped(s: &str, out: &mut Vec<char>)
    ensures
        final(out)@ == old(out)@ + spec_json_escape(s@),
{
    let ghost entry = out@;
    let len = s.unicode_len();
    let mut i: usize = 0;
    while i < len
        invariant
            i <= len,
            len == s@.len(),
            out@ == entry + spec_json_escape(s@.take(i as int)),
        decreases len - i,
    {
        let c = s.get_char(i);
        push_escaped_char(c, out);
        proof {
            assert(s@.take(i + 1 as int).drop_last() =~= s@.take(i as int));
            assert(s@.take(i + 1 as int).last() == s@[i as int]);
        }
        i += 1;
    }
    assert(s@.take(len as int) =~= s@);
}

fn push_json_string(s: &str, out: &mut Vec<char>)
    ensures
        final(out)@ == old(out)@ + spec_json_string(s@),
{
    out.push('"');
    push_escaped(s, out);
    out.push('"');
    assert(out@ =~= old(out)@ + spec_json_string(s@));
}

fn push_entry(d: &SurveyData, out: &mut Vec<char>)
    ensures
        final(out)@ == old(out)@ + spec_entry(*d),
{
    push_json_string(d.question.as_str(), out);
    out.push(':');
    match &d.answer {
        Some(a) => {
            push_json_string(a.as_str(), out);
        },
        None => {
            out.push('n');
            out.push('u');
            out.push('l');
            out.push('l');
        },
    }
    assert(out@ =~= old(out)@ + spec_entry(*d));
}

fn push_entries(data: &Vec<SurveyData>, i: usize, out: &mut Vec<char>)
    requires
        i < data@.len(),
    ensures
        final(out)@ == old(out)@ + spec_entries(data@.skip(i as int)),
    decreases data@.len() - i,
{
    let n = data.len();
    push_entry(&data[i], out);
    proof {
        assert(data@.skip(i as int)[0] == data@[i as int]);
    }
    if i + 1 < n {
        out.push(',');
        push_entries(data, i + 1, out);
        proof {
            assert(data@.skip(i as int).drop_first() =~= data@.skip(i + 1 as int));
            assert(out@ =~= old(out)@ + spec_entries(data@.skip(i as int)));
        }
    } else {
        assert(data@.skip(i as int).len() == 1);
        assert(out@ =~= old(out)@ + spec_entries(data@.skip(i as int)));
    }
}

/// Serializes survey content into its single JSON string. Total:
/// every survey serializes, and the result always starts with an
/// opening brace.
pub fn serialize_survey_content(data: &Vec<SurveyData>) -> (r: String)
    ensures
        r@ == spec_survey_content(data@),
{
    let mut out: Vec<char> = Vec::new();
    out.push('{');
    if data.len() > 0 {
        push_entries(data, 0, &mut out);
        proof {
            assert(data@.skip(0) =~= data@);
        }
    }
    out.push('}');
    assert(out@ =~= spec_survey_content(data@));
    chars_to_string(&out)
}

impl Survey {
    /// Validates a submitted survey. Succeeds exactly when the device
    /// identifier is a well-formed UUID; everything else is a
    /// validation error. Content and timestamp pass through unchanged.
    pub fn from_incoming(inc: IncomingSurvey) -> (r: Result<Survey, LiftrightError>)
        ensures
            r is Ok <==> spec_is_uuid(inc.device_id@),
            r matches Ok(s) ==> {
                &&& s.device_id.value as int == spec_uuid_value(inc.device_id@)
                &&& s.submitted == inc.submitted
                &&& s.survey_data == inc.survey_data
            },
            r is Err ==> r == Err::<Survey, LiftrightError>(LiftrightError::ValidationError),
    {
        match parse_device_id(inc.device_id.as_str()) {
            Some(device_id) => Ok(
                Survey { device_id, submitted: inc.submitted, survey_data: inc.survey_data },
            ),
            None => Err(LiftrightError::ValidationError),
        }
    }
}

impl SurveyRecord {
    /// Builds the persisted form of a survey. This conversion is
    /// total — serialization cannot fail, so no failure note is ever
    /// substituted — and the stored content is never empty.
    pub fn from_survey(survey: Survey) -> (r: SurveyRecord)
        ensures
            r.device_id == survey.device_id,
            r.submitted == survey.submitted,
            r.content@ == spec_survey_content(survey.survey_data@),
            r.content@.len() >= 2,
    {
        let content = serialize_survey_content(&survey.survey_data);
        SurveyRecord { device_id: survey.device_id, submitted: survey.submitted, content }
    }
}

/// Accepts a survey for storage. Survey persistence is intentionally
/// not wired to storage yet: every call reports that, and nothing is
/// written.
pub fn submit(data: &Survey) -> (r: Result<usize, LiftrightError>)
    ensures
        r == Err::<usize, LiftrightError>(LiftrightError::UnimplementedError),
{
    let _ = data;
    Err(LiftrightError::UnimplementedError)
}

/// Serialized survey content never begins with the serialization
/// failure note: content that was stored by a successful conversion
/// cannot be mistaken for a recorded failure. (An answer may quote
/// the note's words inside the object, but the stored string itself
/// always opens with a brace.)
pub proof fn lemma_content_never_failure_note(data: Seq<SurveyData>)
    ensures
        spec_survey_content(data).len() >= 2,
        !spec_serialization_failure_note().is_prefix_of(spec_survey_content(data)),
{
    reveal_strlit("could not serialize survey content");
    assert(spec_survey_content(data)[0] == '{');
    assert(spec_serialization_failure_note()[0] == 'c');
    if spec_serialization_failure_note().is_prefix_of(spec_survey_content(data)) {
        assert(spec_survey_content(data)[0] == spec_serialization_failure_note()[0]);
    }
}

} // verus!
