//! Rendering the countdown: the timer text, the per-kind labels, and the
//! display template with its placeholders filled in.

use vstd::prelude::*;

use crate::session::{PomodoroSession, SessionKind};
use dynfmt::Format;

verus! {

/// The character for one decimal digit.
pub open spec fn digit_char(d: nat) -> char {
    if d == 0 {
        '0'
    } else if d == 1 {
        '1'
    } else if d == 2 {
        '2'
    } else if d == 3 {
        '3'
    } else if d == 4 {
        '4'
    } else if d == 5 {
        '5'
    } else if d == 6 {
        '6'
    } else if d == 7 {
        '7'
    } else if d == 8 {
        '8'
    } else {
        '9'
    }
}

/// The decimal representation of a number, most significant digit first,
/// without leading zeros (a single `'0'` for zero itself).
pub open spec fn decimal_rep(n: nat) -> Seq<char>
    decreases n,
{
    if n < 10 {
        seq![digit_char(n)]
    } else {
        decimal_rep(n / 10).push(digit_char(n % 10))
    }
}

/// The decimal representation padded with zeros to at least two digits.
pub open spec fn padded2(n: nat) -> Seq<char> {
    if n < 10 {
        seq!['0'] + decimal_rep(n)
    } else {
        decimal_rep(n)
    }
}

/// The decimal representation padded with zeros to at least three digits.
pub open spec fn padded3(n: nat) -> Seq<char> {
    if n < 100 {
        seq!['0'] + padded2(n)
    } else {
        decimal_rep(n)
    }
}

/// The countdown text for a time span of `ms` milliseconds:
/// `HH:MM:SS.mmm`, with hours unbounded and zero-padded to at least two
/// digits, minutes and seconds to two, and milliseconds to three.
pub open spec fn timer_text(ms: nat) -> Seq<char> {
    padded2(ms / 1000 / 3600) + seq![':'] + padded2((ms / 1000 / 60) % 60) + seq![':']
        + padded2(ms / 1000 % 60) + seq!['.'] + padded3(ms % 1000)
}

/// A text with every `'\n'` followed by an extra `'\r'`, as a terminal in
/// raw mode needs it to move back to the start of the line.
pub open spec fn crlf_line_breaks(text: Seq<char>) -> Seq<char>
    decreases text.len(),
{
    if text.len() == 0 {
        Seq::empty()
    } else if text[0] == '\n' {
        seq!['\n', '\r'] + crlf_line_breaks(text.drop_first())
    } else {
        seq![text[0]] + crlf_line_breaks(text.drop_first())
    }
}

/// Relies on `String::push`: appends the given character to the end of the
/// string.
#[verifier::external_body]
fn push_char(out: &mut String, c: char)
    ensures
        final(out)@ == old(out)@.push(c),
{
    out.push(c);
}

/// The character for one decimal digit.
fn digit_char_of(d: u64) -> (c: char)
    requires
        d < 10,
    ensures
        c == digit_char(d as nat),
{
    if d == 0 {
        '0'
    } else if d == 1 {
        '1'
    } else if d == 2 {
        '2'
    } else if d == 3 {
        '3'
    } else if d == 4 {
        '4'
    } else if d == 5 {
        '5'
    } else if d == 6 {
        '6'
    } else if d == 7 {
        '7'
    } else if d == 8 {
        '8'
    } else {
        '9'
    }
}

/// Appends the decimal representation of `n` to `out`.
fn push_decimal(out: &mut String, n: u64)
    ensures
        final(out)@ == old(out)@ + decimal_rep(n as nat),
    decreases n,
{
    if n >= 10 {
        push_decimal(out, n / 10);
        push_char(out, digit_char_of(n % 10));
        proof {
            assert(out@ =~= old(out)@ + decimal_rep(n as nat));
        }
    } else {
        push_char(out, digit_char_of(n));
        proof {
            assert(out@ =~= old(out)@ + decimal_rep(n as nat));
        }
    }
}

/// The decimal representation of `n`, as a string.
pub fn decimal_string(n: u64) -> (text: String)
    ensures
        text@ == decimal_rep(n as nat),
{
    let mut text = String::new();
    push_decimal(&mut text, n);
    proof {
        assert(text@ =~= decimal_rep(n as nat));
    }
    text
}

/// Appends the decimal representation of `n`, zero-padded to at least two
/// digits, to `out`.
fn push_padded2(out: &mut String, n: u64)
    ensures
        final(out)@ == old(out)@ + padded2(n as nat),
{
    if n < 10 {
        push_char(out, '0');
    }
    push_decimal(out, n);
    proof {
        assert(out@ =~= old(out)@ + padded2(n as nat));
    }
}

/// Appends the decimal representation of `n`, zero-padded to at least three
/// digits, to `out`.
fn push_padded3(out: &mut String, n: u64)
    ensures
        final(out)@ == old(out)@ + padded3(n as nat),
{
    if n < 100 {
        push_char(out, '0');
    }
    push_padded2(out, n);
    proof {
        assert(out@ =~= old(out)@ + padded3(n as nat));
    }
}

/// Doubles every line break of `text` into `"\n\r"`, as the raw-mode
/// terminal display needs it.
pub fn carriage_return_lines(text: &str) -> (out: String)
    ensures
        out@ == crlf_line_breaks(text@),
{
    let len = text.unicode_len();
    let mut out = String::new();
    let mut i: usize = 0;
    proof {
        assert(text@.skip(0) =~= text@);
    }
    while i < len
        invariant
            len == text@.len(),
            i <= len,
            crlf_line_breaks(text@) =~= out@ + crlf_line_breaks(text@.skip(i as int)),
        decreases len - i,
    {
        let c = text.get_char(i);
        push_char(&mut out, c);
        if c == '\n' {
            push_char(&mut out, '\r');
        }
        proof {
            assert(text@.skip(i as int).drop_first() =~= text@.skip(i + 1));
        }
        i = i + 1;
    }
    proof {
        assert(crlf_line_breaks(text@.skip(len as int)) =~= Seq::<char>::empty());
        assert(out@ =~= crlf_line_breaks(text@));
    }
    out
}

/// What `dynfmt::SimpleCurlyFormat` makes of a display template and the
/// three values at hand for its placeholders.
pub uninterp spec fn curly_format_of(
    template: Seq<char>,
    session_kind: Seq<char>,
    session_number: Seq<char>,
    timer: Seq<char>,
) -> Seq<char>;

/// Whether `dynfmt::SimpleCurlyFormat` accepts a display template whose
/// placeholder values are registered under the three names `session_kind`,
/// `session_number` and `timer`: it does exactly when every placeholder of
/// the template is named and carries one of those names. Acceptance depends
/// on the template alone, not on the values.
pub uninterp spec fn curly_format_accepts(template: Seq<char>) -> bool;

/// Relies on `dynfmt::SimpleCurlyFormat::format`: replaces each named
/// `{...}` placeholder of the template with the value registered under that
/// name; the result is a function of the template and the values alone.
/// The call succeeds or fails on the template alone — the three values are
/// plain strings, which the formatter writes as they are — so `None` comes
/// exactly on the templates the formatter rejects (a placeholder that is
/// positional, unnamed, or named anything but the three names fixed here).
#[verifier::external_body]
fn curly_format(
    template: &str,
    session_kind: &str,
    session_number: &str,
    timer: &str,
) -> (result: Option<String>)
    ensures
        result is Some <==> curly_format_accepts(template@),
        result matches Some(text) ==> text@ == curly_format_of(
            template@,
            session_kind@,
            session_number@,
            timer@,
        ),
{
    let args = std::collections::HashMap::from([
        ("session_kind", session_kind),
        ("session_number", session_number),
        ("timer", timer),
    ]);
    match dynfmt::SimpleCurlyFormat.format(template, &args) {
        Ok(text) => Some(text.into_owned()),
        Err(_) => None,
    }
}

/// The templates and labels the countdown display is rendered from.
#[derive(Debug)]
pub struct PomodoroDisplayFormatter {
    pub active_display: String,
    pub paused_display: String,
    pub work_session_label: String,
    pub break_session_label: String,
    pub long_break_session_label: String,
}

impl PomodoroDisplayFormatter {
    /// The label of a session of the given kind.
    pub open spec fn spec_label_for(self, kind: SessionKind) -> Seq<char> {
        match kind {
            SessionKind::Work => self.work_session_label@,
            SessionKind::Break => self.break_session_label@,
            SessionKind::LongBreak => self.long_break_session_label@,
        }
    }

    /// The template in use: the paused one while paused, the active one
    /// otherwise.
    pub open spec fn spec_template_for(self, paused: bool) -> Seq<char> {
        if paused {
            self.paused_display@
        } else {
            self.active_display@
        }
    }

    /// The label of a session of the given kind.
    pub fn session_label_for(&self, session_kind: SessionKind) -> (label: &str)
        ensures
            label@ == self.spec_label_for(session_kind),
    {
        match session_kind {
            SessionKind::Work => self.work_session_label.as_str(),
            SessionKind::Break => self.break_session_label.as_str(),
            SessionKind::LongBreak => self.long_break_session_label.as_str(),
        }
    }

    /// The countdown text for a remaining time of `timer_ms` milliseconds:
    /// `HH:MM:SS.mmm`.
    pub fn format_timer(&self, timer_ms: u64) -> (text: String)
        ensures
            text@ == timer_text(timer_ms as nat),
    {
        let total_secs = timer_ms / 1000;
        let mut text = String::new();
        push_padded2(&mut text, total_secs / 3600);
        push_char(&mut text, ':');
        push_padded2(&mut text, (total_secs / 60) % 60);
        push_char(&mut text, ':');
        push_padded2(&mut text, total_secs % 60);
        push_char(&mut text, '.');
        push_padded3(&mut text, timer_ms % 1000);
        proof {
            assert(text@ =~= timer_text(timer_ms as nat));
        }
        text
    }

    /// The full text block of the countdown display: the template for the
    /// current pause state, with the kind label, the session number and the
    /// remaining time substituted in, and every line break doubled to
    /// `"\n\r"` for the raw-mode terminal. A text comes back exactly when
    /// the formatter accepts the template in use; `None` only on a template
    /// it rejects.
    pub fn format_session(&self, session: &PomodoroSession, paused: bool) -> (text: Option<String>)
        requires
            session.elapsed_ms <= session.duration_ms,
        ensures
            text is Some <==> curly_format_accepts(self.spec_template_for(paused)),
            text matches Some(t) ==> t@ == crlf_line_breaks(curly_format_of(
                self.spec_template_for(paused),
                self.spec_label_for(session.kind),
                decimal_rep(session.index as nat),
                timer_text((session.duration_ms - session.elapsed_ms) as nat),
            )),
    {
        let label = self.session_label_for(session.kind);
        let number = decimal_string(session.index as u64);
        let timer = self.format_timer(session.remaining_time());
        let template = if paused {
            self.paused_display.as_str()
        } else {
            self.active_display.as_str()
        };
        match curly_format(template, label, number.as_str(), timer.as_str()) {
            Some(filled) => Some(carriage_return_lines(filled.as_str())),
            None => None,
        }
    }
}

} // verus!
