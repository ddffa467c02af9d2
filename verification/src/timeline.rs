//! Timeline identities, frame-rate metadata, timecode labels and ruler ticks.

use vstd::prelude::*;
use vstd::string::StringExecFns;

mod ruler;

pub use ruler::{
    RULER_FRAME_LIMIT, RULER_STEP_LIMIT, ceil_to_step, decade, display_tick, doubled_step,
    floor_to_step, is_first_fitting_doubling, lemma_nice_step_bounds, lemma_ruler_tick_labels, lemma_step_rounding,
    nice_frame_step, pow10, ruler_fits, ruler_steps,
    ruler_ticks_between_frames, subdivided_step, tick_count,
};

verus! {

/// Stable identity for a timeline surface.
#[derive(Debug, Clone, Copy, PartialEq, Eq, Hash, PartialOrd, Ord, Structural)]
pub struct TimelineId(u64);

impl View for TimelineId {
    type V = u64;

    closed spec fn view(&self) -> u64 {
        self.0
    }
}

impl TimelineId {
    /// Creates an ID from raw bits.
    pub fn from_raw(raw: u64) -> (id: Self)
        ensures
            id@ == raw,
    {
        TimelineId(raw)
    }

    /// Returns raw ID bits.
    pub fn raw(self) -> (raw: u64)
        ensures
            raw == self@,
    {
        self.0
    }
}

/// Stable identity for a timeline ruler surface.
#[derive(Debug, Clone, Copy, PartialEq, Eq, Hash, PartialOrd, Ord, Structural)]
pub struct TimelineRulerId(u64);

impl View for TimelineRulerId {
    type V = u64;

    closed spec fn view(&self) -> u64 {
        self.0
    }
}

impl TimelineRulerId {
    /// Creates an ID from raw bits.
    pub fn from_raw(raw: u64) -> (id: Self)
        ensures
            id@ == raw,
    {
        TimelineRulerId(raw)
    }

    /// Returns raw ID bits.
    pub fn raw(self) -> (raw: u64)
        ensures
            raw == self@,
    {
        self.0
    }
}

/// Stable identity for a timeline transport control.
#[derive(Debug, Clone, Copy, PartialEq, Eq, Hash, PartialOrd, Ord, Structural)]
pub struct TransportControlId(u64);

impl View for TransportControlId {
    type V = u64;

    closed spec fn view(&self) -> u64 {
        self.0
    }
}

impl TransportControlId {
    /// Creates an ID from raw bits.
    pub fn from_raw(raw: u64) -> (id: Self)
        ensures
            id@ == raw,
    {
        TransportControlId(raw)
    }

    /// Returns raw ID bits.
    pub fn raw(self) -> (raw: u64)
        ensures
            raw == self@,
    {
        self.0
    }
}

/// Integer frame position.
#[derive(Debug, Clone, Copy, PartialEq, Eq, Hash, PartialOrd, Ord, Structural)]
pub struct TimelineFrame(i64);

impl View for TimelineFrame {
    type V = i64;

    closed spec fn view(&self) -> i64 {
        self.0
    }
}

impl TimelineFrame {
    /// Creates a frame position from raw frame bits.
    pub fn from_raw(raw: i64) -> (frame: Self)
        ensures
            frame@ == raw,
    {
        TimelineFrame(raw)
    }

    /// Returns the raw frame index.
    pub fn raw(self) -> (raw: i64)
        ensures
            raw == self@,
    {
        self.0
    }
}

impl Default for TimelineFrame {
    /// The frame at the timeline origin.
    fn default() -> (frame: Self)
        ensures
            frame@ == 0,
    {
        TimelineFrame(0)
    }
}

/// Frame rounding policy for converting continuous time to integer frames.
#[derive(Debug, Clone, Copy, PartialEq, Eq, Structural)]
pub enum TimelineFrameRounding {
    /// Round toward negative infinity.
    Floor,
    /// Round toward positive infinity.
    Ceil,
    /// Round to the nearest frame, with half values away from zero.
    Nearest,
    /// Round toward zero.
    Truncate,
}

/// Rational frame-rate metadata.
#[derive(Debug, Clone, Copy, PartialEq, Eq, Structural)]
pub struct TimelineFrameRate {
    /// Frames-per-second numerator.
    pub numerator: u32,
    /// Frames-per-second denominator.
    pub denominator: u32,
}

/// The numerator a frame rate uses: zero falls back to 24 frames.
pub open spec fn usable_numerator(numerator: u32) -> u32 {
    if numerator == 0 {
        24
    } else {
        numerator
    }
}

/// The denominator a frame rate uses: zero falls back to one.
pub open spec fn usable_denominator(denominator: u32) -> u32 {
    if denominator == 0 {
        1
    } else {
        denominator
    }
}

/// Whole frames per second shown in timecode labels: the usable rate rounded
/// to the nearest integer, halves away from zero, and never below one.
pub open spec fn display_fps(rate: TimelineFrameRate) -> int {
    let n = usable_numerator(rate.numerator) as int;
    let d = usable_denominator(rate.denominator) as int;
    let rounded = (2 * n + d) / (2 * d);
    if rounded < 1 {
        1
    } else {
        rounded
    }
}

impl TimelineFrameRate {
    /// Creates rational frame-rate metadata.
    pub fn new(numerator: u32, denominator: u32) -> (rate: Self)
        ensures
            rate.numerator == numerator,
            rate.denominator == denominator,
    {
        TimelineFrameRate { numerator, denominator }
    }

    /// Creates an integer frame rate.
    pub fn integer(frames_per_second: u32) -> (rate: Self)
        ensures
            rate.numerator == frames_per_second,
            rate.denominator == 1,
    {
        Self::new(frames_per_second, 1)
    }

    /// Returns deterministic non-zero frame-rate metadata: a zero numerator
    /// becomes 24 and a zero denominator becomes 1.
    pub fn sanitized(self) -> (rate: Self)
        ensures
            rate.numerator == usable_numerator(self.numerator),
            rate.denominator == usable_denominator(self.denominator),
    {
        TimelineFrameRate {
            numerator: if self.numerator == 0 {
                24
            } else {
                self.numerator
            },
            denominator: if self.denominator == 0 {
                1
            } else {
                self.denominator
            },
        }
    }

    /// Whole frames per second used by timecode labels.
    pub fn rounded_display_fps(self) -> (fps: u64)
        ensures
            fps == display_fps(self),
            1 <= fps <= u32::MAX,
    {
        let rate = self.sanitized();
        let n = rate.numerator as u64;
        let d = rate.denominator as u64;
        let rounded = (2 * n + d) / (2 * d);
        assert(rounded <= n) by (nonlinear_arith)
            requires
                rounded == (2 * n + d) / (2 * d),
                d >= 1,
        ;
        if rounded < 1 {
            1
        } else {
            rounded
        }
    }
}

impl Default for TimelineFrameRate {
    /// Twenty-four frames per second.
    fn default() -> (rate: Self)
        ensures
            rate.numerator == 24,
            rate.denominator == 1,
    {
        Self::integer(24)
    }
}

/// Ruler tick role.
#[derive(Debug, Clone, Copy, PartialEq, Eq, Structural)]
pub enum TimelineRulerTickKind {
    /// Labeled primary tick.
    Major,
    /// Unlabeled subdivision tick.
    Minor,
}

/// Stable ruler tick metadata.
#[derive(Debug, Clone, PartialEq, Eq)]
pub struct TimelineRulerTick {
    /// Tick kind.
    pub kind: TimelineRulerTickKind,
    /// Tick frame.
    pub frame: TimelineFrame,
    /// Deterministic label. Minor ticks use an empty label.
    pub label: String,
}

/// The character for one decimal digit.
pub open spec fn digit_char(digit: int) -> char {
    if digit == 0 {
        '0'
    } else if digit == 1 {
        '1'
    } else if digit == 2 {
        '2'
    } else if digit == 3 {
        '3'
    } else if digit == 4 {
        '4'
    } else if digit == 5 {
        '5'
    } else if digit == 6 {
        '6'
    } else if digit == 7 {
        '7'
    } else if digit == 8 {
        '8'
    } else {
        '9'
    }
}

/// The decimal digits of a natural number, without leading zeros.
pub open spec fn decimal_text(n: nat) -> Seq<char>
    decreases n,
{
    if n < 10 {
        seq![digit_char(n as int)]
    } else {
        decimal_text(n / 10).push(digit_char((n % 10) as int))
    }
}

/// The decimal digits of a natural number, padded to at least two digits.
pub open spec fn two_digit_text(n: nat) -> Seq<char> {
    if n < 10 {
        seq!['0', digit_char(n as int)]
    } else {
        decimal_text(n)
    }
}

/// The magnitude of a frame index, saturated to the largest `i64`.
pub open spec fn frame_magnitude(raw: i64) -> nat {
    if raw == i64::MIN {
        i64::MAX as nat
    } else if raw < 0 {
        (-raw) as nat
    } else {
        raw as nat
    }
}

/// `hours:minutes:seconds:frames` for a frame index at `fps` whole frames per
/// second, each field at least two digits, with a leading `-` for negative
/// frames.
pub open spec fn timecode_text(raw: i64, fps: int) -> Seq<char> {
    let frames = frame_magnitude(raw) as int;
    let per_hour = fps * 3600;
    let per_minute = fps * 60;
    let sign = if raw < 0 {
        seq!['-']
    } else {
        Seq::<char>::empty()
    };
    sign + two_digit_text((frames / per_hour) as nat) + seq![':'] + two_digit_text(
        ((frames % per_hour) / per_minute) as nat,
    ) + seq![':'] + two_digit_text(((frames % per_minute) / fps) as nat) + seq![':']
        + two_digit_text((frames % fps) as nat)
}

/// A negative frame's timecode is the timecode of its magnitude behind a
/// leading `-`.
pub proof fn lemma_negative_timecode_mirrors_positive(raw: i64, fps: int)
    requires
        i64::MIN < raw < 0,
    ensures
        timecode_text(raw, fps) == seq!['-'] + timecode_text((-raw) as i64, fps),
{
    assert(frame_magnitude(raw) == frame_magnitude((-raw) as i64));
    assert(timecode_text(raw, fps) =~= seq!['-'] + timecode_text((-raw) as i64, fps));
}

/// Sanitizing a frame rate is idempotent and keeps its display rate, which
/// is never below one frame per second.
pub proof fn lemma_sanitized_rate_is_stable(rate: TimelineFrameRate)
    ensures
        ({
            let clean = TimelineFrameRate {
                numerator: usable_numerator(rate.numerator),
                denominator: usable_denominator(rate.denominator),
            };
            &&& usable_numerator(clean.numerator) == clean.numerator
            &&& usable_denominator(clean.denominator) == clean.denominator
            &&& clean.numerator > 0
            &&& clean.denominator > 0
            &&& display_fps(clean) == display_fps(rate)
        }),
        display_fps(rate) >= 1,
{
}

fn digit_str(digit: u64) -> (text: &'static str)
    requires
        digit < 10,
    ensures
        text@ == seq![digit_char(digit as int)],
{
    if digit == 0 {
        proof {
            reveal_strlit("0");
        }
        "0"
    } else if digit == 1 {
        proof {
            reveal_strlit("1");
        }
        "1"
    } else if digit == 2 {
        proof {
            reveal_strlit("2");
        }
        "2"
    } else if digit == 3 {
        proof {
            reveal_strlit("3");
        }
        "3"
    } else if digit == 4 {
        proof {
            reveal_strlit("4");
        }
        "4"
    } else if digit == 5 {
        proof {
            reveal_strlit("5");
        }
        "5"
    } else if digit == 6 {
        proof {
            reveal_strlit("6");
        }
        "6"
    } else if digit == 7 {
        proof {
            reveal_strlit("7");
        }
        "7"
    } else if digit == 8 {
        proof {
            reveal_strlit("8");
        }
        "8"
    } else {
        proof {
            reveal_strlit("9");
        }
        "9"
    }
}

fn push_decimal(text: &mut String, n: u64)
    ensures
        final(text)@ == old(text)@ + decimal_text(n as nat),
    decreases n,
{
    if n >= 10 {
        push_decimal(text, n / 10);
    }
    text.append(digit_str(n % 10));
    proof {
        if n >= 10 {
            assert(decimal_text(n as nat) == decimal_text((n / 10) as nat).push(
                digit_char((n % 10) as int),
            ));
        }
    }
}

fn push_two_digits(text: &mut String, n: u64)
    ensures
        final(text)@ == old(text)@ + two_digit_text(n as nat),
{
    if n < 10 {
        proof {
            reveal_strlit("0");
        }
        text.append("0");
    }
    push_decimal(text, n);
}

fn push_separator(text: &mut String)
    ensures
        final(text)@ == old(text)@ + seq![':'],
{
    proof {
        reveal_strlit(":");
    }
    text.append(":");
}

/// Returns a deterministic timecode-style label for a frame:
/// `hours:minutes:seconds:frames`, each field at least two digits, at the
/// frame rate's whole display frames per second, with a leading `-` for
/// negative frames.
pub fn timeline_timecode_label(frame: TimelineFrame, frame_rate: TimelineFrameRate) -> (label:
    String)
    ensures
        label@ == timecode_text(frame@, display_fps(frame_rate)),
{
    let fps = frame_rate.rounded_display_fps();
    let raw = frame.raw();
    let frames: u64 = if raw == i64::MIN {
        i64::MAX as u64
    } else if raw < 0 {
        (-raw) as u64
    } else {
        raw as u64
    };
    let per_hour = fps * 3600;
    let per_minute = fps * 60;
    let mut label = String::new();
    if raw < 0 {
        proof {
            reveal_strlit("-");
        }
        label.append("-");
    }
    let ghost sign = label@;
    push_two_digits(&mut label, frames / per_hour);
    push_separator(&mut label);
    push_two_digits(&mut label, (frames % per_hour) / per_minute);
    push_separator(&mut label);
    push_two_digits(&mut label, (frames % per_minute) / fps);
    push_separator(&mut label);
    push_two_digits(&mut label, frames % fps);
    proof {
        let f = frame_magnitude(raw) as int;
        assert(frames as int == f);
        assert(label@ =~= timecode_text(raw, fps as int));
    }
    label
}

} // verus!
