//! The exception of a motion that did not end regularly, and the way its numbers are printed.
use crate::double::Double;
use crate::error::{ControlException, ControlView, MoveStatus};
use crate::errors::Errors;
use crate::robot::robot_impl::{RobotImpl, RobotView};
use crate::robot_state::Record;
use crate::text;
use crate::text::{decimal_text, trim_zeros};
use vstd::prelude::*;

verus! {

/// How many commands were lost between two states: the states between them.
pub open spec fn lost_between(before: Record, last: Record) -> nat {
    let gap = last.state.time.milliseconds - before.state.time.milliseconds - 1;
    if gap > 0 {
        gap as nat
    } else {
        0
    }
}

/// What the last two lines of a log say of the connection.
#[derive(Clone, Copy, PartialEq, Eq, Structural, Debug)]
pub struct SuccessRate {
    /// Success rate of the line before the last; that of the last line is always zero.
    pub rate: Double,
    /// Commands that were lost in a row before the last line. Each of them lowers the rate by a
    /// hundredth of itself.
    pub lost_packets: u64,
}

/// What the last two lines of a log say of the connection, where there are two.
pub open spec fn rate_of(log: Seq<Record>) -> Option<SuccessRate> {
    if log.len() >= 2 {
        Some(
            SuccessRate {
                rate: log[log.len() - 2].state.control_command_success_rate,
                lost_packets: lost_between(log[log.len() - 2], log[log.len() - 1]) as u64,
            },
        )
    } else {
        None
    }
}

/// What two lines say of the connection.
pub(crate) fn rate_between(before: &Record, last: &Record) -> (r: SuccessRate)
    ensures
        r == (SuccessRate {
            rate: before.state.control_command_success_rate,
            lost_packets: lost_between(*before, *last) as u64,
        }),
        r.lost_packets == lost_between(*before, *last),
{
    let gap: u64 = last.state.time.as_millis().saturating_sub(before.state.time.as_millis());
    SuccessRate {
        rate: before.state.control_command_success_rate,
        lost_packets: gap.saturating_sub(1),
    }
}

/// What the last two lines of a log say of the connection.
pub fn success_rate_of(log: &Vec<Record>) -> (r: Option<SuccessRate>)
    ensures
        r == rate_of(log@),
{
    let length: usize = log.len();
    if length >= 2 {
        Some(rate_between(&log[length - 2], &log[length - 1]))
    } else {
        None
    }
}

/// The message of an exception: the bare one, and after a reflex the errors and, where the log
/// tells, the success rate and the number of lost packets.
pub open spec fn exception_text(
    message: Seq<char>,
    move_status: MoveStatus,
    reflex_errors: Errors,
    log: Seq<Record>,
    success_rate: Seq<char>,
) -> Seq<char> {
    if move_status == MoveStatus::ReflexAborted {
        message + " "@ + reflex_errors.shown() + match rate_of(log) {
            Some(rate) => "\ncontrol_command_success_rate: "@ + success_rate + (
            if rate.lost_packets > 0 {
                " packets lost in a row in the last sample: "@ + text::decimal(
                    rate.lost_packets as nat,
                )
            } else {
                Seq::empty()
            }),
            None => Seq::empty(),
        }
    } else {
        message
    }
}

/// Builds the exception of a motion that ended with a status. `success_rate` is the text of the
/// rate that the log gives, and is not looked at when it gives none.
pub fn create_control_exception(
    message: &str,
    move_status: MoveStatus,
    reflex_errors: Errors,
    log: Vec<Record>,
    success_rate: &str,
) -> (r: ControlException)
    ensures
        r@ == (ControlView {
            message: exception_text(message@, move_status, reflex_errors, log@, success_rate@),
            move_status: Some(move_status),
            last_motion_errors: reflex_errors,
            log: log@,
        }),
{
    let mut whole = String::from_str(message);
    if move_status == MoveStatus::ReflexAborted {
        whole.append(" ");
        let names = reflex_errors.text();
        whole.append(names.as_str());
        match success_rate_of(&log) {
            Some(rate) => {
                whole.append("\ncontrol_command_success_rate: ");
                whole.append(success_rate);
                if rate.lost_packets > 0 {
                    whole.append(" packets lost in a row in the last sample: ");
                    let count = decimal_text(rate.lost_packets);
                    whole.append(count.as_str());
                }
            },
            None => {},
        }
        assert(whole@ =~= exception_text(
            message@,
            move_status,
            reflex_errors,
            log@,
            success_rate@,
        ));
    }
    ControlException {
        message: whole,
        move_status: Some(move_status),
        last_motion_errors: reflex_errors,
        log,
    }
}

impl RobotView {
    /// The session after an exception took its log, and that exception.
    pub open spec fn excepted(
        self,
        message: Seq<char>,
        move_status: MoveStatus,
        reflex_errors: Errors,
        success_rate: Seq<char>,
    ) -> (RobotView, ControlView) {
        (
            self.with_log(Seq::empty()),
            ControlView {
                message: exception_text(
                    message,
                    move_status,
                    reflex_errors,
                    self.log,
                    success_rate,
                ),
                move_status: Some(move_status),
                last_motion_errors: reflex_errors,
                log: self.log,
            },
        )
    }
}

/// Whether `c` is a decimal digit.
pub open spec fn is_digit(c: char) -> bool {
    48 <= c as int <= 57
}

/// Whether every character is a decimal digit.
pub open spec fn all_digits(digits: Seq<char>) -> bool {
    forall|i: int| 0 <= i < digits.len() ==> is_digit(#[trigger] digits[i])
}

/// The number that decimal digits write.
pub open spec fn digits_value(digits: Seq<char>) -> int
    decreases digits.len(),
{
    if digits.len() == 0 {
        0
    } else {
        10 * digits_value(digits.drop_last()) + (digits.last() as int - 48)
    }
}

/// A number rounded to six significant digits.
pub struct Rounded {
    pub negative: bool,
    /// The six digits.
    pub digits: Seq<char>,
    /// The power of ten of the first digit.
    pub exponent: int,
}

/// An exponent without its minus.
pub open spec fn exponent_digits(exponent: Seq<char>) -> Seq<char> {
    if exponent.len() > 0 && exponent[0] == '-' {
        exponent.skip(1)
    } else {
        exponent
    }
}

/// The number that an exponent writes: one to three digits, with a minus before them where it is
/// below zero.
pub open spec fn exponent_value(exponent: Seq<char>) -> Option<int> {
    let digits = exponent_digits(exponent);
    if !(1 <= digits.len() <= 3 && all_digits(digits)) {
        None
    } else if exponent[0] == '-' {
        Some(-digits_value(digits))
    } else {
        Some(digits_value(digits))
    }
}

/// The number that scientific notation with five digits after the dot writes, such as
/// `-1.50000e6`.
pub open spec fn rounded(text: Seq<char>) -> Option<Rounded> {
    let negative = text.len() > 0 && text[0] == '-';
    let body = if negative {
        text.skip(1)
    } else {
        text
    };
    let digits = body.take(1) + body.subrange(2, 7);
    if body.len() >= 9 && body[1] == '.' && body[7] == 'e' && all_digits(digits) {
        match exponent_value(body.skip(8)) {
            Some(exponent) => Some(Rounded { negative, digits, exponent }),
            None => None,
        }
    } else {
        None
    }
}

/// An exponent with its sign and at least two digits.
pub open spec fn exponent_text(exponent: int) -> Seq<char> {
    let (sign, size) = if exponent < 0 {
        ("-"@, (-exponent) as nat)
    } else {
        ("+"@, exponent as nat)
    };
    sign + (if size < 10 {
        "0"@
    } else {
        Seq::empty()
    }) + text::decimal(size)
}

/// Six digits, the first of them at the power of ten `x`: with an exponent where that is right of
/// the fourth place after the dot or left of the sixth place before it, and without one otherwise.
pub open spec fn magnitude(d: Seq<char>, x: int) -> Seq<char> {
    if -4 <= x < 0 {
        text::trimmed("0."@ + Seq::new((-x - 1) as nat, |i: int| '0') + d)
    } else if 0 <= x < 6 {
        text::trimmed(d.take(x + 1) + "."@ + d.skip(x + 1))
    } else {
        text::trimmed(d.take(1) + "."@ + d.skip(1)) + "e"@ + exponent_text(x)
    }
}

impl Rounded {
    /// The number as an output stream prints it by default.
    pub open spec fn shown(self) -> Seq<char> {
        if self.negative {
            "-"@ + magnitude(self.digits, self.exponent)
        } else {
            magnitude(self.digits, self.exponent)
        }
    }
}

/// `value` as an output stream prints it by default, with six significant digits. `digits` is
/// `value` in scientific notation, rounded to five digits after the dot; it is looked at only where
/// `value` is finite and not zero, and there is no text where it is not such notation.
pub open spec fn default_float(value: Double, digits: Seq<char>) -> Option<Seq<char>> {
    if value.same(Double { bits: 0 }) {
        Some("0"@)
    } else if value.nan() {
        Some("nan"@)
    } else if !value.finite() {
        Some(
            if (Double { bits: 0 }).lt(value) {
                "inf"@
            } else {
                "-inf"@
            },
        )
    } else {
        match rounded(digits) {
            Some(number) => Some(number.shown()),
            None => None,
        }
    }
}

/// Whether the characters from `start` to `end` are decimal digits, and the number they write.
fn digits_number(text: &str, start: usize, end: usize) -> (r: Option<i32>)
    requires
        start <= end <= text@.len(),
        end - start <= 6,
    ensures
        r is Some <==> all_digits(text@.subrange(start as int, end as int)),
        r matches Some(n) ==> n == digits_value(text@.subrange(start as int, end as int)) && 0 <= n
            < 1_000_000,
{
    let mut n: i32 = 0;
    let mut bound: i32 = 1;
    let mut i: usize = start;
    while i < end
        invariant
            start <= i <= end <= text@.len(),
            end - start <= 6,
            all_digits(text@.subrange(start as int, i as int)),
            n == digits_value(text@.subrange(start as int, i as int)),
            0 <= n < bound <= 1_000_000,
            i - start == 0 ==> bound == 1,
            i - start == 1 ==> bound == 10,
            i - start == 2 ==> bound == 100,
            i - start == 3 ==> bound == 1000,
            i - start == 4 ==> bound == 10000,
            i - start == 5 ==> bound == 100000,
        decreases end - i,
    {
        let c: u32 = text.get_char(i) as u32;
        if c < 48 || c > 57 {
            assert(text@.subrange(start as int, end as int)[i - start] == text@[i as int]);
            return None;
        }
        let ghost before = text@.subrange(start as int, i as int);
        let ghost after = text@.subrange(start as int, i + 1);
        assert(after.drop_last() =~= before);
        assert forall|k: int| 0 <= k < after.len() implies is_digit(#[trigger] after[k]) by {
            if k < before.len() {
                assert(before[k] == after[k]);
            }
        }
        n = 10 * n + (c - 48) as i32;
        bound = 10 * bound;
        i = i + 1;
    }
    Some(n)
}

/// The number that the exponent from `start` on writes.
fn exponent_number(text: &str, start: usize) -> (r: Option<i32>)
    requires
        start <= text@.len(),
    ensures
        match r {
            Some(n) => exponent_value(text@.skip(start as int)) == Some(n as int) && -1_000_000 < n
                < 1_000_000,
            None => exponent_value(text@.skip(start as int)) is None,
        },
{
    let length: usize = text.unicode_len();
    let below = start < length && text.get_char(start) == '-';
    let first: usize = if below {
        start + 1
    } else {
        start
    };
    let ghost exponent = text@.skip(start as int);
    let ghost digits = exponent_digits(exponent);
    assert(text@.subrange(first as int, length as int) =~= digits);
    if length == first || length - first > 3 {
        return None;
    }
    match digits_number(text, first, length) {
        Some(n) => Some(
            if below {
                -n
            } else {
                n
            },
        ),
        None => None,
    }
}

/// An exponent with its sign and at least two digits.
fn show_exponent(exponent: i32) -> (r: String)
    requires
        -1_000_000 < exponent < 1_000_000,
    ensures
        r@ == exponent_text(exponent as int),
{
    let (sign, size): (&str, u64) = if exponent < 0 {
        ("-", (-exponent) as u64)
    } else {
        ("+", exponent as u64)
    };
    let mut r = String::from_str(sign);
    if size < 10 {
        r.append("0");
    }
    let digits = decimal_text(size);
    r.append(digits.as_str());
    assert(r@ =~= exponent_text(exponent as int));
    r
}

/// Six digits with the first at a power of ten, as an output stream prints them.
fn show_magnitude(digits: &str, exponent: i32) -> (r: String)
    requires
        digits@.len() == 6,
        -1_000_000 < exponent < 1_000_000,
    ensures
        r@ == magnitude(digits@, exponent as int),
{
    let ghost d = digits@;
    let ghost x = exponent as int;
    if -4 <= exponent && exponent < 0 {
        let mut whole = String::from_str("0.");
        proof {
            reveal_strlit("0");
            reveal_strlit("00");
            reveal_strlit("000");
        }
        if exponent == -2 {
            whole.append("0");
        } else if exponent == -3 {
            whole.append("00");
        } else if exponent == -4 {
            whole.append("000");
        }
        whole.append(digits);
        assert(whole@ =~= "0."@ + Seq::new((-x - 1) as nat, |i: int| '0') + d);
        return String::from_str(trim_zeros(whole.as_str()));
    }
    let fixed = 0 <= exponent && exponent < 6;
    let split: usize = if fixed {
        exponent as usize + 1
    } else {
        1
    };
    let mut whole = String::from_str(digits.substring_char(0, split));
    whole.append(".");
    whole.append(digits.substring_char(split, 6));
    assert(digits@.subrange(0, split as int) =~= d.take(split as int));
    assert(digits@.subrange(split as int, 6) =~= d.skip(split as int));
    let mut r = String::from_str(trim_zeros(whole.as_str()));
    if !fixed {
        r.append("e");
        let exponent = show_exponent(exponent);
        r.append(exponent.as_str());
    }
    r
}

/// `value` as an output stream prints it by default, with six significant digits. `digits` is
/// `value` in scientific notation, rounded to five digits after the dot: the power of ten that
/// decides how it is printed is the one after rounding. There is no text where `value` is finite
/// and not zero and `digits` is not such notation.
pub fn format_default_float(value: Double, digits: &str) -> (r: Option<String>)
    ensures
        match r {
            Some(text) => default_float(value, digits@) == Some(text@),
            None => default_float(value, digits@) is None,
        },
{
    let zero = Double { bits: 0 };
    if value.equals(zero) {
        return Some(String::from_str("0"));
    }
    if value.is_nan() {
        return Some(String::from_str("nan"));
    }
    if !value.is_finite() {
        return Some(
            String::from_str(
                if zero.less(value) {
                    "inf"
                } else {
                    "-inf"
                },
            ),
        );
    }
    let length: usize = digits.unicode_len();
    let negative = length > 0 && digits.get_char(0) == '-';
    let start: usize = if negative {
        1
    } else {
        0
    };
    let ghost body = if negative {
        digits@.skip(1)
    } else {
        digits@
    };
    if length < start + 9 || digits.get_char(start + 1) != '.' || digits.get_char(start + 7) != 'e' {
        return None;
    }
    let lead = digits.substring_char(start, start + 1);
    let rest = digits.substring_char(start + 2, start + 7);
    let mut six = String::from_str(lead);
    six.append(rest);
    assert(six@ =~= body.take(1) + body.subrange(2, 7));
    assert(six@.subrange(0, 6) =~= six@);
    assert(body.skip(8) =~= digits@.skip(start + 8));
    if digits_number(six.as_str(), 0, 6).is_none() {
        return None;
    }
    match exponent_number(digits, start + 8) {
        None => None,
        Some(exponent) => {
            let magnitude = show_magnitude(six.as_str(), exponent);
            if negative {
                let mut r = String::from_str("-");
                r.append(magnitude.as_str());
                Some(r)
            } else {
                Some(magnitude)
            }
        },
    }
}

/// The power of ten of the first digit after rounding decides the notation: a number has an exponent
/// where that is below -4 or above 5, and only there.
pub proof fn law_notation_follows_rounding(number: Rounded)
    requires
        number.digits.len() == 6,
        all_digits(number.digits),
    ensures
        number.shown().contains('e') <==> !(-4 <= number.exponent < 6),
{
    reveal_strlit("0.");
    reveal_strlit(".");
    reveal_strlit("e");
    reveal_strlit("-");
    let d = number.digits;
    let x = number.exponent;
    let whole = if -4 <= x < 0 {
        "0."@ + Seq::new((-x - 1) as nat, |i: int| '0') + d
    } else if 0 <= x < 6 {
        d.take(x + 1) + "."@ + d.skip(x + 1)
    } else {
        d.take(1) + "."@ + d.skip(1)
    };
    assert forall|i: int| 0 <= i < whole.len() implies whole[i] != 'e' by {
        assert forall|k: int| 0 <= k < 6 implies #[trigger] d[k] != 'e' by {
            assert(is_digit(d[k]));
        }
    }
    let short = text::trim_end(whole, '0');
    text::law_trim_end(whole, '0');
    text::law_trim_end(short, '.');
    let kept = text::trimmed(whole);
    assert forall|i: int| 0 <= i < kept.len() implies kept[i] != 'e' by {
        assert(kept[i] == whole[i]);
    }
    let shown = number.shown();
    let sign: int = if number.negative {
        1
    } else {
        0
    };
    if -4 <= x < 6 {
        assert forall|i: int| 0 <= i < shown.len() implies shown[i] != 'e' by {
            if i >= sign {
                assert(shown[i] == kept[i - sign]);
            }
        }
    } else {
        assert(shown[sign + kept.len()] == 'e');
    }
}

/// Packets were lost between two lines exactly when their times are more than a millisecond apart,
/// one for each millisecond beyond the first.
pub proof fn law_lost_packets(before: Record, last: Record)
    ensures
        lost_between(before, last) == 0 <==> last.state.time.milliseconds
            <= before.state.time.milliseconds + 1,
        lost_between(before, last) > 0 ==> before.state.time.milliseconds + 1 + lost_between(
            before,
            last,
        ) == last.state.time.milliseconds,
{
}

/// The connection is judged by the last two lines of a log, where there are two: by the rate in the
/// line before the last, and by the packets lost between them.
pub proof fn law_last_two_lines_are_judged(log: Seq<Record>, before: Record, last: Record)
    ensures
        rate_of(log) is Some <==> log.len() >= 2,
        rate_of(log.push(before).push(last)) matches Some(rate) && rate.rate
            == before.state.control_command_success_rate && rate.lost_packets == lost_between(
            before,
            last,
        ),
{
}

/// An exception takes the log with it and leaves it empty; nothing else of the session changes. It
/// carries the status, the errors and the message, which is followed by the errors exactly when a
/// reflex ended the motion.
pub proof fn law_exception_takes_the_log(
    robot: RobotView,
    message: Seq<char>,
    move_status: MoveStatus,
    reflex_errors: Errors,
    success_rate: Seq<char>,
)
    ensures
        ({
            let (after, exception) = robot.excepted(
                message,
                move_status,
                reflex_errors,
                success_rate,
            );
            &&& exception.log == robot.log
            &&& after.log.len() == 0
            &&& after == robot.with_log(after.log)
            &&& exception.move_status == Some(move_status)
            &&& exception.last_motion_errors == reflex_errors
            &&& exception.message.take(message.len() as int) == message
            &&& exception.message == message <==> move_status != MoveStatus::ReflexAborted
            &&& move_status == MoveStatus::ReflexAborted ==> {
                let shown = reflex_errors.shown();
                exception.message.subrange(
                    message.len() as int + 1,
                    message.len() as int + 1 + shown.len(),
                ) == shown
            }
        }),
{
    reveal_strlit(" ");
    let text = exception_text(message, move_status, reflex_errors, robot.log, success_rate);
    let shown = reflex_errors.shown();
    assert(text.take(message.len() as int) =~= message);
    if move_status == MoveStatus::ReflexAborted {
        assert(text.len() > message.len());
        assert(text.subrange(
            message.len() as int + 1,
            message.len() as int + 1 + shown.len(),
        ) =~= shown);
    }
}

/// What is left of a number with a dot at place `dot` begins as the number does, keeps everything
/// before the dot, and ends neither in a zero nor in a dot after it.
proof fn lemma_trimmed_number(whole: Seq<char>, dot: int)
    requires
        0 < dot < whole.len(),
        whole[dot] == '.',
        forall|i: int| 0 <= i < whole.len() && i != dot ==> whole[i] != '.',
    ensures
        dot <= text::trimmed(whole).len() <= whole.len(),
        text::trimmed(whole) == whole.take(text::trimmed(whole).len() as int),
        text::trimmed(whole).len() > dot ==> text::trimmed(whole).len() > dot + 1 && text::trimmed(
            whole,
        ).last() != '0',
        forall|i: int| text::trimmed(whole).len() <= i < whole.len() ==> whole[i] == '0' || whole[i]
            == '.',
{
    let short = text::trim_end(whole, '0');
    text::law_trim_end(whole, '0');
    text::law_trim_end(short, '.');
    let kept = text::trimmed(whole);
    assert(whole.contains('.'));
    assert(short.len() > dot);
    assert(kept.len() >= dot) by {
        if kept.len() < dot {
            assert(short[dot - 1] == '.');
        }
    }
    assert(kept =~= whole.take(kept.len() as int));
    if kept.len() > dot {
        assert(kept.len() != dot + 1) by {
            if kept.len() == dot + 1 {
                assert(kept.last() == whole[dot]);
            }
        }
        if kept.len() < short.len() {
            assert(short[kept.len() as int] == '.');
        }
        assert(kept.last() == short[kept.len() - 1]);
    }
    assert forall|i: int| kept.len() <= i < whole.len() implies whole[i] == '0' || whole[i]
        == '.' by {
        if i < short.len() {
            assert(short[i] == '.');
        }
    }
}

/// A number without an exponent is shown with a minus exactly when it is negative, and with its
/// digits in order. From one on, the dot stands behind the digit of the power of ten zero; below one,
/// a zero, the dot and the zeros before the first digit come first. Only zeros are left out at the
/// end, and the dot where nothing follows it.
pub proof fn law_plain_numbers(number: Rounded, i: int)
    requires
        number.digits.len() == 6,
        all_digits(number.digits),
        -4 <= number.exponent < 6,
    ensures
        ({
            let shown = number.shown();
            let x = number.exponent;
            let sign: int = if number.negative {
                1
            } else {
                0
            };
            &&& shown.len() > sign
            &&& shown[0] == '-' <==> number.negative
            &&& x >= 0 ==> {
                &&& shown.len() > sign + x
                &&& 0 <= i <= x ==> shown[sign + i] == number.digits[i]
                &&& shown.len() > sign + x + 1 ==> shown[sign + x + 1] == '.' && shown.last() != '0'
                &&& x < i < 6 && sign + i + 1 < shown.len() ==> shown[sign + i + 1]
                    == number.digits[i]
                &&& x < i < 6 && sign + i + 1 >= shown.len() ==> number.digits[i] == '0'
            }
            &&& x < 0 ==> {
                &&& shown[sign] == '0'
                &&& shown.len() > sign + 1 ==> shown[sign + 1] == '.' && shown.last() != '0'
                &&& 2 <= i < 1 - x && sign + i < shown.len() ==> shown[sign + i] == '0'
                &&& 0 <= i < 6 && sign + 1 - x + i < shown.len() ==> shown[sign + 1 - x + i]
                    == number.digits[i]
                &&& 0 <= i < 6 && sign + 1 - x + i >= shown.len() ==> number.digits[i] == '0'
            }
        }),
{
    reveal_strlit("-");
    reveal_strlit("0.");
    reveal_strlit(".");
    let d = number.digits;
    let x = number.exponent;
    assert forall|k: int| 0 <= k < 6 implies #[trigger] d[k] != '.' && d[k] != '-' by {
        assert(is_digit(d[k]));
    }
    let whole = if x < 0 {
        "0."@ + Seq::new((-x - 1) as nat, |i: int| '0') + d
    } else {
        d.take(x + 1) + "."@ + d.skip(x + 1)
    };
    let dot = if x < 0 {
        1
    } else {
        x + 1
    };
    lemma_trimmed_number(whole, dot);
    let kept = text::trimmed(whole);
    let shown = number.shown();
    let sign: int = if number.negative {
        1
    } else {
        0
    };
    assert(shown.len() == sign + kept.len());
    assert forall|k: int| 0 <= k < kept.len() implies #[trigger] shown[sign + k] == whole[k] by {
        assert(kept[k] == whole[k]);
    }
    assert(shown[sign + 0] == whole[0]);
    if x >= 0 {
        if 0 <= i <= x {
            assert(shown[sign + i] == whole[i]);
        }
        if x < i < 6 {
            assert(whole[i + 1] == d[i]);
            assert(i + 1 < kept.len() ==> shown[sign + (i + 1)] == whole[i + 1]);
        }
        assert(dot < kept.len() ==> shown[sign + dot] == whole[dot]);
    } else {
        assert(dot < kept.len() ==> shown[sign + dot] == whole[dot]);
        if 2 <= i < 1 - x {
            assert(whole[i] == '0');
            assert(i < kept.len() ==> shown[sign + i] == whole[i]);
        }
        if 0 <= i < 6 {
            assert(whole[1 - x + i] == d[i]);
            assert(1 - x + i < kept.len() ==> shown[sign + (1 - x + i)] == whole[1 - x + i]);
        }
    }
}

/// Zero, the infinities and what is no number have texts of their own; of every other number the
/// text is made from its digits.
pub proof fn law_special_numbers(value: Double, digits: Seq<char>)
    ensures
        value.finite() && value.value() == 0 ==> default_float(value, digits) == Some("0"@),
        value.nan() ==> default_float(value, digits) == Some("nan"@),
        !value.nan() && !value.finite() && value.value() > 0 ==> default_float(value, digits)
            == Some("inf"@),
        !value.nan() && !value.finite() && value.value() < 0 ==> default_float(value, digits)
            == Some("-inf"@),
        value.finite() && value.value() != 0 ==> (default_float(value, digits) is Some <==> rounded(
            digits,
        ) is Some),
{
    broadcast use crate::double::group_order;

    let zero = Double { bits: 0 };
    assert(zero.value() == 0);
    assert(!zero.nan());
    assert(value.same(zero) == (!value.nan() && value.value() == 0));
}

/// A number in decimal is made of digits, writes that number, and has no zero in front of it.
pub proof fn law_decimal_writes_the_number(n: nat)
    ensures
        text::decimal(n).len() > 0,
        all_digits(text::decimal(n)),
        digits_value(text::decimal(n)) == n,
        n >= 10 ==> text::decimal(n)[0] != '0',
        n > 0 ==> text::decimal(n)[0] != '0',
        n < 1000 ==> text::decimal(n).len() <= 3,
        n < 100 ==> text::decimal(n).len() <= 2,
        n < 10 ==> text::decimal(n).len() == 1,
        n >= 10 ==> text::decimal(n).len() >= 2,
    decreases n,
{
    reveal_with_fuel(digits_value, 2);
    if n < 10 {
        assert(text::decimal(n).drop_last() =~= Seq::empty());
    } else {
        law_decimal_writes_the_number(n / 10);
        assert(text::decimal(n).drop_last() =~= text::decimal(n / 10));
    }
}

/// An exponent is shown with its sign and then at least two digits, which write its size; reading the
/// digits, behind a minus where it is negative, gives the exponent back.
pub proof fn law_exponents(exponent: int)
    requires
        -1000 < exponent < 1000,
    ensures
        ({
            let shown = exponent_text(exponent);
            let size = if exponent < 0 {
                -exponent
            } else {
                exponent
            };
            &&& shown.len() >= 3
            &&& shown[0] == '-' <==> exponent < 0
            &&& shown[0] == '+' <==> exponent >= 0
            &&& all_digits(shown.skip(1))
            &&& digits_value(shown.skip(1)) == size
            &&& shown.len() > 3 ==> shown[1] != '0'
            &&& exponent >= 0 ==> exponent_value(text::decimal(size as nat)) == Some(exponent)
            &&& exponent < 0 ==> exponent_value("-"@ + text::decimal(size as nat)) == Some(exponent)
        }),
{
    reveal_strlit("-");
    reveal_strlit("+");
    reveal_strlit("0");
    let size = if exponent < 0 {
        (-exponent) as nat
    } else {
        exponent as nat
    };
    let digits = text::decimal(size);
    law_decimal_writes_the_number(size);
    let shown = exponent_text(exponent);
    assert(is_digit(digits[0]));
    assert(exponent < 0 ==> ("-"@ + digits).skip(1) =~= digits);
    if size < 10 {
        let two = shown.skip(1);
        assert(two =~= seq!['0'] + digits);
        assert(two.drop_last() =~= seq!['0']);
        assert(two.drop_last().drop_last() =~= Seq::empty());
        assert(digits.drop_last() =~= Seq::empty());
        reveal_with_fuel(digits_value, 3);
        assert(is_digit(two[0]) && is_digit(two[1]));
    } else {
        assert(shown.skip(1) =~= digits);
    }
}

/// Scientific notation with one digit before the dot and five after it is read as its sign, its six
/// digits and its exponent.
pub proof fn law_notation_reads_back(
    negative: bool,
    digits: Seq<char>,
    exponent: Seq<char>,
    value: int,
)
    requires
        digits.len() == 6,
        all_digits(digits),
        exponent_value(exponent) == Some(value),
    ensures
        ({
            let body = digits.take(1) + "."@ + digits.skip(1) + "e"@ + exponent;
            let text = if negative {
                "-"@ + body
            } else {
                body
            };
            rounded(text) matches Some(number) && number.negative == negative && number.digits
                == digits && number.exponent == value
        }),
{
    reveal_strlit("-");
    reveal_strlit(".");
    reveal_strlit("e");
    let body = digits.take(1) + "."@ + digits.skip(1) + "e"@ + exponent;
    assert(is_digit(digits[0]));
    assert(body[0] == digits[0]);
    assert(("-"@ + body).skip(1) =~= body);
    assert(exponent.len() >= 1);
    assert(body.take(1) + body.subrange(2, 7) =~= digits);
    assert(body.skip(8) =~= exponent);
}

} // verus!
