//! What the command-line client works out before it talks to a terrarium:
//! commands of the form `<actuator>[@<value>][:<duration>]`, and the control
//! command that a list of them comes to.

use crate::binary32::{Binary32, ONE_BITS};
use crate::types::{Actuator, ActuatorOverride, ActuatorOverrideSet, ActuatorValue};
use vstd::prelude::*;
use vstd::string::{StrSliceExecFns, StringExecFns};

verus! {

/// Bit pattern of the seconds for which a command holds that names no
/// duration, the number sixty.
pub const DEFAULT_DURATION_BITS: u32 = 0x4270_0000;

/// Why a command, or a number of seconds, could not be read.
#[derive(PartialEq, Debug)]
pub struct CommandParseError {
    pub msg: String,
}

impl CommandParseError {
    pub fn new(msg: &str) -> (r: CommandParseError)
        ensures
            r.msg@ == msg@,
    {
        CommandParseError { msg: String::from_str(msg) }
    }

    /// The text that describes the error to a person.
    pub fn message(&self) -> (r: String)
        ensures
            r@ == self.msg@,
    {
        self.msg.clone()
    }
}

/// Whether `c` is one of the ten digits.
pub open spec fn is_digit(c: char) -> bool {
    '0' <= c <= '9'
}

/// Whether `c` is one of the letters `a` to `z` and `A` to `Z`.
pub open spec fn is_letter(c: char) -> bool {
    'a' <= c <= 'z' || 'A' <= c <= 'Z'
}

/// Whether `c` is one of the letters `A` to `Z`.
pub open spec fn is_upper(c: char) -> bool {
    'A' <= c <= 'Z'
}

/// Whether `s` holds nothing but digits.
pub open spec fn is_digits(s: Seq<char>) -> bool {
    forall|i: int| 0 <= i < s.len() ==> is_digit(#[trigger] s[i])
}

/// Whether `s` is written as the numbers of a command are: digits, or
/// digits, a point and at least one more digit; the digits before the point
/// may be missing.
pub open spec fn is_number_text(s: Seq<char>) -> bool {
    ||| is_digits(s)
    ||| exists|dot: int|
        0 <= dot < s.len() - 1 && #[trigger] s[dot] == '.' && is_digits(s.take(dot)) && is_digits(
            s.skip(dot + 1),
        )
}

/// The first index from `from` on at which `s` holds `c`; the length of `s`
/// if there is none.
pub open spec fn find_from(s: Seq<char>, c: char, from: int) -> int
    decreases s.len() - from,
{
    if from < 0 || from >= s.len() {
        s.len() as int
    } else if s[from] == c {
        from
    } else {
        find_from(s, c, from + 1)
    }
}

/// The value of a string of digits read as a decimal number.
pub open spec fn decimal_value(digits: Seq<char>) -> nat
    decreases digits.len(),
{
    if digits.len() == 0 {
        0
    } else {
        (decimal_value(digits.drop_last()) * 10 + (digits.last() as u32 - '0' as u32)) as nat
    }
}

/// The digits of a whole number of seconds as it may be written: with or
/// without a plus sign in front.
pub open spec fn unsigned_digits(s: Seq<char>) -> Seq<char> {
    if s.len() > 0 && s[0] == '+' {
        s.skip(1)
    } else {
        s
    }
}

/// The whole number of seconds that `s` is the decimal notation of, if it is
/// one that fits in 64 bits.
pub open spec fn seconds_written(s: Seq<char>) -> Option<u64> {
    let digits = unsigned_digits(s);
    if digits.len() > 0 && is_digits(digits) && decimal_value(digits) <= u64::MAX {
        Some(decimal_value(digits) as u64)
    } else {
        None
    }
}

/// Whether reading the digits one by one stops at index `i`: there is no
/// digit there, or with the digit there the number is too large for 64 bits.
pub open spec fn stops_at(digits: Seq<char>, i: int) -> bool {
    !is_digit(digits[i]) || decimal_value(digits.take(i + 1)) > u64::MAX
}

/// The first index from `from` on at which reading the digits stops; their
/// number if it stops nowhere.
pub open spec fn first_stop(digits: Seq<char>, from: int) -> int
    decreases digits.len() - from,
{
    if from < 0 || from >= digits.len() {
        digits.len() as int
    } else if stops_at(digits, from) {
        from
    } else {
        first_stop(digits, from + 1)
    }
}

/// What is said of a text that is no whole number of seconds: that it is
/// empty; or, of what stopped the reading first, that it is no digit or that
/// the number is too large.
pub open spec fn seconds_complaint(s: Seq<char>) -> Seq<char> {
    let digits = unsigned_digits(s);
    let stop = first_stop(digits, 0);
    if s.len() == 0 {
        "cannot parse integer from empty string"@
    } else if digits.len() == 0 || (stop < digits.len() && !is_digit(digits[stop])) {
        "invalid digit found in string"@
    } else {
        "number too large to fit in target type"@
    }
}

/// The characters of `s`.
fn chars_of(s: &str) -> (r: Vec<char>)
    ensures
        r@ == s@,
{
    let n: usize = s.unicode_len();
    let mut chars: Vec<char> = Vec::new();
    let mut i: usize = 0;
    while i < n
        invariant
            n == s@.len(),
            i <= n,
            chars@ == s@.take(i as int),
        decreases n - i,
    {
        chars.push(s.get_char(i));
        assert(s@.take(i + 1) == s@.take(i as int).push(s@[i as int]));
        i = i + 1;
    }
    assert(s@.take(n as int) == s@);
    chars
}

fn digit(c: char) -> (r: bool)
    ensures
        r == is_digit(c),
{
    '0' <= c && c <= '9'
}

/// A growing decimal number stays above each of its beginnings.
proof fn lemma_decimal_value_grows(digits: Seq<char>, n: int)
    requires
        0 <= n <= digits.len(),
        is_digits(digits),
    ensures
        decimal_value(digits.take(n)) <= decimal_value(digits),
    decreases digits.len() - n,
{
    if n < digits.len() {
        let longer = digits.take(n + 1);
        assert(longer.drop_last() == digits.take(n));
        assert(is_digit(digits[n]));
        lemma_decimal_value_grows(digits, n + 1);
    } else {
        assert(digits.take(n) == digits);
    }
}

/// Reads a whole number of seconds in decimal notation: digits, with or
/// without a plus sign in front, that come to no more than 64 bits hold.
pub fn parse_duration(arg: &str) -> (r: Result<u64, CommandParseError>)
    ensures
        r is Ok <==> seconds_written(arg@) is Some,
        r is Ok ==> Some(r->Ok_0) == seconds_written(arg@),
        r is Err ==> r->Err_0.msg@ == seconds_complaint(arg@),
{
    let chars = chars_of(arg);
    let start: usize = if chars.len() > 0 && chars[0] == '+' {
        1
    } else {
        0
    };
    let ghost digits = unsigned_digits(arg@);
    assert(digits == chars@.skip(start as int));
    if chars.len() == start {
        return Err(
            CommandParseError::new(
                if start == 0 {
                    "cannot parse integer from empty string"
                } else {
                    "invalid digit found in string"
                },
            ),
        );
    }
    let mut value: u64 = 0;
    let mut i: usize = start;
    assert(digits.take(0) == Seq::<char>::empty());
    while i < chars.len()
        invariant
            start <= i <= chars.len(),
            digits == unsigned_digits(arg@),
            digits == chars@.skip(start as int),
            is_digits(digits.take(i - start)),
            value == decimal_value(digits.take(i - start)),
            first_stop(digits, 0) == first_stop(digits, i - start),
        decreases chars.len() - i,
    {
        let c: char = chars[i];
        assert(c == digits[i - start]);
        if !digit(c) {
            assert(!is_digit(digits[i - start]));
            return Err(CommandParseError::new("invalid digit found in string"));
        }
        let d: u64 = (c as u32 - '0' as u32) as u64;
        proof {
            let longer = digits.take(i - start + 1);
            assert(longer.drop_last() == digits.take(i - start));
            assert(longer.last() == c);
            assert forall|j: int| 0 <= j < longer.len() implies is_digit(#[trigger] longer[j]) by {
                if j < i - start {
                    assert(longer[j] == digits.take(i - start)[j]);
                }
            }
            assert(decimal_value(longer) == value * 10 + d);
            if value > (u64::MAX - d) / 10 {
                assert(value * 10 + d > u64::MAX);
                if is_digits(digits) {
                    lemma_decimal_value_grows(digits, i - start + 1);
                }
            }
        }
        if value > (u64::MAX - d) / 10 {
            return Err(CommandParseError::new("number too large to fit in target type"));
        }
        value = value * 10 + d;
        i = i + 1;
    }
    assert(digits.take(digits.len() as int) == digits);
    Ok(value)
}

/// One command of the client: an actuator, the value to hold it at, and the
/// seconds to hold it for, both as single-precision numbers.
#[derive(PartialEq, Eq, Structural, Debug, Clone, Copy)]
pub struct ControlCommand {
    pub actuator: Actuator,
    pub value: Binary32,
    pub duration: Binary32,
}

impl ControlCommand {
    /// The override that the command asks for: a switch is on for a value
    /// above zero, the lights take the value as it is, and the duration is
    /// cut down to whole seconds.
    pub open spec fn as_override(self) -> ActuatorOverride {
        ActuatorOverride {
            actuator: self.actuator,
            value: if self.actuator == Actuator::Lights {
                ActuatorValue::Float(self.value)
            } else {
                ActuatorValue::Bool(self.value.is_positive())
            },
            duration_secs: self.duration.truncated(),
        }
    }

    pub fn to_override(&self) -> (r: ActuatorOverride)
        ensures
            r == self.as_override(),
    {
        let value = match self.actuator {
            Actuator::Lights => ActuatorValue::Float(self.value),
            _ => ActuatorValue::Bool(self.value.positive()),
        };
        ActuatorOverride { actuator: self.actuator, value, duration_secs: self.duration.to_u32() }
    }
}

/// The control command that a list of client commands comes to: one override
/// for each, in the same order.
pub fn create_update_data(cmds: &[ControlCommand]) -> (r: ActuatorOverrideSet)
    ensures
        r.updates@.len() == cmds@.len(),
        forall|i: int| 0 <= i < cmds@.len() ==> r.updates@[i] == (#[trigger] cmds@[i]).as_override(),
{
    let mut updates: Vec<ActuatorOverride> = Vec::new();
    let mut i: usize = 0;
    while i < cmds.len()
        invariant
            i <= cmds@.len(),
            updates@.len() == i,
            forall|j: int| 0 <= j < i ==> updates@[j] == (#[trigger] cmds@[j]).as_override(),
        decreases cmds@.len() - i,
    {
        updates.push(cmds[i].to_override());
        i = i + 1;
    }
    ActuatorOverrideSet { updates }
}

/// A command taken apart, as text.
pub ghost struct CommandText {
    /// The letter that stands for the actuator.
    pub abbrev: char,
    /// What follows the `@`, if there is one.
    pub value: Option<Seq<char>>,
    /// What follows the colon, if there is one.
    pub duration: Option<Seq<char>>,
}

/// How a command falls apart: a letter; then, up to the first colon, either
/// nothing or `@` and a number; then, after that colon, a number. `None` for
/// a text that is not of this form.
pub open spec fn taken_apart(cmd: Seq<char>) -> Option<CommandText> {
    if cmd.len() == 0 {
        None
    } else {
        let colon = find_from(cmd, ':', 1);
        let head = cmd.subrange(1, colon);
        let value = if head.len() > 0 {
            Some(head.skip(1))
        } else {
            None
        };
        let duration = if colon < cmd.len() {
            Some(cmd.skip(colon + 1))
        } else {
            None
        };
        if is_letter(cmd[0]) && (head.len() > 0 ==> head[0] == '@') && (value is Some
            ==> is_number_text(value->0)) && (duration is Some ==> is_number_text(duration->0)) {
            Some(CommandText { abbrev: cmd[0], value, duration })
        } else {
            None
        }
    }
}

/// The command that the parts are the parts of.
pub open spec fn put_together(text: CommandText) -> Seq<char> {
    seq![text.abbrev] + (match text.value {
        Some(value) => seq!['@'] + value,
        None => Seq::empty(),
    }) + (match text.duration {
        Some(duration) => seq![':'] + duration,
        None => Seq::empty(),
    })
}

/// The actuator that a letter stands for, in either case.
pub open spec fn abbreviated(c: char) -> Option<Actuator> {
    if c == 'm' || c == 'M' {
        Some(Actuator::Mist)
    } else if c == 'l' || c == 'L' {
        Some(Actuator::Lights)
    } else if c == 'f' || c == 'F' {
        Some(Actuator::Fans)
    } else {
        None
    }
}

/// The text that an optional string holds.
pub open spec fn text_of(s: Option<String>) -> Option<Seq<char>> {
    match s {
        Some(s) => Some(s@),
        None => None,
    }
}

/// A command that was read: its actuator, whether the actuator was written
/// as a capital letter, and the texts of value and duration as far as the
/// command has them.
#[derive(PartialEq, Debug)]
pub struct ParsedCommand {
    pub actuator: Actuator,
    pub emphatic: bool,
    pub value: Option<String>,
    pub duration: Option<String>,
}

impl ParsedCommand {
    /// The value of the command: the number that its value text was read as;
    /// zero if the text could not be read as a number; and without a text one
    /// for a capital letter and zero for a small one.
    pub open spec fn value_given(self, value: Option<Binary32>) -> Binary32 {
        if self.value is Some {
            if value is Some {
                value->0
            } else {
                Binary32 { bits: 0 }
            }
        } else if self.emphatic {
            Binary32 { bits: ONE_BITS }
        } else {
            Binary32 { bits: 0 }
        }
    }

    /// The duration of the command: the number that its duration text was
    /// read as; zero if the text could not be read as a number; and sixty
    /// seconds without a text.
    pub open spec fn duration_given(self, duration: Option<Binary32>) -> Binary32 {
        if self.duration is Some {
            if duration is Some {
                duration->0
            } else {
                Binary32 { bits: 0 }
            }
        } else {
            Binary32 { bits: DEFAULT_DURATION_BITS }
        }
    }

    /// The command with its numbers filled in. `value` and `duration` are what
    /// the two texts of the command were read as, `None` for a text that is
    /// missing or is no number.
    pub fn assemble(&self, value: Option<Binary32>, duration: Option<Binary32>) -> (r:
        ControlCommand)
        ensures
            r.actuator == self.actuator,
            r.value == self.value_given(value),
            r.duration == self.duration_given(duration),
    {
        let value = match &self.value {
            Some(_) => match value {
                Some(number) => number,
                None => Binary32::zero(),
            },
            None => if self.emphatic {
                Binary32::from_bits(ONE_BITS)
            } else {
                Binary32::zero()
            },
        };
        let duration = match &self.duration {
            Some(_) => match duration {
                Some(number) => number,
                None => Binary32::zero(),
            },
            None => Binary32::from_bits(DEFAULT_DURATION_BITS),
        };
        ControlCommand { actuator: self.actuator, value, duration }
    }
}

/// The end of the digits that `chars` holds from `from` on, and before `to`
/// at the latest.
fn digits_end(chars: &Vec<char>, from: usize, to: usize) -> (r: usize)
    requires
        from <= to <= chars@.len(),
    ensures
        from <= r <= to,
        forall|i: int| from <= i < r ==> is_digit(#[trigger] chars@[i]),
        r < to ==> !is_digit(chars@[r as int]),
{
    let mut i: usize = from;
    while i < to
        invariant
            from <= i <= to <= chars@.len(),
            forall|j: int| from <= j < i ==> is_digit(#[trigger] chars@[j]),
        decreases to - i,
    {
        if !digit(chars[i]) {
            return i;
        }
        i = i + 1;
    }
    i
}

/// Whether `chars` holds a number from `from` up to `to`.
fn number_text(chars: &Vec<char>, from: usize, to: usize) -> (r: bool)
    requires
        from <= to <= chars@.len(),
    ensures
        r == is_number_text(chars@.subrange(from as int, to as int)),
{
    let ghost s = chars@.subrange(from as int, to as int);
    let d: usize = digits_end(chars, from, to);
    if d == to {
        assert(is_digits(s));
        return true;
    }
    assert(!is_digit(s[d - from]));
    let pointed: bool = chars[d] == '.' && d + 1 < to;
    let end: usize = if pointed {
        digits_end(chars, d + 1, to)
    } else {
        d
    };
    let found: bool = pointed && end == to;
    proof {
        let at = d - from;
        if found {
            assert(s[at] == '.');
            assert(is_digits(s.take(at)));
            assert(is_digits(s.skip(at + 1)));
        } else {
            assert forall|dot: int|
                !(0 <= dot < s.len() - 1 && #[trigger] s[dot] == '.' && is_digits(s.take(dot))
                    && is_digits(s.skip(dot + 1))) by {
                if 0 <= dot < s.len() - 1 && s[dot] == '.' && is_digits(s.take(dot)) && is_digits(
                    s.skip(dot + 1),
                ) {
                    if dot > at {
                        assert(s.take(dot)[at] == s[at]);
                    } else if dot < at {
                        assert(is_digit(s[dot]));
                    } else {
                        assert(pointed);
                        assert(s.skip(at + 1)[end - d - 1] == chars@[end as int]);
                    }
                }
            }
        }
    }
    found
}

fn letter(c: char) -> (r: bool)
    ensures
        r == is_letter(c),
{
    ('a' <= c && c <= 'z') || ('A' <= c && c <= 'Z')
}

fn actuator_for(c: char) -> (r: Option<Actuator>)
    ensures
        r == abbreviated(c),
{
    if c == 'm' || c == 'M' {
        Some(Actuator::Mist)
    } else if c == 'l' || c == 'L' {
        Some(Actuator::Lights)
    } else if c == 'f' || c == 'F' {
        Some(Actuator::Fans)
    } else {
        None
    }
}

/// Reads one command of the form `<actuator>[@<value>][:<duration>]`. The
/// actuator is one letter, `m` for the mister, `l` for the lights and `f` for
/// the fans, small or capital; value and duration are written as
/// `is_number_text` says. The two numbers are handed back as text.
pub fn parse_cmd(cmd: &str) -> (r: Result<ParsedCommand, CommandParseError>)
    ensures
        r is Ok <==> taken_apart(cmd@) is Some && abbreviated(taken_apart(cmd@)->0.abbrev) is Some,
        r is Ok ==> ({
            let text = taken_apart(cmd@)->0;
            let parsed = r->Ok_0;
            &&& Some(parsed.actuator) == abbreviated(text.abbrev)
            &&& parsed.emphatic == is_upper(text.abbrev)
            &&& text_of(parsed.value) == text.value
            &&& text_of(parsed.duration) == text.duration
        }),
        cmd@.len() == 0 ==> r is Err && r->Err_0.msg@ == "Empty command"@,
        cmd@.len() > 0 && taken_apart(cmd@) is None ==> r is Err && r->Err_0.msg@
            == "Invalid command: '"@ + cmd@ + "'"@,
        taken_apart(cmd@) is Some && abbreviated(taken_apart(cmd@)->0.abbrev) is None ==> r is Err
            && r->Err_0.msg@ == "Invalid abbreviation: '"@ + seq![cmd@[0]] + "'"@,
{
    let chars = chars_of(cmd);
    let n: usize = chars.len();
    if n == 0 {
        return Err(CommandParseError::new("Empty command"));
    }
    let mut colon: usize = 1;
    while colon < n && chars[colon] != ':'
        invariant
            1 <= colon <= n,
            n == chars@.len(),
            find_from(chars@, ':', 1) == find_from(chars@, ':', colon as int),
        decreases n - colon,
    {
        colon = colon + 1;
    }
    assert(find_from(chars@, ':', 1) == colon);
    let ghost head = chars@.subrange(1, colon as int);
    let shaped: bool = letter(chars[0]) && (colon == 1 || (chars[1] == '@' && number_text(
        &chars,
        2,
        colon,
    ))) && (colon == n || number_text(&chars, colon + 1, n));
    proof {
        if colon > 1 {
            assert(head[0] == chars@[1]);
            assert(head.skip(1) == chars@.subrange(2, colon as int));
        }
        if colon < n {
            assert(chars@.skip(colon + 1) == chars@.subrange(colon + 1, n as int));
        }
    }
    if !shaped {
        assert(taken_apart(cmd@) is None);
        let text = String::from_str("Invalid command: '").concat(cmd).concat("'");
        return Err(CommandParseError { msg: text });
    }
    assert(taken_apart(cmd@) is Some);
    let abbrev: char = chars[0];
    match actuator_for(abbrev) {
        None => {
            let shown = cmd.substring_char(0, 1);
            assert(shown@ == seq![cmd@[0]]);
            let text = String::from_str("Invalid abbreviation: '").concat(shown).concat("'");
            Err(CommandParseError { msg: text })
        },
        Some(actuator) => {
            let value = if colon > 1 {
                Some(String::from_str(cmd.substring_char(2, colon)))
            } else {
                None
            };
            let duration = if colon < n {
                Some(String::from_str(cmd.substring_char(colon + 1, n)))
            } else {
                None
            };
            Ok(
                ParsedCommand {
                    actuator,
                    emphatic: 'A' <= abbrev && abbrev <= 'Z',
                    value,
                    duration,
                },
            )
        },
    }
}

} // verus!
