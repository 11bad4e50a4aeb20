//! The configuration of the service, and how its values are read from
//! settings that may name a secret file.
//!
//! The caller reads the environment and the files; the rules are here.

use crate::text::{chars_of, starts_with, string_of, trim_bounds, trimmed};
use vstd::prelude::*;
use vstd::string::StringExecFns;

verus! {

/// What the service is configured with.
#[derive(Debug)]
pub struct Configuration {
    pub database_path: String,
    pub teloxide_token: String,
    /// The time between two polling cycles, in seconds.
    pub interval_secs: u64,
    /// The credential for the lookup API, if there is one.
    pub github_token: Option<String>,
}

impl Clone for Configuration {
    fn clone(&self) -> (r: Self)
        ensures
            r == *self,
    {
        Configuration {
            database_path: self.database_path.clone(),
            teloxide_token: self.teloxide_token.clone(),
            interval_secs: self.interval_secs,
            github_token: match &self.github_token {
                Some(token) => Some(token.clone()),
                None => None,
            },
        }
    }
}

/// Where the value of a setting is to be had.
#[derive(Debug)]
pub enum SecretValue {
    /// The setting holds the value itself.
    Plain(String),
    /// The setting names the file that holds the value.
    File { path: String },
}

/// A [`SecretValue`] over sequences of characters.
pub enum SecretValueView {
    Plain(Seq<char>),
    File { path: Seq<char> },
}

impl View for SecretValue {
    type V = SecretValueView;

    open spec fn view(&self) -> SecretValueView {
        match self {
            SecretValue::Plain(value) => SecretValueView::Plain(value@),
            SecretValue::File { path } => SecretValueView::File { path: path@ },
        }
    }
}

/// The prefix of a setting that names a secret file.
pub open spec fn secret_prefix() -> Seq<char> {
    "secret:"@
}

/// The polling interval that is used when none is configured.
pub open spec fn default_interval_secs() -> u64 {
    60
}

/// The refusal of a setting that has the prefix and no path.
pub open spec fn missing_path_message(key: Seq<char>) -> Seq<char> {
    key + " is using 'secret:' prefix but no file path was provided"@
}

/// The refusal of a setting whose file could not be read.
pub open spec fn read_failed_message(key: Seq<char>, path: Seq<char>, detail: Seq<char>) -> Seq<
    char,
> {
    "Failed to read secret file for "@ + key + " from '"@ + path + "': "@ + detail
}

/// Where the value of the setting `key` is to be had, given that the
/// setting holds `value`: in the file that follows the prefix `secret:`,
/// trimmed of whitespace, or in `value` itself where it has no such prefix.
/// A prefix without a path is refused.
pub open spec fn secret_source(key: Seq<char>, value: Seq<char>) -> Result<
    SecretValueView,
    Seq<char>,
> {
    if secret_prefix().is_prefix_of(value) {
        let path = trimmed(value.skip(secret_prefix().len() as int));
        if path.len() == 0 {
            Err(missing_path_message(key))
        } else {
            Ok(SecretValueView::File { path })
        }
    } else {
        Ok(SecretValueView::Plain(value))
    }
}

/// `s` without the line feeds and carriage returns at its end.
pub open spec fn without_line_ends(s: Seq<char>) -> Seq<char>
    decreases s.len(),
{
    if s.len() > 0 && (s.last() == '\n' || s.last() == '\r') {
        without_line_ends(s.drop_last())
    } else {
        s
    }
}

/// Why a text is no polling interval.
#[derive(Debug, Clone, Copy, PartialEq, Eq, Structural)]
pub enum IntervalError {
    /// The text is empty.
    Empty,
    /// A character that is no decimal digit was met, or the text holds no
    /// digit at all.
    InvalidDigit,
    /// The number left the range of 64 bits before anything else was amiss.
    TooLarge,
}

/// Whether `c` is a decimal digit.
pub open spec fn is_digit(c: char) -> bool {
    '0' <= c <= '9'
}

/// Whether `s` holds decimal digits only.
pub open spec fn all_digits(s: Seq<char>) -> bool {
    forall|i: int| 0 <= i < s.len() ==> is_digit(#[trigger] s[i])
}

/// The number that the decimal digits `s` write.
pub open spec fn decimal_value(s: Seq<char>) -> nat
    decreases s.len(),
{
    if s.len() == 0 {
        0
    } else {
        decimal_value(s.drop_last()) * 10 + (s.last() as nat - '0' as nat) as nat
    }
}

/// The digits of `s`: what follows an optional leading `+`.
pub open spec fn unsigned_digits(s: Seq<char>) -> Seq<char> {
    if s.len() > 0 && s[0] == '+' {
        s.skip(1)
    } else {
        s
    }
}

/// Whether the number breaks at position `k` of `digits`: no digit stands
/// there, or the digits up to and with that position leave the range of 64
/// bits.
pub open spec fn breaks_at(digits: Seq<char>, k: int) -> bool {
    !is_digit(digits[k]) || decimal_value(digits.take(k + 1)) > u64::MAX
}

/// The first position at or after `from` at which the number breaks, or the
/// length of `digits` where it breaks nowhere.
pub open spec fn first_break(digits: Seq<char>, from: int) -> int
    decreases digits.len() - from,
{
    if from < 0 || from >= digits.len() {
        digits.len() as int
    } else if breaks_at(digits, from) {
        from
    } else {
        first_break(digits, from + 1)
    }
}

/// The number that `s` writes in decimal, with an optional leading `+`.
///
/// The text is read from the left. It is refused at the first character
/// that is no digit, or at the first digit with which the number leaves the
/// range, whichever comes first; the reason names which of the two it was.
/// An empty text and a sign without digits are refused as well.
pub open spec fn parsed_decimal(s: Seq<char>) -> Result<u64, IntervalError> {
    let digits = unsigned_digits(s);
    let k = first_break(digits, 0);
    if s.len() == 0 {
        Err(IntervalError::Empty)
    } else if digits.len() == 0 {
        Err(IntervalError::InvalidDigit)
    } else if k == digits.len() {
        Ok(decimal_value(digits) as u64)
    } else if !is_digit(digits[k]) {
        Err(IntervalError::InvalidDigit)
    } else {
        Err(IntervalError::TooLarge)
    }
}

/// The words for each reason.
pub open spec fn interval_reason(e: IntervalError) -> Seq<char> {
    match e {
        IntervalError::Empty => "cannot parse integer from empty string"@,
        IntervalError::InvalidDigit => "invalid digit found in string"@,
        IntervalError::TooLarge => "number too large to fit in target type"@,
    }
}

/// The refusal of a polling interval that is no number.
pub open spec fn invalid_interval_message(e: IntervalError) -> Seq<char> {
    "POLL_INTERVAL_SECS must be a positive integer: "@ + interval_reason(e)
}

/// The polling interval that the setting `text` gives: the number that it
/// writes once it is trimmed of whitespace.
pub open spec fn interval_of(text: Seq<char>) -> Result<u64, Seq<char>> {
    match parsed_decimal(trimmed(text)) {
        Ok(secs) => Ok(secs),
        Err(e) => Err(invalid_interval_message(e)),
    }
}

/// The polling interval for a setting that may be absent.
pub open spec fn configured_interval(interval: Option<Seq<char>>) -> Result<u64, Seq<char>> {
    match interval {
        Some(text) => interval_of(text),
        None => Ok(default_interval_secs()),
    }
}

/// A number written by a prefix of digits is at most the number written by
/// all of them.
proof fn lemma_prefix_value(s: Seq<char>, k: int)
    requires
        0 <= k <= s.len(),
    ensures
        decimal_value(s.take(k)) <= decimal_value(s),
    decreases s.len(),
{
    if k == s.len() {
        assert(s.take(k) =~= s);
    } else {
        lemma_prefix_value(s.drop_last(), k);
        assert(s.drop_last().take(k) =~= s.take(k));
    }
}

/// The number breaks nowhere from `from` on exactly if no position from
/// `from` on is one at which it breaks.
proof fn lemma_no_break(digits: Seq<char>, from: int)
    requires
        0 <= from <= digits.len(),
    ensures
        first_break(digits, from) == digits.len() <==> forall|k: int|
            from <= k < digits.len() ==> !breaks_at(digits, k),
        from <= first_break(digits, from) <= digits.len(),
    decreases digits.len() - from,
{
    if from < digits.len() {
        lemma_no_break(digits, from + 1);
        if !breaks_at(digits, from) {
            assert forall|k: int| from <= k < digits.len() && (forall|j: int|
                from + 1 <= j < digits.len() ==> !breaks_at(digits, j)) implies !breaks_at(
                digits,
                k,
            ) by {
                if k > from {
                    assert(!breaks_at(digits, k));
                }
            }
        }
    }
}

/// A text is read as a number exactly if it holds digits only, after an
/// optional `+`, at least one of them, and the number they write fits in 64
/// bits; the number read is the one they write.
pub proof fn lemma_numbers_are_read(s: Seq<char>)
    ensures
        parsed_decimal(s) is Ok <==> unsigned_digits(s).len() > 0 && all_digits(unsigned_digits(s))
            && decimal_value(unsigned_digits(s)) <= u64::MAX,
        parsed_decimal(s) matches Ok(v) ==> v == decimal_value(unsigned_digits(s)),
{
    let digits = unsigned_digits(s);
    if digits.len() > 0 {
        lemma_no_break(digits, 0);
        if all_digits(digits) && decimal_value(digits) <= u64::MAX {
            assert forall|k: int| 0 <= k < digits.len() implies !breaks_at(digits, k) by {
                lemma_prefix_value(digits, k + 1);
            }
        }
        if first_break(digits, 0) == digits.len() {
            assert forall|k: int| 0 <= k < digits.len() implies is_digit(#[trigger] digits[k]) by {
                assert(!breaks_at(digits, k));
            }
            assert(!breaks_at(digits, digits.len() - 1));
            assert(digits.take(digits.len() as int) =~= digits);
        }
    }
}

fn digit_of(c: char) -> (d: Option<u64>)
    ensures
        match d {
            Some(v) => is_digit(c) && v == c as nat - '0' as nat,
            None => !is_digit(c),
        },
{
    if c == '0' {
        Some(0)
    } else if c == '1' {
        Some(1)
    } else if c == '2' {
        Some(2)
    } else if c == '3' {
        Some(3)
    } else if c == '4' {
        Some(4)
    } else if c == '5' {
        Some(5)
    } else if c == '6' {
        Some(6)
    } else if c == '7' {
        Some(7)
    } else if c == '8' {
        Some(8)
    } else if c == '9' {
        Some(9)
    } else {
        None
    }
}

/// The number that `chars[lo..hi]` writes in decimal, with an optional
/// leading `+`.
fn parse_decimal(chars: &Vec<char>, lo: usize, hi: usize) -> (r: Result<u64, IntervalError>)
    requires
        lo <= hi <= chars.len(),
    ensures
        r == parsed_decimal(chars@.subrange(lo as int, hi as int)),
{
    let ghost s = chars@.subrange(lo as int, hi as int);
    if lo == hi {
        return Err(IntervalError::Empty);
    }
    let start: usize = if chars[lo] == '+' {
        lo + 1
    } else {
        lo
    };
    let ghost digits = unsigned_digits(s);
    assert(digits =~= chars@.subrange(start as int, hi as int));
    if start == hi {
        return Err(IntervalError::InvalidDigit);
    }
    let mut value: u64 = 0;
    let mut k: usize = start;
    assert(digits.take(0) =~= Seq::<char>::empty());
    while k < hi
        invariant
            start <= k <= hi <= chars.len(),
            s == chars@.subrange(lo as int, hi as int),
            s.len() > 0,
            digits == unsigned_digits(s),
            digits == chars@.subrange(start as int, hi as int),
            digits.len() > 0,
            first_break(digits, 0) == first_break(digits, k - start),
            value == decimal_value(digits.take(k - start)),
        decreases hi - k,
    {
        proof {
            assert(digits.take(k + 1 - start).drop_last() =~= digits.take(k - start));
            assert(digits.take(k + 1 - start).last() == chars@[k as int]);
            assert(digits[k - start] == chars@[k as int]);
        }
        match digit_of(chars[k]) {
            None => {
                return Err(IntervalError::InvalidDigit);
            },
            Some(d) => {
                if value > (u64::MAX - d) / 10 {
                    return Err(IntervalError::TooLarge);
                }
                value = value * 10 + d;
            },
        }
        k += 1;
    }
    assert(digits.take(hi - start) =~= digits);
    Ok(value)
}

fn reason(e: IntervalError) -> (text: &'static str)
    ensures
        text@ == interval_reason(e),
{
    match e {
        IntervalError::Empty => "cannot parse integer from empty string",
        IntervalError::InvalidDigit => "invalid digit found in string",
        IntervalError::TooLarge => "number too large to fit in target type",
    }
}

/// The polling interval that the setting `text` gives, or the refusal of a
/// text that writes no number that fits in 64 bits.
pub fn parse_interval(text: &str) -> (r: Result<u64, String>)
    ensures
        match r {
            Ok(secs) => interval_of(text@) == Ok::<u64, Seq<char>>(secs),
            Err(message) => interval_of(text@) == Err::<u64, Seq<char>>(message@),
        },
{
    let chars = chars_of(text);
    let (lo, hi) = trim_bounds(&chars, 0, chars.len());
    assert(chars@.subrange(0, chars@.len() as int) =~= chars@);
    match parse_decimal(&chars, lo, hi) {
        Ok(secs) => Ok(secs),
        Err(e) => {
            let mut message = String::from_str("POLL_INTERVAL_SECS must be a positive integer: ");
            message.append(reason(e));
            Err(message)
        },
    }
}

impl Configuration {
    /// Where the value of the setting `key` is to be had, given that the
    /// setting holds `value`.
    pub fn resolve_secret_value(key: &str, value: String) -> (r: Result<SecretValue, String>)
        ensures
            match r {
                Ok(source) => secret_source(key@, value@) == Ok::<SecretValueView, Seq<char>>(
                    source@,
                ),
                Err(message) => secret_source(key@, value@) == Err::<SecretValueView, Seq<char>>(
                    message@,
                ),
            },
    {
        let chars = chars_of(value.as_str());
        let prefix = chars_of("secret:");
        if !starts_with(&chars, &prefix) {
            return Ok(SecretValue::Plain(value));
        }
        let (lo, hi) = trim_bounds(&chars, prefix.len(), chars.len());
        assert(chars@.subrange(prefix@.len() as int, chars@.len() as int) =~= chars@.skip(
            prefix@.len() as int,
        ));
        if lo == hi {
            let mut message = String::from_str(key);
            message.append(" is using 'secret:' prefix but no file path was provided");
            return Err(message);
        }
        Ok(SecretValue::File { path: string_of(&chars, lo, hi) })
    }

    /// The value that a secret file with `content` gives: the content
    /// without the line feeds and carriage returns at its end.
    pub fn secret_from_file(content: &str) -> (value: String)
        ensures
            value@ == without_line_ends(content@),
    {
        let chars = chars_of(content);
        let mut hi: usize = chars.len();
        assert(chars@.take(hi as int) =~= chars@);
        while hi > 0 && (chars[hi - 1] == '\n' || chars[hi - 1] == '\r')
            invariant
                hi <= chars.len(),
                without_line_ends(chars@) == without_line_ends(chars@.take(hi as int)),
            decreases hi,
        {
            assert(chars@.take(hi as int).drop_last() =~= chars@.take(hi - 1));
            hi -= 1;
        }
        assert(chars@.subrange(0, hi as int) =~= chars@.take(hi as int));
        string_of(&chars, 0, hi)
    }

    /// The refusal of the setting `key` whose file at `path` could not be
    /// read; `detail` says why.
    pub fn read_failed(key: &str, path: &str, detail: &str) -> (message: String)
        ensures
            message@ == read_failed_message(key@, path@, detail@),
    {
        let mut message = String::from_str("Failed to read secret file for ");
        message.append(key);
        message.append(" from '");
        message.append(path);
        message.append("': ");
        message.append(detail);
        message
    }

    /// The polling interval that the resolved setting gives: 60 seconds
    /// where there is none, the number that it writes otherwise. A setting
    /// that writes no number is refused.
    pub fn interval_from(interval: Option<&str>) -> (r: Result<u64, String>)
        ensures
            match r {
                Ok(secs) => configured_interval(
                    match interval {
                        Some(text) => Some(text@),
                        None => None,
                    },
                ) == Ok::<u64, Seq<char>>(secs),
                Err(message) => configured_interval(
                    match interval {
                        Some(text) => Some(text@),
                        None => None,
                    },
                ) == Err::<u64, Seq<char>>(message@),
            },
    {
        match interval {
            Some(text) => parse_interval(text),
            None => Ok(60),
        }
    }

    /// The configuration that the resolved settings give. Without a setting
    /// for the interval the service polls every 60 seconds; a setting that
    /// writes no number is refused.
    pub fn from_values(
        database_path: String,
        teloxide_token: String,
        interval: Option<String>,
        github_token: Option<String>,
    ) -> (r: Result<Self, String>)
        ensures
            match r {
                Ok(config) => configured_interval(
                    match interval {
                        Some(text) => Some(text@),
                        None => None,
                    },
                ) == Ok::<u64, Seq<char>>(config.interval_secs) && config.database_path
                    == database_path && config.teloxide_token == teloxide_token
                    && config.github_token == github_token,
                Err(message) => configured_interval(
                    match interval {
                        Some(text) => Some(text@),
                        None => None,
                    },
                ) == Err::<u64, Seq<char>>(message@),
            },
    {
        let setting = match &interval {
            Some(text) => Some(text.as_str()),
            None => None,
        };
        match Self::interval_from(setting) {
            Ok(interval_secs) => Ok(
                Configuration { database_path, teloxide_token, interval_secs, github_token },
            ),
            Err(message) => Err(message),
        }
    }

    /// The address of the database for `sqlx`.
    pub fn database_url(&self) -> (url: String)
        ensures
            url@ == "sqlite://"@ + self.database_path@,
    {
        let mut url = String::from_str("sqlite://");
        url.append(self.database_path.as_str());
        url
    }
}

} // verus!
