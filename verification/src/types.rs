//! Core value objects: task handles, verification codes, phone numbers,
//! dial codes and countries. Each is validated on construction and carries
//! its invariant as a type invariant.

use vstd::prelude::*;

use crate::text::{
    all_digits, check_all_digits, chars_to_string, digit_char, digit_of, is_digit_char,
    lemma_dec_digits_all_digits, lemma_dec_digits_len_bound, lemma_digit_char_is_digit,
    lemma_pow10_mono, pow10, starts_with, strip_plus, strip_plus_spec, trim_spec, trim_str,
    u64_to_digits,
};

verus! {

// =========================================================================
// Spec-level helpers
// =========================================================================
/// The numeric value of a decimal digit string.
pub open spec fn dec_value(s: Seq<char>) -> int
    decreases s.len(),
{
    if s.len() == 0 {
        0
    } else {
        dec_value(s.drop_last()) * 10 + (s.last() as int - '0' as int)
    }
}

/// A well-formed dial code: non-empty, ASCII digits only.
pub open spec fn dial_code_wf(s: Seq<char>) -> bool {
    s.len() > 0 && all_digits(s)
}

/// A well-formed national number: 4 to 14 ASCII digits, no leading zero.
pub open spec fn number_wf(s: Seq<char>) -> bool {
    all_digits(s) && 4 <= s.len() <= 14 && s[0] != '0'
}

/// A well-formed country handle: a two-character alpha-2 code.
pub open spec fn country_wf(s: Seq<char>) -> bool {
    s.len() == 2
}

/// Trimming and plus-stripping leave a non-empty all-digit string unchanged.
pub proof fn lemma_clean_digits(s: Seq<char>)
    requires
        s.len() > 0,
        all_digits(s),
    ensures
        trim_spec(s) == s,
        strip_plus_spec(s) == s,
        strip_plus_spec(trim_spec(s)) == s,
{
    let spacep = |c: char| crate::text::is_space_char(c);
    let plusp = |c: char| c == '+';
    assert(is_digit_char(s[0]));
    assert(is_digit_char(s.last()));
    assert(crate::text::count_leading(s, spacep) == 0);
    assert(crate::text::count_trailing(s, spacep) == 0);
    assert(trim_spec(s) =~= s);
    assert(crate::text::count_leading(s, plusp) == 0);
    assert(strip_plus_spec(s) =~= s);
}

// =========================================================================
// TaskId
// =========================================================================
/// Opaque backend-assigned handle for one rented-number session.
#[derive(Debug)]
pub struct TaskId {
    id: String,
}

impl View for TaskId {
    type V = Seq<char>;

    closed spec fn view(&self) -> Seq<char> {
        self.id@
    }
}

impl TaskId {
    /// Create a task handle from the backend's identifier text.
    pub fn new(id: &str) -> (r: Self)
        ensures
            r@ == id@,
    {
        TaskId { id: id.to_owned() }
    }

    /// The identifier text.
    pub fn as_str(&self) -> (r: &str)
        ensures
            r@ == self@,
    {
        self.id.as_str()
    }
}

impl Clone for TaskId {
    fn clone(&self) -> (r: Self)
        ensures
            r == *self,
    {
        TaskId { id: self.id.clone() }
    }
}

impl PartialEq for TaskId {
    fn eq(&self, other: &Self) -> (r: bool) {
        self.id == other.id
    }
}

impl vstd::std_specs::cmp::PartialEqSpecImpl for TaskId {
    open spec fn obeys_eq_spec() -> bool {
        true
    }

    open spec fn eq_spec(&self, other: &Self) -> bool {
        self@ == other@
    }
}

impl<'a> From<&'a str> for TaskId {
    fn from(id: &'a str) -> (r: Self)
        ensures
            r@ == id@,
    {
        TaskId::new(id)
    }
}

impl<'a> vstd::std_specs::convert::FromSpecImpl<&'a str> for TaskId {
    open spec fn obeys_from_spec() -> bool {
        false
    }

    open spec fn from_spec(id: &'a str) -> Self {
        arbitrary()
    }
}

impl From<String> for TaskId {
    fn from(id: String) -> (r: Self)
        ensures
            r@ == id@,
    {
        TaskId { id }
    }
}

impl vstd::std_specs::convert::FromSpecImpl<String> for TaskId {
    open spec fn obeys_from_spec() -> bool {
        false
    }

    open spec fn from_spec(id: String) -> Self {
        arbitrary()
    }
}

// =========================================================================
// SmsCode
// =========================================================================
/// Verification code received over SMS or call; compared only for presence.
#[derive(Debug)]
pub struct SmsCode {
    code: String,
}

impl View for SmsCode {
    type V = Seq<char>;

    closed spec fn view(&self) -> Seq<char> {
        self.code@
    }
}

impl SmsCode {
    /// Create a code value from the received text.
    pub fn new(code: &str) -> (r: Self)
        ensures
            r@ == code@,
    {
        SmsCode { code: code.to_owned() }
    }

    /// The code text.
    pub fn as_str(&self) -> (r: &str)
        ensures
            r@ == self@,
    {
        self.code.as_str()
    }
}

impl Clone for SmsCode {
    fn clone(&self) -> (r: Self)
        ensures
            r == *self,
    {
        SmsCode { code: self.code.clone() }
    }
}

impl PartialEq for SmsCode {
    fn eq(&self, other: &Self) -> (r: bool) {
        self.code == other.code
    }
}

impl vstd::std_specs::cmp::PartialEqSpecImpl for SmsCode {
    open spec fn obeys_eq_spec() -> bool {
        true
    }

    open spec fn eq_spec(&self, other: &Self) -> bool {
        self@ == other@
    }
}

// =========================================================================
// FullNumber
// =========================================================================
/// The exact spelling of `s` rendered with a leading plus sign.
pub open spec fn with_plus_spec(s: Seq<char>) -> Seq<char> {
    if s.len() > 0 && s[0] == '+' {
        s
    } else {
        seq!['+'] + s
    }
}

/// Full phone number as the backend returned it, dial code included;
/// stored as returned (with or without a leading `'+'`).
#[derive(Debug)]
pub struct FullNumber {
    number: String,
}

impl View for FullNumber {
    type V = Seq<char>;

    closed spec fn view(&self) -> Seq<char> {
        self.number@
    }
}

impl FullNumber {
    /// Store a backend-returned number verbatim.
    pub fn new(number: &str) -> (r: Self)
        ensures
            r@ == number@,
    {
        FullNumber { number: number.to_owned() }
    }

    /// The stored text.
    pub fn as_str(&self) -> (r: &str)
        ensures
            r@ == self@,
    {
        self.number.as_str()
    }

    /// The number with a single leading `'+'`.
    pub fn with_plus_prefix(&self) -> (r: String)
        ensures
            r@ == with_plus_spec(self@),
    {
        let n = self.number.as_str().unicode_len();
        if n > 0 && self.number.as_str().get_char(0) == '+' {
            self.number.clone()
        } else {
            proof {
                reveal_strlit("+");
            }
            let mut r = String::from_str("+");
            r.append(self.number.as_str());
            assert(r@ =~= with_plus_spec(self@));
            r
        }
    }

    /// Whether the number, once any leading `'+'` signs are removed,
    /// starts with the given dial code.
    pub fn starts_with_dial_code(&self, dial_code: &DialCode) -> (r: bool)
        ensures
            r == dial_code@.is_prefix_of(strip_plus_spec(self@)),
    {
        let normalized = strip_plus(self.number.as_str());
        starts_with(normalized, dial_code.as_str())
    }
}

impl Clone for FullNumber {
    fn clone(&self) -> (r: Self)
        ensures
            r == *self,
    {
        FullNumber { number: self.number.clone() }
    }
}

impl PartialEq for FullNumber {
    fn eq(&self, other: &Self) -> (r: bool) {
        self.number == other.number
    }
}

impl vstd::std_specs::cmp::PartialEqSpecImpl for FullNumber {
    open spec fn obeys_eq_spec() -> bool {
        true
    }

    open spec fn eq_spec(&self, other: &Self) -> bool {
        self@ == other@
    }
}

// =========================================================================
// DialCode
// =========================================================================
/// Error when parsing a dial code.
#[derive(Debug, Clone, PartialEq, Eq, Structural)]
pub enum DialCodeError {
    /// Dial code contains non-digit characters.
    NonDigit,
    /// Dial code is empty.
    Empty,
}

/// What `DialCode::new` yields for a given input.
pub open spec fn dial_code_new_spec(s: Seq<char>) -> Result<Seq<char>, DialCodeError> {
    let t = strip_plus_spec(trim_spec(s));
    if t.len() == 0 {
        Err(DialCodeError::Empty)
    } else if !all_digits(t) {
        Err(DialCodeError::NonDigit)
    } else {
        Ok(t)
    }
}

/// International calling-code prefix, stored without the leading `'+'`.
/// Invariant: non-empty, ASCII digits only.
#[derive(Debug, Hash)]
pub struct DialCode {
    code: String,
}

impl View for DialCode {
    type V = Seq<char>;

    closed spec fn view(&self) -> Seq<char> {
        self.code@
    }
}

impl DialCode {
    /// The type invariant: every dial code value is non-empty and all
    /// digits. Callers obtain it with `use_type_invariant`.
    #[verifier::type_invariant]
    pub open spec fn wf(&self) -> bool {
        dial_code_wf(self@)
    }

    /// Parse a dial code. Surrounding whitespace and every leading `'+'`
    /// are removed; what remains must be one or more ASCII digits.
    pub fn new(s: &str) -> (r: Result<Self, DialCodeError>)
        ensures
            match (r, dial_code_new_spec(s@)) {
                (Ok(d), Ok(t)) => d@ == t,
                (Err(e), Err(f)) => e == f,
                _ => false,
            },
    {
        let t = strip_plus(trim_str(s));
        if t.unicode_len() == 0 {
            Err(DialCodeError::Empty)
        } else if !check_all_digits(t) {
            Err(DialCodeError::NonDigit)
        } else {
            Ok(DialCode { code: t.to_owned() })
        }
    }

    /// A randomly chosen dial code from a fixed list of common ones.
    pub fn generate() -> (r: Result<Self, DialCodeError>)
        ensures
            r matches Ok(d) && popular_dial_codes().contains(d@),
    {
        let idx = random_below(10);
        let codes: [&str; 10] = ["1", "44", "49", "7", "380", "91", "81", "61", "33", "39"];
        let chosen: &str = codes[idx];
        proof {
            reveal_strlit("1");
            reveal_strlit("44");
            reveal_strlit("49");
            reveal_strlit("7");
            reveal_strlit("380");
            reveal_strlit("91");
            reveal_strlit("81");
            reveal_strlit("61");
            reveal_strlit("33");
            reveal_strlit("39");
            assert(popular_dial_codes().contains(chosen@)) by {
                assert(popular_dial_codes()[idx as int] == chosen@);
            }
            assert(chosen@.len() > 0 && all_digits(chosen@));
            lemma_clean_digits(chosen@);
        }
        let r = Self::new(chosen);
        match r {
            Ok(d) => Ok(d),
            Err(e) => {
                proof {
                    assert(false);
                }
                Err(e)
            },
        }
    }

    /// The dial code digits.
    pub fn as_str(&self) -> (r: &str)
        ensures
            r@ == self@,
    {
        self.code.as_str()
    }

    /// The country keshvar's calling-code table assigns to this dial code.
    ///
    /// Codes longer than twelve digits are rejected as malformed.
    pub fn to_country(&self) -> (r: Result<Country, DialCodeToCountryError>)
        ensures
            match r {
                Ok(c) => self@.len() <= 12 && alpha2_for_calling_code(dec_value(self@))
                    == Some(c@),
                Err(DialCodeToCountryError::InvalidFormat { dial_code }) => dial_code@ == self@
                    && self@.len() > 12,
                Err(DialCodeToCountryError::NotFound { dial_code }) => dial_code@ == self@
                    && self@.len() <= 12 && alpha2_for_calling_code(dec_value(self@)) is None,
            },
    {
        proof {
            use_type_invariant(self);
        }
        let n = self.code.as_str().unicode_len();
        if n > 12 {
            return Err(DialCodeToCountryError::InvalidFormat { dial_code: self.code.clone() });
        }
        let mut value: u64 = 0;
        let mut i: usize = 0;
        proof {
            lemma_pow10_mono(n as int, 12);
            reveal_with_fuel(pow10, 13);
        }
        while i < n
            invariant
                0 <= i <= n == self@.len() <= 12,
                all_digits(self@),
                value == dec_value(self@.subrange(0, i as int)),
                value < pow10(i as int),
                pow10(n as int) <= pow10(12),
                pow10(12) == 1_000_000_000_000,
            decreases n - i,
        {
            let c = self.code.as_str().get_char(i);
            let d = char_digit_value(c);
            proof {
                lemma_pow10_mono(i as int + 1, n as int);
                assert(self@.subrange(0, i + 1).drop_last() =~= self@.subrange(0, i as int));
                assert(self@.subrange(0, i + 1).last() == self@[i as int]);
            }
            value = value * 10 + (d as u64);
            i += 1;
        }
        proof {
            assert(self@.subrange(0, n as int) =~= self@);
        }
        match find_alpha2_by_calling_code(value) {
            Some(alpha2) => {
                Ok(Country { alpha2 })
            },
            None => Err(DialCodeToCountryError::NotFound { dial_code: self.code.clone() }),
        }
    }
}

impl Clone for DialCode {
    fn clone(&self) -> (r: Self)
        ensures
            r == *self,
    {
        proof {
            use_type_invariant(self);
        }
        DialCode { code: self.code.clone() }
    }
}

impl PartialEq for DialCode {
    fn eq(&self, other: &Self) -> (r: bool) {
        self.code == other.code
    }
}

impl vstd::std_specs::cmp::PartialEqSpecImpl for DialCode {
    open spec fn obeys_eq_spec() -> bool {
        true
    }

    open spec fn eq_spec(&self, other: &Self) -> bool {
        self@ == other@
    }
}

/// The fixed list of dial codes `DialCode::generate` draws from.
pub open spec fn popular_dial_codes() -> Seq<Seq<char>> {
    seq!["1"@, "44"@, "49"@, "7"@, "380"@, "91"@, "81"@, "61"@, "33"@, "39"@]
}

/// The numeric value of an ASCII digit character.
fn char_digit_value(c: char) -> (d: u8)
    requires
        is_digit_char(c),
    ensures
        d == c as int - '0' as int,
        d <= 9,
{
    ((c as u32) - ('0' as u32)) as u8
}

/// Error when converting a dial code to a country.
#[derive(Debug, Clone)]
pub enum DialCodeToCountryError {
    /// No country found for the given dial code.
    NotFound { dial_code: String },
    /// The dial code does not fit the numeric range the lookup accepts.
    InvalidFormat { dial_code: String },
}

// =========================================================================
// Country
// =========================================================================
/// A country, held as its ISO alpha-2 code.
#[derive(Debug, Hash)]
pub struct Country {
    alpha2: String,
}

impl View for Country {
    type V = Seq<char>;

    closed spec fn view(&self) -> Seq<char> {
        self.alpha2@
    }
}

impl Country {
    /// The type invariant: every country value holds a two-character code.
    /// Callers obtain it with `use_type_invariant`.
    #[verifier::type_invariant]
    pub open spec fn wf(&self) -> bool {
        country_wf(self@)
    }

    /// Create a country handle from a two-character alpha-2 code.
    pub fn new(alpha2: &str) -> (r: Option<Self>)
        ensures
            match r {
                Some(c) => alpha2@.len() == 2 && c@ == alpha2@,
                None => alpha2@.len() != 2,
            },
    {
        if alpha2.unicode_len() == 2 {
            Some(Country { alpha2: alpha2.to_owned() })
        } else {
            None
        }
    }

    /// The alpha-2 code.
    pub fn alpha2(&self) -> (r: &str)
        ensures
            r@ == self@,
    {
        self.alpha2.as_str()
    }

    /// Whether two country handles name the same country.
    pub fn eq_alpha2(&self, other: &Country) -> (r: bool)
        ensures
            r == (self@ == other@),
    {
        self.alpha2 == other.alpha2
    }
}

impl Clone for Country {
    fn clone(&self) -> (r: Self)
        ensures
            r == *self,
    {
        proof {
            use_type_invariant(self);
        }
        Country { alpha2: self.alpha2.clone() }
    }
}

impl PartialEq for Country {
    fn eq(&self, other: &Self) -> (r: bool) {
        self.alpha2 == other.alpha2
    }
}

impl vstd::std_specs::cmp::PartialEqSpecImpl for Country {
    open spec fn obeys_eq_spec() -> bool {
        true
    }

    open spec fn eq_spec(&self, other: &Self) -> bool {
        self@ == other@
    }
}

// =========================================================================
// Trusted items: keshvar lookup, random choice
// =========================================================================
/// The alpha-2 code keshvar's calling-code table assigns to a numeric
/// calling code, if any.
pub uninterp spec fn alpha2_for_calling_code(code: int) -> Option<Seq<char>>;

/// Relies on `keshvar::find_by_code`: a fixed table from international
/// calling code to country; the result depends on the code alone, and an
/// alpha-2 code is always two characters.
#[verifier::external_body]
fn find_alpha2_by_calling_code(code: u64) -> (r: Option<String>)
    ensures
        match (r, alpha2_for_calling_code(code as int)) {
            (Some(s), Some(t)) => s@ == t && t.len() == 2,
            (None, None) => true,
            _ => false,
        },
{
    let code = match usize::try_from(code) {
        Ok(c) => c,
        Err(_) => return None,
    };
    match keshvar::find_by_code(code) {
        Ok(country) => Some(country.alpha2().to_string()),
        Err(_) => None,
    }
}

/// Relies on `rand::random_range`: a value drawn below `n`; it panics only
/// on an empty range, which the precondition rules out.
#[verifier::external_body]
fn random_below(n: usize) -> (r: usize)
    requires
        n > 0,
    ensures
        r < n,
{
    rand::random_range(0..n)
}

// =========================================================================
// Number
// =========================================================================
/// Error when parsing a national number.
#[derive(Debug, Clone, PartialEq, Eq, Structural)]
pub enum NumberError {
    /// Number contains non-digit characters.
    NonDigit,
    /// Number has fewer than 4 or more than 14 digits.
    InvalidLength,
    /// Number starts with zero.
    LeadingZero,
    /// Dial code not found at the beginning of the full number.
    MissingDialCode,
}

impl NumberError {
    /// The wording of each parse error.
    pub open spec fn message_spec(&self) -> Seq<char> {
        match self {
            NumberError::NonDigit => "number must contain only digits"@,
            NumberError::InvalidLength => "number must be between 4 and 14 digits"@,
            NumberError::LeadingZero => "number cannot start with 0"@,
            NumberError::MissingDialCode => "dial code not found at the beginning of the number"@,
        }
    }

    /// Render the error as text.
    pub fn message(&self) -> (r: String)
        ensures
            r@ == self.message_spec(),
    {
        match self {
            NumberError::NonDigit => String::from_str("number must contain only digits"),
            NumberError::InvalidLength => String::from_str(
                "number must be between 4 and 14 digits",
            ),
            NumberError::LeadingZero => String::from_str("number cannot start with 0"),
            NumberError::MissingDialCode => String::from_str(
                "dial code not found at the beginning of the number",
            ),
        }
    }
}

/// What `Number::new` yields for a given input.
pub open spec fn number_new_spec(s: Seq<char>) -> Result<Seq<char>, NumberError> {
    let t = trim_spec(s);
    if !all_digits(t) {
        Err(NumberError::NonDigit)
    } else if t.len() < 4 || t.len() > 14 {
        Err(NumberError::InvalidLength)
    } else if t[0] == '0' {
        Err(NumberError::LeadingZero)
    } else {
        Ok(t)
    }
}

/// What `Number::from_full_number` yields for a given full number and
/// dial code.
pub open spec fn number_from_full_spec(full: Seq<char>, dial: Seq<char>) -> Result<
    Seq<char>,
    NumberError,
> {
    let t = strip_plus_spec(trim_spec(full));
    if !dial.is_prefix_of(t) {
        Err(NumberError::MissingDialCode)
    } else {
        number_new_spec(t.skip(dial.len() as int))
    }
}

/// National phone number without the dial code.
/// Invariant: 4 to 14 ASCII digits, no leading zero.
#[derive(Debug, Hash)]
pub struct Number {
    digits: String,
}

impl View for Number {
    type V = Seq<char>;

    closed spec fn view(&self) -> Seq<char> {
        self.digits@
    }
}

impl Number {
    /// The type invariant: every number value is 4 to 14 digits with no
    /// leading zero. Callers obtain it with `use_type_invariant`.
    #[verifier::type_invariant]
    pub open spec fn wf(&self) -> bool {
        number_wf(self@)
    }

    /// Parse a national number. Surrounding whitespace is removed; what
    /// remains must be 4 to 14 ASCII digits not starting with zero.
    pub fn new(s: &str) -> (r: Result<Self, NumberError>)
        ensures
            match (r, number_new_spec(s@)) {
                (Ok(n), Ok(t)) => n@ == t,
                (Err(e), Err(f)) => e == f,
                _ => false,
            },
    {
        let t = trim_str(s);
        if !check_all_digits(t) {
            return Err(NumberError::NonDigit);
        }
        let len = t.unicode_len();
        if len < 4 || len > 14 {
            return Err(NumberError::InvalidLength);
        }
        if t.get_char(0) == '0' {
            return Err(NumberError::LeadingZero);
        }
        Ok(Number { digits: t.to_owned() })
    }

    /// Extract the national number from a full number by removing the
    /// dial-code prefix.
    pub fn from_full_number(full: &FullNumber, dial_code: &DialCode) -> (r: Result<
        Self,
        NumberError,
    >)
        ensures
            match (r, number_from_full_spec(full@, dial_code@)) {
                (Ok(n), Ok(t)) => n@ == t,
                (Err(e), Err(f)) => e == f,
                _ => false,
            },
    {
        let full_str = strip_plus(trim_str(full.as_str()));
        let code = dial_code.as_str();
        if !starts_with(full_str, code) {
            return Err(NumberError::MissingDialCode);
        }
        let rest = full_str.substring_char(code.unicode_len(), full_str.unicode_len());
        assert(rest@ =~= strip_plus_spec(trim_spec(full@)).skip(dial_code@.len() as int));
        Self::new(rest)
    }

    /// A randomly generated valid ten-digit number.
    pub fn generate() -> (r: Result<Self, NumberError>)
        ensures
            r matches Ok(n) && n@.len() == 10,
    {
        let first: u64 = (random_below(9) as u64) + 1;
        let rest: u64 = random_below(1_000_000_000) as u64;
        let mut v: Vec<char> = Vec::new();
        v.push(digit_of(first));
        proof {
            lemma_digit_char_is_digit(first as int);
            assert(digit_char(first as int) != '0');
            reveal_with_fuel(pow10, 11);
            lemma_dec_digits_all_digits(rest as int);
            lemma_dec_digits_len_bound(rest as int, 9);
        }
        let tail = u64_to_digits(rest);
        let mut pad: usize = tail.len();
        while pad < 9
            invariant
                tail@.len() <= pad <= 9,
                v@.len() == 1 + pad - tail@.len(),
                v@[0] == digit_char(first as int),
                all_digits(v@),
            decreases 9 - pad,
        {
            v.push('0');
            pad += 1;
        }
        let mut j: usize = 0;
        while j < tail.len()
            invariant
                0 <= j <= tail@.len() <= 9,
                v@.len() == 1 + 9 - tail@.len() + j,
                v@[0] == digit_char(first as int),
                all_digits(v@),
                all_digits(tail@),
            decreases tail@.len() - j,
        {
            v.push(tail[j]);
            j += 1;
        }
        let s = chars_to_string(&v);
        proof {
            lemma_clean_digits(s@);
        }
        let r = Self::new(s.as_str());
        match r {
            Ok(n) => Ok(n),
            Err(e) => {
                proof {
                    assert(false);
                }
                Err(e)
            },
        }
    }

    /// The digits.
    pub fn as_str(&self) -> (r: &str)
        ensures
            r@ == self@,
    {
        self.digits.as_str()
    }
}

impl Clone for Number {
    fn clone(&self) -> (r: Self)
        ensures
            r == *self,
    {
        proof {
            use_type_invariant(self);
        }
        Number { digits: self.digits.clone() }
    }
}

impl PartialEq for Number {
    fn eq(&self, other: &Self) -> (r: bool) {
        self.digits == other.digits
    }
}

impl vstd::std_specs::cmp::PartialEqSpecImpl for Number {
    open spec fn obeys_eq_spec() -> bool {
        true
    }

    open spec fn eq_spec(&self, other: &Self) -> bool {
        self@ == other@
    }
}

/// Concatenating a dial code and a valid national number and then splitting
/// them again returns the same national number.
pub proof fn lemma_from_full_number_round_trip(d: Seq<char>, n: Seq<char>)
    requires
        dial_code_wf(d),
        number_wf(n),
    ensures
        number_from_full_spec(d + n, d) == Ok::<Seq<char>, NumberError>(n),
{
    let s = d + n;
    assert(all_digits(s)) by {
        assert(forall|i: int| 0 <= i < d.len() ==> #[trigger] s[i] == d[i]);
        assert(forall|i: int|
            d.len() <= i < s.len() ==> #[trigger] s[i] == n[i - d.len()]);
    }
    lemma_clean_digits(s);
    assert(d.is_prefix_of(s)) by {
        assert(s.subrange(0, d.len() as int) =~= d);
    }
    let rest = s.skip(d.len() as int);
    assert(rest =~= n);
    lemma_clean_digits(n);
}

// =========================================================================
// SmsTaskResult
// =========================================================================
/// Everything a successful acquisition yields: the task handle and the
/// parsed parts of the rented phone number.
#[derive(Debug, Clone)]
pub struct SmsTaskResult {
    /// Unique identifier for this rental session.
    pub task_id: TaskId,
    /// Country dial code.
    pub dial_code: DialCode,
    /// National phone number (without dial code).
    pub number: Number,
    /// Full phone number with dial code, as the backend returned it.
    pub full_number: FullNumber,
    /// Country the number belongs to.
    pub country: Country,
}

} // verus!
