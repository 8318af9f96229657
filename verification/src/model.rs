//! The receipt and the validated values that it is made of. A value of one of
//! these types can only be had from its constructor, which checks it.

use vstd::prelude::*;
use vstd::string::StrSliceExecFns;
use crate::text::{
    chars_of, digit_value, is_decimal_digit, is_number, lemma_trimmed_twice, number_of, trim,
    trimmed,
};

verus! {

/// Why a text is not a value of the type that it was meant for.
#[derive(Debug, Clone, Copy, PartialEq, Eq, Structural)]
pub enum Invalid {
    /// A title is empty.
    Empty,
    /// A price is not a decimal number that fits 32 bits.
    NotANumber,
    /// A date is no timestamp with an offset from UTC.
    NotATimestamp,
    /// The name of an organization has fewer than 3 characters.
    TooShort,
    /// A tax number has more or fewer than 10 characters.
    WrongLength,
    /// A tax number holds something else than decimal digits of ASCII.
    NotDigits,
}

impl Invalid {
    /// The reason in words.
    pub fn message(&self) -> (text: &'static str)
        ensures
            text@ == match self {
                Invalid::Empty => "shouldn't be empty"@,
                Invalid::NotANumber => "should be a decimal number"@,
                Invalid::NotATimestamp => "should be a timestamp with an offset from UTC"@,
                Invalid::TooShort => "should be at least 3 chars"@,
                Invalid::WrongLength => "should be exactly 10 digits"@,
                Invalid::NotDigits => "should contains only ascii digits"@,
            },
    {
        match self {
            Invalid::Empty => "shouldn't be empty",
            Invalid::NotANumber => "should be a decimal number",
            Invalid::NotATimestamp => "should be a timestamp with an offset from UTC",
            Invalid::TooShort => "should be at least 3 chars",
            Invalid::WrongLength => "should be exactly 10 digits",
            Invalid::NotDigits => "should contains only ascii digits",
        }
    }
}

/// What is wrong with `value` as a title.
pub open spec fn title_fault(value: Seq<char>) -> Option<Invalid> {
    if value.len() == 0 {
        Some(Invalid::Empty)
    } else {
        None
    }
}

/// What is wrong with `value` as the name of an organization.
pub open spec fn organization_name_fault(value: Seq<char>) -> Option<Invalid> {
    if value.len() < 3 {
        Some(Invalid::TooShort)
    } else {
        None
    }
}

/// What is wrong with `value` as a tax number: the length is looked at first.
pub open spec fn organization_inn_fault(value: Seq<char>) -> Option<Invalid> {
    if value.len() != 10 {
        Some(Invalid::WrongLength)
    } else if !(forall|i: int| 0 <= i < value.len() ==> is_decimal_digit(#[trigger] value[i])) {
        Some(Invalid::NotDigits)
    } else {
        None
    }
}

/// The digits of a price: what follows the plus sign, if the text starts
/// with one.
pub open spec fn price_digits(value: Seq<char>) -> Seq<char> {
    if value.len() > 0 && value[0] == '+' {
        value.subrange(1, value.len() as int)
    } else {
        value
    }
}

/// The price that `value` writes: decimal digits, after a plus sign or
/// without one, of a number that fits 32 bits.
pub open spec fn price_of(value: Seq<char>) -> Option<u32> {
    if is_number(price_digits(value)) && number_of(price_digits(value)) <= u32::MAX {
        Some(number_of(price_digits(value)) as u32)
    } else {
        None
    }
}

/// Checks a title: it is not empty.
pub fn title_validate(value: &str) -> (checked: Result<(), Invalid>)
    ensures
        checked == match title_fault(value@) {
            Some(fault) => Err::<(), Invalid>(fault),
            None => Ok(()),
        },
{
    if value.is_empty() {
        return Err(Invalid::Empty);
    }
    Ok(())
}

/// Checks the name of an organization: it has 3 characters or more.
pub fn organization_name_validate(value: &str) -> (checked: Result<(), Invalid>)
    ensures
        checked == match organization_name_fault(value@) {
            Some(fault) => Err::<(), Invalid>(fault),
            None => Ok(()),
        },
{
    if value.unicode_len() < 3 {
        return Err(Invalid::TooShort);
    }
    Ok(())
}

/// Checks a tax number: 10 characters, each a decimal digit of ASCII.
pub fn organization_inn_validate(value: &str) -> (checked: Result<(), Invalid>)
    ensures
        checked == match organization_inn_fault(value@) {
            Some(fault) => Err::<(), Invalid>(fault),
            None => Ok(()),
        },
{
    let chars = chars_of(value);
    if chars.len() != 10 {
        return Err(Invalid::WrongLength);
    }
    let mut i: usize = 0;
    while i < chars.len()
        invariant
            i <= chars.len() == 10,
            chars@ == value@,
            forall|k: int| 0 <= k < i ==> is_decimal_digit(#[trigger] chars@[k]),
        decreases chars.len() - i,
    {
        let c = chars[i];
        if !('0' <= c && c <= '9') {
            assert(!is_decimal_digit(value@[i as int]));
            return Err(Invalid::NotDigits);
        }
        i += 1;
    }
    Ok(())
}

/// Numbers written by the first digits of a number stay within it.
pub proof fn lemma_number_grows(digits: Seq<char>, k: int)
    requires
        0 <= k <= digits.len(),
        forall|i: int| 0 <= i < digits.len() ==> is_decimal_digit(#[trigger] digits[i]),
    ensures
        number_of(digits.take(k)) <= number_of(digits),
    decreases digits.len() - k,
{
    if k < digits.len() {
        lemma_number_grows(digits, k + 1);
        assert(digits.take(k + 1).drop_last() =~= digits.take(k));
        assert(is_decimal_digit(digits[k]));
    } else {
        assert(digits.take(k) =~= digits);
    }
}

/// Reads a price.
pub fn read_price(value: &str) -> (price: Option<u32>)
    ensures
        price == price_of(value@),
{
    let chars = chars_of(value);
    let start: usize = if chars.len() > 0 && chars[0] == '+' {
        1
    } else {
        0
    };
    let ghost digits = price_digits(value@);
    assert(digits =~= chars@.subrange(start as int, chars.len() as int));
    if start == chars.len() {
        return None;
    }
    let mut number: u64 = 0;
    let mut i: usize = start;
    while i < chars.len()
        invariant
            start <= i <= chars.len(),
            digits == chars@.subrange(start as int, chars.len() as int),
            digits == price_digits(value@),
            start < chars.len(),
            forall|k: int| 0 <= k < i - start ==> is_decimal_digit(#[trigger] digits[k]),
            number == number_of(digits.take(i - start)),
            number <= u32::MAX,
        decreases chars.len() - i,
    {
        let c = chars[i];
        assert(digits[i - start] == c);
        if !('0' <= c && c <= '9') {
            assert(!is_decimal_digit(digits[i - start]));
            return None;
        }
        let digit: u64 = (c as u32 - 48) as u64;
        number = number * 10 + digit;
        i += 1;
        proof {
            assert(digits.take(i - start).drop_last() =~= digits.take(i - start - 1));
            assert(digits.take(i - start).last() == c);
            assert(digit == digit_value(c));
            assert(number == number_of(digits.take(i - start)));
        }
        if number > u32::MAX as u64 {
            proof {
                if forall|k: int| 0 <= k < digits.len() ==> is_decimal_digit(#[trigger] digits[k]) {
                    lemma_number_grows(digits, i - start);
                }
            }
            return None;
        }
    }
    assert(digits.take(i - start) =~= digits);
    Some(number as u32)
}

/// The title of what was sold: a text that is not empty.
#[derive(Debug, PartialEq, Eq)]
pub struct Title(String);

impl View for Title {
    type V = Seq<char>;

    closed spec fn view(&self) -> Seq<char> {
        self.0@
    }
}

impl Title {
    #[verifier::type_invariant]
    spec fn valid(self) -> bool {
        title_fault(self.0@) is None
    }

    /// The title that `value` writes, or what is wrong with it.
    pub fn new(value: &str) -> (made: Result<Self, Invalid>)
        ensures
            match made {
                Ok(title) => title_fault(value@) is None && title@ == value@,
                Err(fault) => title_fault(value@) == Some(fault),
            },
    {
        match title_validate(value) {
            Ok(()) => Ok(Title(value.to_owned())),
            Err(fault) => Err(fault),
        }
    }

    /// The text of the title, which is not empty.
    pub fn as_str(&self) -> (text: &str)
        ensures
            text@ == self@,
            title_fault(text@) is None,
    {
        proof {
            use_type_invariant(self);
        }
        self.0.as_str()
    }
}

/// A price, in whole units.
#[derive(Debug, Clone, Copy, PartialEq, Eq, Structural)]
pub struct Price(u32);

impl View for Price {
    type V = u32;

    closed spec fn view(&self) -> u32 {
        self.0
    }
}

impl Price {
    /// The price of `value` units.
    pub fn new(value: u32) -> (price: Self)
        ensures
            price@ == value,
    {
        Price(value)
    }

    /// The price that `value` writes in decimal digits.
    pub fn parse(value: &str) -> (made: Result<Self, Invalid>)
        ensures
            match made {
                Ok(price) => price_of(value@) == Some(price@),
                Err(fault) => price_of(value@) is None && fault == Invalid::NotANumber,
            },
    {
        match read_price(value) {
            Some(number) => Ok(Price(number)),
            None => Err(Invalid::NotANumber),
        }
    }

    /// The number of units.
    pub fn value(&self) -> (value: u32)
        ensures
            value == self@,
    {
        self.0
    }
}

/// The name of an organization: 3 characters or more.
#[derive(Debug, PartialEq, Eq)]
pub struct OrganizationName(String);

impl View for OrganizationName {
    type V = Seq<char>;

    closed spec fn view(&self) -> Seq<char> {
        self.0@
    }
}

impl OrganizationName {
    #[verifier::type_invariant]
    spec fn valid(self) -> bool {
        organization_name_fault(self.0@) is None
    }

    /// The name that `value` writes, or what is wrong with it.
    pub fn new(value: &str) -> (made: Result<Self, Invalid>)
        ensures
            match made {
                Ok(name) => organization_name_fault(value@) is None && name@ == value@,
                Err(fault) => organization_name_fault(value@) == Some(fault),
            },
    {
        match organization_name_validate(value) {
            Ok(()) => Ok(OrganizationName(value.to_owned())),
            Err(fault) => Err(fault),
        }
    }

    /// The text of the name, 3 characters or more.
    pub fn as_str(&self) -> (text: &str)
        ensures
            text@ == self@,
            organization_name_fault(text@) is None,
    {
        proof {
            use_type_invariant(self);
        }
        self.0.as_str()
    }
}

/// The tax number of an organization: 10 decimal digits.
#[derive(Debug, PartialEq, Eq)]
pub struct OrganizationINN(String);

impl View for OrganizationINN {
    type V = Seq<char>;

    closed spec fn view(&self) -> Seq<char> {
        self.0@
    }
}

impl OrganizationINN {
    #[verifier::type_invariant]
    spec fn valid(self) -> bool {
        organization_inn_fault(self.0@) is None
    }

    /// The tax number that `value` writes, or what is wrong with it.
    pub fn new(value: &str) -> (made: Result<Self, Invalid>)
        ensures
            match made {
                Ok(inn) => organization_inn_fault(value@) is None && inn@ == value@,
                Err(fault) => organization_inn_fault(value@) == Some(fault),
            },
    {
        match organization_inn_validate(value) {
            Ok(()) => Ok(OrganizationINN(value.to_owned())),
            Err(fault) => Err(fault),
        }
    }

    /// The digits of the tax number, 10 of them.
    pub fn as_str(&self) -> (text: &str)
        ensures
            text@ == self@,
            organization_inn_fault(text@) is None,
    {
        proof {
            use_type_invariant(self);
        }
        self.0.as_str()
    }
}

/// A point in time with its offset from UTC, as plain values.
pub struct Moment {
    /// Seconds since the first second of 1970 in UTC.
    pub seconds: int,
    /// Nanoseconds since the last full second.
    pub nanos: int,
    /// Seconds by which local time is ahead of UTC.
    pub offset: int,
    /// Date, `T`, time of day and offset, as `chrono` writes them.
    pub stamp: Seq<char>,
}

/// The date of a receipt: a point in time with its offset from UTC.
#[derive(Debug, PartialEq, Eq)]
pub struct Date {
    seconds: i64,
    nanos: u32,
    offset: i32,
    stamp: String,
}

impl View for Date {
    type V = Moment;

    closed spec fn view(&self) -> Moment {
        Moment {
            seconds: self.seconds as int,
            nanos: self.nanos as int,
            offset: self.offset as int,
            stamp: self.stamp@,
        }
    }
}

/// What `chrono` makes of `text` as an RFC 3339 timestamp: nothing, or the
/// seconds and nanoseconds since 1970, the offset in seconds, and the moment
/// written again as date, `T`, time of day and offset.
pub uninterp spec fn rfc3339_reading(text: Seq<char>) -> Option<(int, int, int, Seq<char>)>;

/// What `text` says as a date.
pub open spec fn moment_of(text: Seq<char>) -> Option<Moment> {
    match rfc3339_reading(text) {
        Some((seconds, nanos, offset, stamp)) => Some(Moment { seconds, nanos, offset, stamp }),
        None => None,
    }
}

#[verifier::external_type_specification]
#[verifier::external_body]
pub struct ExTimestampError(chrono::ParseError);

/// `DateTime::parse_from_rfc3339` of `chrono`, and of what it returns
/// `timestamp`, `timestamp_subsec_nanos`, `offset().local_minus_utc()` and
/// `format("%FT%X%:z")`. The contract gives that result a name and claims
/// that it depends on the text alone.
#[verifier::external_body]
fn read_rfc3339(text: &str) -> (read: Result<Date, chrono::ParseError>)
    ensures
        match read {
            Ok(date) => rfc3339_reading(text@) == Some(
                (date.seconds as int, date.nanos as int, date.offset as int, date.stamp@),
            ),
            Err(_) => rfc3339_reading(text@) is None,
        },
{
    let parsed = chrono::DateTime::parse_from_rfc3339(text)?;
    Ok(
        Date {
            seconds: parsed.timestamp(),
            nanos: parsed.timestamp_subsec_nanos(),
            offset: parsed.offset().local_minus_utc(),
            stamp: parsed.format("%FT%X%:z").to_string(),
        },
    )
}

impl Date {
    /// The date that `value` writes as an RFC 3339 timestamp, offset
    /// included.
    pub fn parse(value: &str) -> (made: Result<Self, Invalid>)
        ensures
            match made {
                Ok(date) => moment_of(value@) == Some(date@),
                Err(fault) => moment_of(value@) is None && fault == Invalid::NotATimestamp,
            },
    {
        match read_rfc3339(value) {
            Ok(date) => Ok(date),
            Err(_) => Err(Invalid::NotATimestamp),
        }
    }

    /// Seconds since the first second of 1970 in UTC.
    pub fn timestamp(&self) -> (seconds: i64)
        ensures
            seconds == self@.seconds,
    {
        self.seconds
    }

    /// Nanoseconds since the last full second.
    pub fn subsec_nanos(&self) -> (nanos: u32)
        ensures
            nanos == self@.nanos,
    {
        self.nanos
    }

    /// Seconds by which local time is ahead of UTC.
    pub fn offset_seconds(&self) -> (offset: i32)
        ensures
            offset == self@.offset,
    {
        self.offset
    }

    /// Date, `T`, time of day and offset from UTC.
    pub fn stamp(&self) -> (stamp: &str)
        ensures
            stamp@ == self@.stamp,
    {
        self.stamp.as_str()
    }
}

/// The party that a receipt is made out to.
#[derive(Debug, PartialEq, Eq)]
pub enum Counterparty {
    /// A private person.
    Person,
    /// An organization.
    Organization { name: OrganizationName, inn: OrganizationINN },
}

impl Default for Counterparty {
    fn default() -> (party: Self)
        ensures
            party == Counterparty::Person,
    {
        Counterparty::Person
    }
}

/// A receipt.
#[derive(Debug, PartialEq, Eq)]
pub struct Check {
    /// What was sold.
    pub title: Title,
    /// What it cost.
    pub price: Price,
    /// When the receipt was made out.
    pub date: Date,
    /// To whom it was made out.
    pub counterparty: Counterparty,
}

/// The party of a receipt as a mathematical value.
pub enum PartyView {
    Person,
    Organization { name: Seq<char>, inn: Seq<char> },
}

/// A receipt as a mathematical value.
pub struct CheckView {
    pub title: Seq<char>,
    pub price: u32,
    pub date: Moment,
    pub counterparty: PartyView,
}

impl View for Counterparty {
    type V = PartyView;

    open spec fn view(&self) -> PartyView {
        match self {
            Counterparty::Person => PartyView::Person,
            Counterparty::Organization { name, inn } => PartyView::Organization {
                name: name@,
                inn: inn@,
            },
        }
    }
}

impl View for Check {
    type V = CheckView;

    open spec fn view(&self) -> CheckView {
        CheckView {
            title: self.title@,
            price: self.price@,
            date: self.date@,
            counterparty: self.counterparty@,
        }
    }
}

/// A point in time: seconds since the first second of 1970 in UTC, and
/// nanoseconds since that second.
#[derive(Debug, Clone, Copy, PartialEq, Eq, Structural)]
pub struct Instant {
    pub seconds: i64,
    pub nanos: u32,
}

impl Instant {
    /// Whether this point in time lies before `other`.
    pub open spec fn is_before(self, other: Instant) -> bool {
        self.seconds < other.seconds || (self.seconds == other.seconds && self.nanos
            < other.nanos)
    }

    /// Whether this point in time lies before `other`.
    pub fn before(&self, other: &Instant) -> (yes: bool)
        ensures
            yes == self.is_before(*other),
    {
        self.seconds < other.seconds || (self.seconds == other.seconds && self.nanos
            < other.nanos)
    }
}

/// This moment: `timestamp` and `timestamp_subsec_nanos` of what
/// `chrono::Utc::now` returns. Nothing is claimed of the result.
#[verifier::external_body]
fn utc_now() -> Instant {
    let now = chrono::Utc::now();
    Instant { seconds: now.timestamp(), nanos: now.timestamp_subsec_nanos() }
}

/// Why a token was not made.
#[derive(Debug, Clone, Copy, PartialEq, Eq, Structural)]
pub enum TokenNewError {
    /// The value is empty or white space.
    EmptyValue,
    /// The token had expired before it was made.
    AlreadyExpired,
}

impl TokenNewError {
    /// The reason in words.
    pub fn message(&self) -> (text: &'static str)
        ensures
            text@ == match self {
                TokenNewError::EmptyValue => "value is empty"@,
                TokenNewError::AlreadyExpired => "already expired"@,
            },
    {
        match self {
            TokenNewError::EmptyValue => "value is empty",
            TokenNewError::AlreadyExpired => "already expired",
        }
    }
}

/// A token of access or of renewal: a value, and the moment at which it
/// expires, if it does. A token that `new` made has a value that is not
/// empty; one that was stored is taken as it was stored.
#[derive(Debug, PartialEq, Eq)]
pub struct Token {
    value: String,
    expire_at: Option<Instant>,
}

/// A token of access.
pub type AccessToken = Token;

/// A token of renewal.
pub type RefreshToken = Token;

/// Whether a token that expires at `expire_at` has expired at `now`.
pub open spec fn expired_at(expire_at: Option<Instant>, now: Instant) -> bool {
    match expire_at {
        Some(moment) => moment.is_before(now),
        None => false,
    }
}

impl Token {
    /// The value of the token.
    pub closed spec fn value_view(&self) -> Seq<char> {
        self.value@
    }

    /// The moment at which the token expires.
    pub closed spec fn expiry(&self) -> Option<Instant> {
        self.expire_at
    }

    /// The token with the value `value`, white space at its ends left out,
    /// as it stands at `now`: an empty value and a moment of expiry before
    /// `now` are refused, the value first.
    pub fn new_at(value: String, expire_at: Option<Instant>, now: Instant) -> (made: Result<
        Token,
        TokenNewError,
    >)
        ensures
            match made {
                Ok(token) => {
                    &&& trimmed(value@).len() > 0
                    &&& !expired_at(expire_at, now)
                    &&& token.value_view() == trimmed(value@)
                    &&& trimmed(token.value_view()) == token.value_view()
                    &&& token.expiry() == expire_at
                },
                Err(TokenNewError::EmptyValue) => trimmed(value@).len() == 0,
                Err(TokenNewError::AlreadyExpired) => trimmed(value@).len() > 0 && expired_at(
                    expire_at,
                    now,
                ),
            },
    {
        let kept = trim(value.as_str());
        if kept.as_str().is_empty() {
            return Err(TokenNewError::EmptyValue);
        }
        let expired = match &expire_at {
            Some(moment) => moment.before(&now),
            None => false,
        };
        if expired {
            return Err(TokenNewError::AlreadyExpired);
        }
        proof {
            lemma_trimmed_twice(value@);
        }
        Ok(Token { value: kept, expire_at })
    }

    /// The token that was stored with the value `value` and the moment of
    /// expiry `expire_at`, as it was stored: nothing is left out and nothing
    /// is refused.
    pub fn from_stored(value: String, expire_at: Option<Instant>) -> (token: Token)
        ensures
            token.value_view() == value@,
            token.expiry() == expire_at,
    {
        Token { value, expire_at }
    }

    /// The token with the value `value`, white space at its ends left out. An
    /// empty value is refused, and so is a token that has expired by now.
    pub fn new(value: String, expire_at: Option<Instant>) -> (made: Result<Token, TokenNewError>)
        ensures
            match made {
                Ok(token) => {
                    &&& trimmed(value@).len() > 0
                    &&& token.value_view() == trimmed(value@)
                    &&& trimmed(token.value_view()) == token.value_view()
                    &&& token.expiry() == expire_at
                },
                Err(TokenNewError::EmptyValue) => trimmed(value@).len() == 0,
                Err(TokenNewError::AlreadyExpired) => trimmed(value@).len() > 0 && expire_at
                    is Some,
            },
            expire_at is None ==> (made is Ok <==> trimmed(value@).len() > 0),
    {
        let now = utc_now();
        Self::new_at(value, expire_at, now)
    }

    /// Whether the token has expired at `now`.
    pub fn is_expired_at(&self, now: &Instant) -> (expired: bool)
        ensures
            expired == expired_at(self.expiry(), *now),
    {
        match &self.expire_at {
            Some(moment) => moment.before(now),
            None => false,
        }
    }

    /// Whether the token has expired by now. One that never expires has not.
    pub fn is_expired(&self) -> (expired: bool)
        ensures
            self.expiry() is None ==> !expired,
    {
        let now = utc_now();
        self.is_expired_at(&now)
    }

    /// The value of the token.
    pub fn value(&self) -> (value: &str)
        ensures
            value@ == self.value_view(),
    {
        self.value.as_str()
    }

    /// The moment at which the token expires.
    pub fn expire_at(&self) -> (moment: Option<Instant>)
        ensures
            moment == self.expiry(),
    {
        self.expire_at
    }
}

impl Clone for Token {
    fn clone(&self) -> (copy: Self)
        ensures
            copy.value_view() == self.value_view(),
            copy.expiry() == self.expiry(),
    {
        Token { value: self.value.clone(), expire_at: self.expire_at }
    }
}

} // verus!
