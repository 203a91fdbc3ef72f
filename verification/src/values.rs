//! Plain value types that the domain carries: identifiers, fixed-point
//! decimals, calendar dates and instants.

use vstd::prelude::*;
use uuid::Error as UuidError;

verus! {

/// Ten to the power `n`.
pub open spec fn pow10(n: nat) -> int
    decreases n,
{
    if n == 0 { 1 } else { 10 * pow10((n - 1) as nat) }
}

/// Powers of ten grow with the exponent and stay positive.
pub proof fn lemma_pow10_monotonic(a: nat, b: nat)
    requires
        a <= b,
    ensures
        0 < pow10(a) <= pow10(b),
    decreases b,
{
    if a < b {
        lemma_pow10_monotonic(a, (b - 1) as nat);
    } else if b > 0 {
        lemma_pow10_monotonic(0, (b - 1) as nat);
    }
}

/// A UUID, held as its 128-bit big-endian integer value.
pub type Uuid = u128;

/// The largest magnitude a decimal mantissa may have (96 bits).
pub const MAX_MANTISSA: u128 = 79228162514264337593543950335u128;

/// The largest number of fractional digits a decimal may have.
pub const MAX_SCALE: u32 = 28u32;

/// A fixed-point decimal number: `mantissa / 10^scale`, with a 96-bit
/// mantissa and at most 28 fractional digits.
#[derive(Debug, Clone, Copy)]
pub struct Decimal {
    pub(crate) mantissa: i128,
    pub(crate) scale: u32,
}

impl Decimal {
    #[verifier::type_invariant]
    spec fn fits(self) -> bool {
        &&& self.scale <= MAX_SCALE
        &&& -(MAX_MANTISSA as int) <= self.mantissa <= MAX_MANTISSA as int
    }

    /// The mantissa.
    pub closed spec fn spec_mantissa(self) -> i128 {
        self.mantissa
    }

    /// The number of fractional digits.
    pub closed spec fn spec_scale(self) -> u32 {
        self.scale
    }

    /// Whether a mantissa and a scale make a decimal.
    pub open spec fn representable(mantissa: int, scale: int) -> bool {
        &&& 0 <= scale <= MAX_SCALE
        &&& -(MAX_MANTISSA as int) <= mantissa <= MAX_MANTISSA as int
    }

    /// The decimal `mantissa / 10^scale`, if the two fit.
    pub fn new(mantissa: i128, scale: u32) -> (r: Option<Decimal>)
        ensures
            r is Some <==> Decimal::representable(mantissa as int, scale as int),
            r matches Some(d) ==> d.spec_mantissa() == mantissa && d.spec_scale() == scale,
    {
        if scale <= MAX_SCALE && -(MAX_MANTISSA as i128) <= mantissa && mantissa <= MAX_MANTISSA as i128 {
            Some(Decimal { mantissa, scale })
        } else {
            None
        }
    }

    /// The whole number `n`.
    pub fn from_i64(n: i64) -> (r: Decimal)
        ensures
            r.spec_mantissa() == n,
            r.spec_scale() == 0,
    {
        Decimal { mantissa: n as i128, scale: 0 }
    }

    /// Zero.
    pub fn zero() -> (r: Decimal)
        ensures
            r.spec_mantissa() == 0,
            r.spec_scale() == 0,
    {
        Decimal { mantissa: 0, scale: 0 }
    }

    /// The mantissa.
    pub fn mantissa(&self) -> (r: i128)
        ensures
            r == self.spec_mantissa(),
            Decimal::representable(r as int, self.spec_scale() as int),
    {
        proof { use_type_invariant(self); }
        self.mantissa
    }

    /// The number of fractional digits.
    pub fn scale(&self) -> (r: u32)
        ensures
            r == self.spec_scale(),
            Decimal::representable(self.spec_mantissa() as int, r as int),
    {
        proof { use_type_invariant(self); }
        self.scale
    }

    /// The number's sign: negative, zero or positive (-1, 0, 1).
    pub open spec fn sign(self) -> int {
        if self.spec_mantissa() < 0 { -1 } else if self.spec_mantissa() == 0 { 0 } else { 1 }
    }

    /// Whether the number is below zero.
    pub fn is_negative(&self) -> (r: bool)
        ensures
            r == (self.spec_mantissa() < 0),
    {
        self.mantissa < 0
    }

    /// Whether the number is zero or below.
    pub fn is_not_positive(&self) -> (r: bool)
        ensures
            r == (self.spec_mantissa() <= 0),
    {
        self.mantissa <= 0
    }

    /// Whether the number is above the whole number `n` (`n` at most 10^6,
    /// so that `n * 10^scale` fits).
    pub open spec fn exceeds(self, n: int) -> bool {
        self.spec_mantissa() > n * pow10(self.spec_scale() as nat)
    }

    /// Whether the number is above the whole number `n`.
    pub fn is_above(&self, n: u32) -> (r: bool)
        requires
            n <= 1_000_000,
        ensures
            r == self.exceeds(n as int),
    {
        proof { use_type_invariant(self); }
        let mut bound: i128 = n as i128;
        let mut k: u32 = 0;
        while k < self.scale
            invariant
                k <= self.scale <= MAX_SCALE,
                n <= 1_000_000,
                bound == n * pow10(k as nat),
                0 <= bound <= 1_000_000 * pow10(k as nat),
            decreases self.scale - k,
        {
            proof {
                lemma_pow10_monotonic(k as nat, 27);
                reveal_with_fuel(pow10, 29);
                assert(pow10(27) == 1000000000000000000000000000int);
                assert(1_000_000 * pow10(k as nat) <= 1_000_000 * pow10(27)) by (nonlinear_arith)
                    requires pow10(k as nat) <= pow10(27);
                assert(pow10((k + 1) as nat) == 10 * pow10(k as nat));
                lemma_pow10_monotonic(0, k as nat);
            }
            bound = bound * 10;
            k = k + 1;
            proof {
                assert(bound == n * pow10(k as nat)) by (nonlinear_arith)
                    requires bound == 10 * (n * pow10((k - 1) as nat)), pow10(k as nat) == 10 * pow10((k - 1) as nat);
                assert(bound <= 1_000_000 * pow10(k as nat)) by (nonlinear_arith)
                    requires bound == 10 * (n * pow10((k - 1) as nat)), pow10(k as nat) == 10 * pow10((k - 1) as nat), n <= 1_000_000, pow10((k - 1) as nat) > 0;
            }
        }
        self.mantissa > bound
    }
}

impl View for Decimal {
    type V = (i128, u32);

    open spec fn view(&self) -> (i128, u32) {
        (self.spec_mantissa(), self.spec_scale())
    }
}

/// What `rust_decimal::Decimal::checked_add` returns for two decimals, each
/// given as (mantissa, scale); `None` on overflow.
pub uninterp spec fn decimal_sum(a: (i128, u32), b: (i128, u32)) -> Option<(i128, u32)>;

/// What `rust_decimal::Decimal`'s `Display` writes for a decimal given as
/// (mantissa, scale).
pub uninterp spec fn decimal_text(d: (i128, u32)) -> Seq<char>;

/// Adds two decimals with `rust_decimal::Decimal::checked_add`. The sum
/// rescales and may round when the exact sum needs more than 96 bits of
/// mantissa, which takes pages to state: the result is named, `None` where the
/// crate reports overflow.
#[verifier::external_body]
pub(crate) fn checked_add(a: &Decimal, b: &Decimal) -> (r: Option<Decimal>)
    ensures
        match decimal_sum(a@, b@) {
            Some(v) => r matches Some(d) && d@ == v,
            None => r is None,
        },
{
    let x = rust_decimal::Decimal::from_i128_with_scale(a.mantissa, a.scale);
    let y = rust_decimal::Decimal::from_i128_with_scale(b.mantissa, b.scale);
    match x.checked_add(y) {
        Some(z) => Some(Decimal { mantissa: z.mantissa(), scale: z.scale() }),
        None => None,
    }
}

/// Writes a decimal with `rust_decimal::Decimal`'s `Display`; the text is
/// named.
#[verifier::external_body]
pub(crate) fn decimal_to_text(d: &Decimal) -> (r: String)
    ensures
        r@ == decimal_text(d@),
{
    rust_decimal::Decimal::from_i128_with_scale(d.mantissa, d.scale).to_string()
}

/// The decimal digit `d` (0-9) as a character.
pub open spec fn digit_char(d: int) -> char {
    (48 + d) as char
}

/// The decimal form of a whole number, most significant digit first, with no
/// leading zeros.
pub open spec fn decimal_digits(n: nat) -> Seq<char>
    decreases n,
{
    if n < 10 {
        seq![digit_char(n as int)]
    } else {
        decimal_digits(n / 10) + seq![digit_char((n % 10) as int)]
    }
}

/// Writes a whole number with `u64`'s `Display`: its decimal digits.
#[verifier::external_body]
pub(crate) fn u64_to_text(n: u64) -> (r: String)
    ensures
        r@ == decimal_digits(n as nat),
{
    format!("{}", n)
}

/// Sixteen to the power `n`.
pub open spec fn pow16(n: nat) -> int
    decreases n,
{
    if n == 0 { 1 } else { 16 * pow16((n - 1) as nat) }
}

/// The lower-case hexadecimal digit for `d` (0-15).
pub open spec fn hex_char(d: int) -> char {
    if d < 10 { (48 + d) as char } else { (87 + d) as char }
}

/// The `k`-th hexadecimal digit (0-31, most significant first) of a UUID.
pub open spec fn uuid_nibble(v: u128, k: int) -> int {
    (v as int / pow16((31 - k) as nat)) % 16
}

/// The number of hyphens before position `i` of the hyphenated form.
pub open spec fn hyphens_before(i: int) -> int {
    if i > 23 { 4 } else if i > 18 { 3 } else if i > 13 { 2 } else if i > 8 { 1 } else { 0 }
}

/// The hyphenated lower-case form of a UUID: 32 hexadecimal digits in groups
/// of 8-4-4-4-12, joined by hyphens.
pub open spec fn uuid_text(v: u128) -> Seq<char> {
    Seq::new(36, |i: int|
        if i == 8 || i == 13 || i == 18 || i == 23 { '-' }
        else { hex_char(uuid_nibble(v, i - hyphens_before(i))) })
}

/// The version and variant bits of a UUID: a random (version 4, RFC 4122
/// variant) UUID has `0x4` and `0b10` there.
pub open spec fn is_random_uuid(v: u128) -> bool {
    v & 0xF000C000000000000000u128 == 0x40008000000000000000u128
}

/// Makes a random UUID with `uuid::Uuid::new_v4`. The value is chance; what
/// holds of every outcome is that its version and variant bits mark a random
/// UUID (the crate masks them in).
#[verifier::external_body]
pub(crate) fn generate_uuid() -> (r: Uuid)
    ensures
        is_random_uuid(r),
{
    uuid::Uuid::new_v4().as_u128()
}

/// Writes a UUID with `uuid::Uuid`'s `Display`, which is its hyphenated
/// lower-case form.
#[verifier::external_body]
pub(crate) fn uuid_to_text(v: Uuid) -> (r: String)
    ensures
        r@ == uuid_text(v),
{
    uuid::Uuid::from_u128(v).to_string()
}

/// What `uuid::Uuid::parse_str` gives for a text: the UUID, or `None` where
/// the crate reports an error.
pub uninterp spec fn uuid_parse(s: Seq<char>) -> Option<u128>;

#[verifier::external_type_specification]
#[verifier::external_body]
pub struct ExUuidError(UuidError);

/// A parsed UUID, or the `uuid` crate's error.
pub type UuidParse = Result<Uuid, UuidError>;

/// Parses a UUID with `uuid::Uuid::parse_str`. The accepted forms (simple,
/// hyphenated, braced, URN, either case) take more than a few lines, so the
/// result is named; stated beside the name is that the hyphenated lower-case
/// form of a UUID parses back to it.
#[verifier::external_body]
pub(crate) fn parse_uuid(s: &str) -> (r: UuidParse)
    ensures
        match r {
            Ok(u) => uuid_parse(s@) == Some(u),
            Err(_) => uuid_parse(s@) is None,
        },
        forall|v: u128| s@ == uuid_text(v) ==> r == UuidParse::Ok(v),
{
    match uuid::Uuid::parse_str(s) {
        Ok(u) => Ok(u.as_u128()),
        Err(e) => Err(e),
    }
}

/// A calendar date (proleptic Gregorian): year, month (1-12), day (1-31).
#[derive(Debug, Clone, Copy, PartialEq, Eq, Hash, Structural)]
pub struct Date {
    pub year: i32,
    pub month: u32,
    pub day: u32,
}

impl Date {
    /// Chronological order: `self` is on or before `other`.
    pub open spec fn spec_on_or_before(self, other: Date) -> bool {
        ||| self.year < other.year
        ||| (self.year == other.year && self.month < other.month)
        ||| (self.year == other.year && self.month == other.month && self.day <= other.day)
    }

    /// Whether the date is a calendar position: a month from 1 to 12 and a
    /// day from 1 to 31.
    pub open spec fn in_calendar_range(self) -> bool {
        1 <= self.month <= 12 && 1 <= self.day <= 31
    }

    /// A count that grows with time: 512 per year, 32 per month, one per day.
    /// Of two dates in calendar range, the later one has the larger count.
    pub open spec fn day_count(self) -> int {
        self.year * 512 + self.month * 32 + self.day
    }

    /// Whether `self` is on or before `other`.
    pub fn on_or_before(&self, other: &Date) -> (r: bool)
        ensures
            r == self.spec_on_or_before(*other),
    {
        self.year < other.year
            || (self.year == other.year && self.month < other.month)
            || (self.year == other.year && self.month == other.month && self.day <= other.day)
    }
}

/// An instant: whole seconds since the Unix epoch and the nanoseconds past
/// that second.
#[derive(Debug, Clone, Copy, PartialEq, Eq, Hash, Structural)]
pub struct Timestamp {
    pub secs: i64,
    pub nanos: u32,
}

} // verus!
