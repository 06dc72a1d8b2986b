//! The generators: one per kind of column, resolved once from the tunables.

use crate::config::RandomGUC;
use crate::datum::Datum;
use crate::datum::DatumView;
use crate::datum::Decimal;
use crate::datum::Interval;
use crate::datum::JsonDocument;
use crate::datum::JsonView;
use crate::datum::RealDraw;
use crate::datum::TypeTag;
use crate::datum::tag_of_oid;
use crate::datum::view_of;
use crate::fakes::bytes16_outcome;
use crate::fakes::date_outcome;
use crate::fakes::fake_bytes16;
use crate::fakes::fake_date;
use crate::fakes::fake_ipv4;
use crate::fakes::fake_text;
use crate::fakes::fake_u32;
use crate::fakes::inclusive_u32_outcome;
use crate::fakes::ipv4_outcome;
use crate::fakes::is_address_text;
use crate::fakes::is_alphanumeric;
use crate::fakes::is_date_text;
use crate::fakes::push_char;
use crate::fakes::text_outcome;
use crate::stream::StreamState;
use crate::stream::int_pow;
use crate::stream::power;
use crate::stream::range_outcome;
use crate::stream::stream_state;
use crate::stream::uniform_i16;
use crate::stream::uniform_i32;
use crate::stream::uniform_i32_inclusive;
use crate::stream::uniform_i64;
use rand_chacha::ChaCha8Rng;
use vstd::prelude::*;

verus! {

/// Lower end of the timestamps drawn, in microseconds: `i64::MIN / 128`.
pub const TIMESTAMP_LOW: i64 = -72057594037927936;

/// Upper end of the timestamps drawn, in microseconds, itself excluded: `i64::MAX / 1024`.
pub const TIMESTAMP_HIGH: i64 = 9007199254740991;

/// Upper end of the `ts` field of a document, in seconds, itself excluded.
pub const EPOCH_HIGH: i32 = 1893427200;

/// Upper end of the days of an interval, itself excluded.
pub const INTERVAL_DAYS: i32 = 5;

/// Upper end of the sub-day part of an interval, itself excluded: the milliseconds of a day.
pub const INTERVAL_REMAINDER: i64 = 86400000;

/// Scale of the coordinates of points, boxes and circles.
pub const POINT_RANGE: u32 = 100;

/// Lower end of the length of the `text` field of a document.
pub const DOCUMENT_TEXT_MIN: usize = 10;

/// Upper end of the length of the `text` field of a document, itself excluded.
pub const DOCUMENT_TEXT_MAX: usize = 20;

/// Number of digits before the point in the `price` field of a document.
pub const PRICE_SCALE: u8 = 5;

/// Number of digits after the point in the `price` field of a document.
pub const PRICE_PRECISION: u8 = 3;

/// Upper end of the `count` field of a document, itself excluded.
pub const COUNT_HIGH: i64 = 20000;

/// Largest number of decimal digits whose power of ten fits the integer draws.
pub const MAX_DIGITS: u8 = 9;

/// `x / 2`, rounded toward zero.
pub open spec fn half(x: int) -> int {
    if x >= 0 {
        x / 2
    } else {
        -((-x) / 2)
    }
}

/// The character of a decimal digit.
pub open spec fn digit_char(d: int) -> char {
    if d == 0 {
        '0'
    } else if d == 1 {
        '1'
    } else if d == 2 {
        '2'
    } else if d == 3 {
        '3'
    } else if d == 4 {
        '4'
    } else if d == 5 {
        '5'
    } else if d == 6 {
        '6'
    } else if d == 7 {
        '7'
    } else if d == 8 {
        '8'
    } else {
        '9'
    }
}

/// A time of day written as `HH:MM:SS`, each field with two digits.
pub open spec fn time_text(hour: int, minute: int, second: int) -> Seq<char> {
    seq![
        digit_char(hour / 10),
        digit_char(hour % 10),
        ':',
        digit_char(minute / 10),
        digit_char(minute % 10),
        ':',
        digit_char(second / 10),
        digit_char(second % 10),
    ]
}

/// The time of day that three draws from `state` give, hour first, and where they leave the
/// stream.
pub open spec fn time_outcome(state: StreamState) -> (Seq<char>, StreamState) {
    let hour = inclusive_u32_outcome(state, 0, 23);
    let minute = inclusive_u32_outcome(hour.1, 0, 59);
    let second = inclusive_u32_outcome(minute.1, 0, 59);
    (time_text(hour.0 as int, minute.0 as int, second.0 as int), second.1)
}

/// The decimal that two draws from `state` give, the whole part first, and where they leave
/// the stream.
pub open spec fn numeric_outcome(state: StreamState, scale: u8, precision: u8) -> (
    Decimal,
    StreamState,
) {
    let whole = range_outcome(state, 32, 0, power(10, scale as nat) - 1);
    let fraction = range_outcome(whole.1, 32, 0, power(10, precision as nat) - 1);
    (Decimal { whole: whole.0 as i32, fraction: fraction.0 as i32, digits: precision }, fraction.1)
}

/// The interval that two draws from `state` give, the days first, and where they leave the
/// stream.
pub open spec fn interval_outcome(state: StreamState) -> (Interval, StreamState) {
    let days = range_outcome(state, 32, 0, INTERVAL_DAYS - 1);
    let micros = range_outcome(days.1, 64, 0, INTERVAL_REMAINDER - 1);
    (Interval { months: 0, days: days.0 as i32, micros: micros.0 as i64 }, micros.1)
}

/// The document that the draws from `state` give, in the order of its fields, and where
/// they leave the stream.
pub open spec fn document_outcome(state: StreamState) -> (JsonView, StreamState) {
    let ts = range_outcome(state, 32, 0, EPOCH_HIGH - 1);
    let text = text_outcome(
        ts.1,
        usize::BITS as int,
        DOCUMENT_TEXT_MIN as nat,
        DOCUMENT_TEXT_MAX as nat,
    );
    let uuid = bytes16_outcome(text.1);
    let price = numeric_outcome(uuid.1, PRICE_SCALE, PRICE_PRECISION);
    let count = range_outcome(price.1, 64, 1, COUNT_HIGH - 1);
    (
        JsonView {
            ts: ts.0 as i32,
            text: text.0,
            uuid: uuid.0,
            price: price.0,
            count: count.0 as i64,
        },
        count.1,
    )
}

/// What holds of every decimal drawn with `scale` digits before the point and `precision`
/// after it.
pub open spec fn is_decimal_of(value: Decimal, scale: u8, precision: u8) -> bool {
    &&& 0 <= value.whole < power(10, scale as nat)
    &&& 0 <= value.fraction < power(10, precision as nat)
    &&& value.digits == precision
}

/// What holds of every time of day drawn.
pub open spec fn is_time_text(text: Seq<char>) -> bool {
    exists|hour: int, minute: int, second: int|
        0 <= hour < 24 && 0 <= minute < 60 && 0 <= second < 60 && text == #[trigger] time_text(
            hour,
            minute,
            second,
        )
}

/// What holds of every document drawn.
pub open spec fn is_document(value: JsonView) -> bool {
    &&& 0 <= value.ts < EPOCH_HIGH
    &&& DOCUMENT_TEXT_MIN <= value.text.len() < DOCUMENT_TEXT_MAX
    &&& forall|i: int| 0 <= i < value.text.len() ==> is_alphanumeric(#[trigger] value.text[i])
    &&& value.uuid.len() == 16
    &&& is_decimal_of(value.price, PRICE_SCALE, PRICE_PRECISION)
    &&& 1 <= value.count < COUNT_HIGH
}

/// The powers of ten that fit a 32-bit integer.
pub proof fn lemma_power_of_ten(digits: nat)
    requires
        digits <= MAX_DIGITS,
    ensures
        1 <= power(10, digits) <= 1000000000,
        digits == 3 ==> power(10, digits) == 1000,
        digits == 5 ==> power(10, digits) == 100000,
{
    reveal_with_fuel(power, 11);
}

/// A unit that yields one value, or none, each time it is run on the stream. It holds what it
/// was resolved with and nothing else.
#[derive(Clone, Copy, Debug, PartialEq, Eq)]
#[allow(inconsistent_fields)]
pub enum ValueGenerator {
    /// A 16-bit integer of `[low, high)`.
    SmallInt { low: i32, high: i32 },
    /// A 32-bit integer of `[low, high)`.
    Integer { low: i32, high: i32 },
    /// A 64-bit integer of `[low, high)`.
    BigInt { low: i64, high: i64 },
    /// `false` or `true`.
    Boolean,
    /// Letters and digits, `min` of them or more, fewer than `max`.
    Text { min: u32, max: u32 },
    /// A calendar date.
    Date,
    /// A time of day.
    Time,
    /// A number of microseconds of `[TIMESTAMP_LOW, TIMESTAMP_HIGH)`.
    Timestamp,
    /// No months, fewer than five days, less than a day's milliseconds.
    Interval,
    /// Sixteen bytes.
    Uuid,
    /// An IPv4 address.
    Inet,
    /// A document of fixed shape.
    Json,
    /// Floating-point numbers, left to the host.
    Real(RealDraw),
    /// Never a value.
    Null,
}

impl ValueGenerator {
    /// Whether the range that the generator draws from holds a value and fits the type drawn.
    pub open spec fn drawable(self) -> bool {
        match self {
            ValueGenerator::SmallInt { low, high } => i16::MIN <= low < high <= i16::MAX,
            ValueGenerator::Integer { low, high } => low < high,
            ValueGenerator::BigInt { low, high } => low < high,
            ValueGenerator::Text { min, max } => min < max,
            _ => true,
        }
    }

    /// What holds of every value that the generator yields.
    pub open spec fn admits(self, value: DatumView) -> bool {
        match self {
            ValueGenerator::SmallInt { low, high } => {
                &&& value matches DatumView::SmallInt(v)
                &&& low <= v < high
            },
            ValueGenerator::Integer { low, high } => {
                &&& value matches DatumView::Integer(v)
                &&& low <= v < high
            },
            ValueGenerator::BigInt { low, high } => {
                &&& value matches DatumView::BigInt(v)
                &&& low <= v < high
            },
            ValueGenerator::Boolean => value is Boolean,
            ValueGenerator::Text { min, max } => {
                &&& value matches DatumView::Text(text)
                &&& min <= text.len() < max
                &&& forall|i: int| 0 <= i < text.len() ==> is_alphanumeric(#[trigger] text[i])
            },
            ValueGenerator::Date => {
                &&& value matches DatumView::Date(text)
                &&& is_date_text(text)
            },
            ValueGenerator::Time => {
                &&& value matches DatumView::Time(text)
                &&& is_time_text(text)
            },
            ValueGenerator::Timestamp => {
                &&& value matches DatumView::Timestamp(v)
                &&& TIMESTAMP_LOW <= v < TIMESTAMP_HIGH
            },
            ValueGenerator::Interval => {
                &&& value matches DatumView::Interval(v)
                &&& v.months == 0
                &&& 0 <= v.days < INTERVAL_DAYS
                &&& 0 <= v.micros < INTERVAL_REMAINDER
            },
            ValueGenerator::Uuid => {
                &&& value matches DatumView::Uuid(bytes)
                &&& bytes.len() == 16
            },
            ValueGenerator::Inet => {
                &&& value matches DatumView::Inet(text)
                &&& is_address_text(text)
            },
            ValueGenerator::Json => {
                &&& value matches DatumView::Json(document)
                &&& is_document(document)
            },
            ValueGenerator::Real(draw) => value == DatumView::Real(draw),
            ValueGenerator::Null => false,
        }
    }

    /// The value that the generator yields on a stream that stands at `state`, and where it
    /// leaves the stream.
    pub open spec fn outcome(self, state: StreamState) -> (Option<DatumView>, StreamState) {
        match self {
            ValueGenerator::SmallInt { low, high } => {
                let drawn = range_outcome(state, 16, low as int, high - 1);
                (Some(DatumView::SmallInt(drawn.0 as i16)), drawn.1)
            },
            ValueGenerator::Integer { low, high } => {
                let drawn = range_outcome(state, 32, low as int, high - 1);
                (Some(DatumView::Integer(drawn.0 as i32)), drawn.1)
            },
            ValueGenerator::BigInt { low, high } => {
                let drawn = range_outcome(state, 64, low as int, high - 1);
                (Some(DatumView::BigInt(drawn.0 as i64)), drawn.1)
            },
            ValueGenerator::Boolean => {
                let drawn = range_outcome(state, 32, 0, 1);
                (Some(DatumView::Boolean(drawn.0 != 0)), drawn.1)
            },
            ValueGenerator::Text { min, max } => {
                let drawn = text_outcome(state, usize::BITS as int, min as nat, max as nat);
                (Some(DatumView::Text(drawn.0)), drawn.1)
            },
            ValueGenerator::Date => {
                let drawn = date_outcome(state);
                (Some(DatumView::Date(drawn.0)), drawn.1)
            },
            ValueGenerator::Time => {
                let drawn = time_outcome(state);
                (Some(DatumView::Time(drawn.0)), drawn.1)
            },
            ValueGenerator::Timestamp => {
                let drawn = range_outcome(state, 64, TIMESTAMP_LOW as int, TIMESTAMP_HIGH - 1);
                (Some(DatumView::Timestamp(drawn.0 as i64)), drawn.1)
            },
            ValueGenerator::Interval => {
                let drawn = interval_outcome(state);
                (Some(DatumView::Interval(drawn.0)), drawn.1)
            },
            ValueGenerator::Uuid => {
                let drawn = bytes16_outcome(state);
                (Some(DatumView::Uuid(drawn.0)), drawn.1)
            },
            ValueGenerator::Inet => {
                let drawn = ipv4_outcome(state);
                (Some(DatumView::Inet(drawn.0)), drawn.1)
            },
            ValueGenerator::Json => {
                let drawn = document_outcome(state);
                (Some(DatumView::Json(drawn.0)), drawn.1)
            },
            ValueGenerator::Real(draw) => (Some(DatumView::Real(draw)), state),
            ValueGenerator::Null => (None, state),
        }
    }
}

/// The generator of each kind of column under the tunables `config`.
pub open spec fn dispatch_spec(tag: TypeTag, config: RandomGUC) -> ValueGenerator {
    match tag {
        TypeTag::SmallInt => ValueGenerator::SmallInt {
            low: half(config.spec_min_integer() as int) as i32,
            high: config.spec_max_integer(),
        },
        TypeTag::Integer => ValueGenerator::Integer {
            low: config.spec_min_integer(),
            high: config.spec_max_integer(),
        },
        TypeTag::BigInt => ValueGenerator::BigInt {
            low: config.spec_min_integer() as i64,
            high: (config.spec_max_integer() * 2) as i64,
        },
        TypeTag::Single => ValueGenerator::Real(
            RealDraw::Single { scale: config.spec_float_scale() as u32 },
        ),
        TypeTag::Double => ValueGenerator::Real(
            RealDraw::Double { scale: config.spec_float_scale() as u32 },
        ),
        TypeTag::Boolean => ValueGenerator::Boolean,
        TypeTag::Text | TypeTag::VarChar | TypeTag::BpChar => ValueGenerator::Text {
            min: config.spec_min_text_length() as u32,
            max: config.spec_max_text_length() as u32,
        },
        TypeTag::Numeric => ValueGenerator::Real(
            RealDraw::Numeric { scale: config.spec_float_scale() as u32 },
        ),
        TypeTag::Date => ValueGenerator::Date,
        TypeTag::Time => ValueGenerator::Time,
        TypeTag::Timestamp => ValueGenerator::Timestamp,
        TypeTag::Interval => ValueGenerator::Interval,
        TypeTag::Uuid => ValueGenerator::Uuid,
        TypeTag::Inet => ValueGenerator::Inet,
        TypeTag::Point => ValueGenerator::Real(RealDraw::Point { range: POINT_RANGE }),
        TypeTag::BoundingBox => ValueGenerator::Real(RealDraw::BoundingBox { range: POINT_RANGE }),
        TypeTag::Circle => ValueGenerator::Real(RealDraw::Circle { range: POINT_RANGE }),
        TypeTag::Json => ValueGenerator::Json,
        TypeTag::SingleArray => ValueGenerator::Real(
            RealDraw::SingleArray {
                scale: config.spec_float_scale() as u32,
                len: config.spec_array_length() as u32,
            },
        ),
        TypeTag::DoubleArray => ValueGenerator::Real(
            RealDraw::DoubleArray {
                scale: config.spec_float_scale() as u32,
                len: config.spec_array_length() as u32,
            },
        ),
        TypeTag::Unsupported => ValueGenerator::Null,
    }
}

/// Resolves the generator of a kind of column. Every kind has one; a kind without support
/// gets the generator that never yields a value.
pub fn dispatch(tag: TypeTag, config: &RandomGUC) -> (generator: ValueGenerator)
    requires
        config.wf(),
    ensures
        generator == dispatch_spec(tag, *config),
        tag is Unsupported <==> generator is Null,
        tag.is_real() <==> generator is Real,
{
    proof {
        config.lemma_wf();
    }
    match tag {
        TypeTag::SmallInt => ValueGenerator::SmallInt {
            low: config.min_integer() / 2,
            high: config.max_integer(),
        },
        TypeTag::Integer => ValueGenerator::Integer {
            low: config.min_integer(),
            high: config.max_integer(),
        },
        TypeTag::BigInt => ValueGenerator::BigInt {
            low: config.min_integer() as i64,
            high: config.max_integer() as i64 * 2,
        },
        TypeTag::Single => ValueGenerator::Real(
            RealDraw::Single { scale: config.float_scale() as u32 },
        ),
        TypeTag::Double => ValueGenerator::Real(
            RealDraw::Double { scale: config.float_scale() as u32 },
        ),
        TypeTag::Boolean => ValueGenerator::Boolean,
        TypeTag::Text | TypeTag::VarChar | TypeTag::BpChar => ValueGenerator::Text {
            min: config.min_text_length() as u32,
            max: config.max_text_length() as u32,
        },
        TypeTag::Numeric => ValueGenerator::Real(
            RealDraw::Numeric { scale: config.float_scale() as u32 },
        ),
        TypeTag::Date => ValueGenerator::Date,
        TypeTag::Time => ValueGenerator::Time,
        TypeTag::Timestamp => ValueGenerator::Timestamp,
        TypeTag::Interval => ValueGenerator::Interval,
        TypeTag::Uuid => ValueGenerator::Uuid,
        TypeTag::Inet => ValueGenerator::Inet,
        TypeTag::Point => ValueGenerator::Real(RealDraw::Point { range: POINT_RANGE }),
        TypeTag::BoundingBox => ValueGenerator::Real(RealDraw::BoundingBox { range: POINT_RANGE }),
        TypeTag::Circle => ValueGenerator::Real(RealDraw::Circle { range: POINT_RANGE }),
        TypeTag::Json => ValueGenerator::Json,
        TypeTag::SingleArray => ValueGenerator::Real(
            RealDraw::SingleArray {
                scale: config.float_scale() as u32,
                len: config.array_length() as u32,
            },
        ),
        TypeTag::DoubleArray => ValueGenerator::Real(
            RealDraw::DoubleArray {
                scale: config.float_scale() as u32,
                len: config.array_length() as u32,
            },
        ),
        TypeTag::Unsupported => ValueGenerator::Null,
    }
}

fn digit(d: u32) -> (c: char)
    requires
        d < 10,
    ensures
        c == digit_char(d as int),
{
    if d == 0 {
        '0'
    } else if d == 1 {
        '1'
    } else if d == 2 {
        '2'
    } else if d == 3 {
        '3'
    } else if d == 4 {
        '4'
    } else if d == 5 {
        '5'
    } else if d == 6 {
        '6'
    } else if d == 7 {
        '7'
    } else if d == 8 {
        '8'
    } else {
        '9'
    }
}

/// Writes a time of day as `HH:MM:SS`.
pub fn format_time(hour: u32, minute: u32, second: u32) -> (text: String)
    requires
        hour < 24,
        minute < 60,
        second < 60,
    ensures
        text@ == time_text(hour as int, minute as int, second as int),
        is_time_text(text@),
{
    let mut text = String::new();
    push_char(&mut text, digit(hour / 10));
    push_char(&mut text, digit(hour % 10));
    push_char(&mut text, ':');
    push_char(&mut text, digit(minute / 10));
    push_char(&mut text, digit(minute % 10));
    push_char(&mut text, ':');
    push_char(&mut text, digit(second / 10));
    push_char(&mut text, digit(second % 10));
    assert(text@ =~= time_text(hour as int, minute as int, second as int));
    text
}

/// Draws a time of day: an hour of `[0, 24)`, then a minute and a second of `[0, 60)`.
pub fn random_time(rng: &mut ChaCha8Rng) -> (text: String)
    ensures
        is_time_text(text@),
        text@ == time_outcome(stream_state(*old(rng))).0,
        stream_state(*final(rng)) == time_outcome(stream_state(*old(rng))).1,
{
    let hour = fake_u32(rng, 0, 23);
    let minute = fake_u32(rng, 0, 59);
    let second = fake_u32(rng, 0, 59);
    format_time(hour, minute, second)
}

/// Draws an IPv4 address in dotted decimal.
pub fn random_ip(rng: &mut ChaCha8Rng) -> (text: String)
    ensures
        is_address_text(text@),
        text@ == ipv4_outcome(stream_state(*old(rng))).0,
        stream_state(*final(rng)) == ipv4_outcome(stream_state(*old(rng))).1,
{
    fake_ipv4(rng)
}

/// Draws a decimal: a whole part of `scale` digits at most, then a fraction of `precision`
/// digits.
pub fn random_numeric(rng: &mut ChaCha8Rng, scale: u8, precision: u8) -> (value: Decimal)
    requires
        scale <= MAX_DIGITS,
        precision <= MAX_DIGITS,
    ensures
        is_decimal_of(value, scale, precision),
        value == numeric_outcome(stream_state(*old(rng)), scale, precision).0,
        stream_state(*final(rng)) == numeric_outcome(stream_state(*old(rng)), scale, precision).1,
{
    proof {
        lemma_power_of_ten(scale as nat);
        lemma_power_of_ten(precision as nat);
    }
    let whole_end = int_pow(10, scale as usize);
    let whole = uniform_i32(rng, 0, whole_end);
    let fraction_end = int_pow(10, precision as usize);
    let fraction = uniform_i32(rng, 0, fraction_end);
    Decimal { whole, fraction, digits: precision }
}

/// Draws an interval: the days, then the remainder.
pub fn random_interval(rng: &mut ChaCha8Rng) -> (value: Interval)
    ensures
        value.months == 0,
        0 <= value.days < INTERVAL_DAYS,
        0 <= value.micros < INTERVAL_REMAINDER,
        value == interval_outcome(stream_state(*old(rng))).0,
        stream_state(*final(rng)) == interval_outcome(stream_state(*old(rng))).1,
{
    let days = uniform_i32(rng, 0, INTERVAL_DAYS);
    let micros = uniform_i64(rng, 0, INTERVAL_REMAINDER);
    Interval { months: 0, days, micros }
}

/// Draws a document, field by field: `ts`, `text`, `uuid`, `price`, `count`.
pub fn random_document(rng: &mut ChaCha8Rng) -> (value: JsonDocument)
    ensures
        is_document(value@),
        value@ == document_outcome(stream_state(*old(rng))).0,
        stream_state(*final(rng)) == document_outcome(stream_state(*old(rng))).1,
{
    let ts = uniform_i32(rng, 0, EPOCH_HIGH);
    let text = fake_text(rng, DOCUMENT_TEXT_MIN, DOCUMENT_TEXT_MAX);
    let uuid = fake_bytes16(rng);
    let price = random_numeric(rng, PRICE_SCALE, PRICE_PRECISION);
    let count = uniform_i64(rng, 1, COUNT_HIGH);
    JsonDocument { ts, text, uuid, price, count }
}

impl ValueGenerator {
    /// Whether the generator can be run.
    pub fn is_drawable(&self) -> (ok: bool)
        ensures
            ok == self.drawable(),
    {
        match self {
            ValueGenerator::SmallInt { low, high } => -32768 <= *low && *low < *high && *high
                <= 32767,
            ValueGenerator::Integer { low, high } => *low < *high,
            ValueGenerator::BigInt { low, high } => *low < *high,
            ValueGenerator::Text { min, max } => *min < *max,
            _ => true,
        }
    }

    /// Runs the generator once. The value is fixed by where the stream stands; the generator
    /// itself holds no state.
    pub fn generate(&self, rng: &mut ChaCha8Rng) -> (value: Option<Datum>)
        requires
            self.drawable(),
        ensures
            self is Null <==> value is None,
            value matches Some(datum) ==> self.admits(datum@),
            view_of(value) == self.outcome(stream_state(*old(rng))).0,
            stream_state(*final(rng)) == self.outcome(stream_state(*old(rng))).1,
    {
        match self {
            ValueGenerator::SmallInt { low, high } => {
                let v = uniform_i16(rng, *low as i16, *high as i16);
                Some(Datum::SmallInt(v))
            },
            ValueGenerator::Integer { low, high } => {
                let v = uniform_i32(rng, *low, *high);
                Some(Datum::Integer(v))
            },
            ValueGenerator::BigInt { low, high } => {
                let v = uniform_i64(rng, *low, *high);
                Some(Datum::BigInt(v))
            },
            ValueGenerator::Boolean => {
                let v = uniform_i32_inclusive(rng, 0, 1);
                Some(Datum::Boolean(v != 0))
            },
            ValueGenerator::Text { min, max } => {
                let v = fake_text(rng, *min as usize, *max as usize);
                Some(Datum::Text(v))
            },
            ValueGenerator::Date => {
                let v = fake_date(rng);
                Some(Datum::Date(v))
            },
            ValueGenerator::Time => {
                let v = random_time(rng);
                Some(Datum::Time(v))
            },
            ValueGenerator::Timestamp => {
                let v = uniform_i64(rng, TIMESTAMP_LOW, TIMESTAMP_HIGH);
                Some(Datum::Timestamp(v))
            },
            ValueGenerator::Interval => {
                let v = random_interval(rng);
                Some(Datum::Interval(v))
            },
            ValueGenerator::Uuid => {
                let v = fake_bytes16(rng);
                Some(Datum::Uuid(v))
            },
            ValueGenerator::Inet => {
                let v = random_ip(rng);
                Some(Datum::Inet(v))
            },
            ValueGenerator::Json => {
                let v = random_document(rng);
                Some(Datum::Json(v))
            },
            ValueGenerator::Real(draw) => Some(Datum::Real(*draw)),
            ValueGenerator::Null => None,
        }
    }
}

/// Draws one value for a column of the type that `oid` names, under the tunables `config`.
/// A type without support yields no value.
pub fn generate_random_data_for_oid(
    oid: u32,
    config: &RandomGUC,
    rng: &mut ChaCha8Rng,
) -> (value: Option<Datum>)
    requires
        config.wf(),
        dispatch_spec(tag_of_oid(oid), *config).drawable(),
    ensures
        tag_of_oid(oid) is Unsupported <==> value is None,
        value matches Some(datum) ==> dispatch_spec(tag_of_oid(oid), *config).admits(datum@),
        view_of(value) == dispatch_spec(tag_of_oid(oid), *config).outcome(
            stream_state(*old(rng)),
        ).0,
        stream_state(*final(rng)) == dispatch_spec(tag_of_oid(oid), *config).outcome(
            stream_state(*old(rng)),
        ).1,
{
    let generator = dispatch(TypeTag::from_oid(oid), config);
    generator.generate(rng)
}

} // verus!
