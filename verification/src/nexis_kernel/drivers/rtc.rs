//! Real-time clock: calendar arithmetic and the CMOS register encoding.
//!
//! Reading and writing the CMOS registers is the caller's part; this module
//! decodes what was read and says what to write.
use vstd::prelude::*;
use crate::nexis_kernel::drivers::{Driver, TimerDriver};
use crate::text::{push_char, push_dec_pad, dec_pad, dec, hex_digit};
use vstd::utf8::{encode_utf8, is_ascii_chars};

verus! {

/// CMOS register select port.
pub const RTC_REGISTER_SELECT: u16 = 0x70;
/// CMOS data port.
pub const RTC_DATA_PORT: u16 = 0x71;
/// Seconds register.
pub const RTC_SECONDS: u8 = 0x00;
/// Minutes register.
pub const RTC_MINUTES: u8 = 0x02;
/// Hours register.
pub const RTC_HOURS: u8 = 0x04;
/// Weekday register.
pub const RTC_WEEKDAY: u8 = 0x06;
/// Day-of-month register.
pub const RTC_DAY: u8 = 0x07;
/// Month register.
pub const RTC_MONTH: u8 = 0x08;
/// Year register (two digits).
pub const RTC_YEAR: u8 = 0x09;
/// Status register A.
pub const RTC_STATUS_A: u8 = 0x0A;
/// Status register B.
pub const RTC_STATUS_B: u8 = 0x0B;
/// Status register C.
pub const RTC_STATUS_C: u8 = 0x0C;
/// Status B: 24-hour mode.
pub const RTC_24_HOUR: u8 = 0x02;
/// Status B: binary (not BCD) values.
pub const RTC_BINARY: u8 = 0x04;
/// Status B: periodic interrupt enable.
pub const RTC_PERIODIC_INTERRUPT: u8 = 0x40;
/// Status B: update-ended interrupt enable.
pub const RTC_UPDATE_INTERRUPT: u8 = 0x10;

/// A calendar date and time.
#[derive(Debug, Clone, Copy, PartialEq, Eq, Structural)]
pub struct DateTime {
    pub year: u16,
    pub month: u8,
    pub day: u8,
    pub weekday: u8,
    pub hour: u8,
    pub minute: u8,
    pub second: u8,
}

/// Gregorian leap years.
pub open spec fn leap(year: int) -> bool {
    (year % 4 == 0 && year % 100 != 0) || year % 400 == 0
}

/// Days in a month of a year (0 for a month outside 1..=12).
pub open spec fn month_days(month: int, year: int) -> int {
    if month == 1 || month == 3 || month == 5 || month == 7 || month == 8 || month == 10 || month == 12 {
        31
    } else if month == 4 || month == 6 || month == 9 || month == 11 {
        30
    } else if month == 2 {
        if leap(year) { 29 } else { 28 }
    } else {
        0
    }
}

/// Days from 1 January 1970 to 1 January of `year`.
pub open spec fn days_before_year(year: int) -> int
    decreases year - 1970,
{
    if year <= 1970 {
        0
    } else {
        days_before_year(year - 1) + (if leap(year - 1) { 366int } else { 365 })
    }
}

/// Days from 1 January to the first of `month` in `year`.
pub open spec fn days_before_month(month: int, year: int) -> int
    decreases month,
{
    if month <= 1 {
        0
    } else {
        days_before_month(month - 1, year) + month_days(month - 1, year)
    }
}

/// Seconds since the Unix epoch, 0 before 1970.
pub open spec fn unix_seconds(dt: DateTime) -> int {
    if dt.year < 1970 {
        0
    } else {
        (days_before_year(dt.year as int) + days_before_month(dt.month as int, dt.year as int) + dt.day
            - 1) * 86400 + dt.hour * 3600 + dt.minute * 60 + dt.second
    }
}

/// A year has twelve months whose days add up to 365, or 366 in a leap
/// year.
pub proof fn law_year_of_months(year: int)
    ensures
        days_before_month(13, year) == (if leap(year) { 366int } else { 365 }),
{
    reveal_with_fuel(days_before_month, 13);
}

/// Within a day, the Unix time counts the seconds since midnight.
pub proof fn law_unix_time_of_day(dt: DateTime)
    requires
        dt.year >= 1970,
    ensures
        unix_seconds(dt) == unix_seconds(DateTime { hour: 0, minute: 0, second: 0, ..dt }) + dt.hour * 3600
            + dt.minute * 60 + dt.second,
{
}

/// The next day of the month starts 86400 seconds later, and the first of
/// the next month (within a year) the days of the month later.
pub proof fn law_unix_day_and_month_steps(dt: DateTime)
    requires
        dt.year >= 1970,
    ensures
        dt.day < 255 ==> unix_seconds(DateTime { day: (dt.day + 1) as u8, ..dt }) == unix_seconds(dt) + 86400,
        1 <= dt.month < 12 ==> unix_seconds(DateTime { month: (dt.month + 1) as u8, day: 1, ..dt }) == unix_seconds(
            DateTime { day: 1, ..dt }) + month_days(dt.month as int, dt.year as int) * 86400,
{
}

/// The first of January of the next year comes 365 days later, or 366
/// after a leap year.
pub proof fn law_unix_year_step(dt: DateTime)
    requires
        1970 <= dt.year < u16::MAX,
        dt.month == 1,
        dt.day == 1,
    ensures
        unix_seconds(DateTime { year: (dt.year + 1) as u16, ..dt }) == unix_seconds(dt) + (if leap(dt.year as int) {
            366int
        } else {
            365
        }) * 86400,
{
}

proof fn lemma_days_before_year_bound(year: int)
    ensures
        0 <= days_before_year(year) <= 366 * (if year > 1970 { year - 1970 } else { 0 }),
    decreases year - 1970,
{
    if year > 1970 {
        lemma_days_before_year_bound(year - 1);
    }
}

proof fn lemma_days_before_month_bound(month: int, year: int)
    ensures
        0 <= days_before_month(month, year) <= 31 * (if month > 1 { month - 1 } else { 0 }),
    decreases month,
{
    if month > 1 {
        lemma_days_before_month_bound(month - 1, year);
    }
}

/// Whether `year` is a leap year.
pub fn is_leap_year(year: u16) -> (r: bool)
    ensures
        r == leap(year as int),
{
    (year % 4 == 0 && year % 100 != 0) || (year % 400 == 0)
}

/// Days in `month` of `year`, 0 for an invalid month.
pub fn days_in_month(month: u8, year: u16) -> (r: u8)
    ensures
        r == month_days(month as int, year as int),
{
    if month == 1 || month == 3 || month == 5 || month == 7 || month == 8 || month == 10 || month == 12 {
        31
    } else if month == 4 || month == 6 || month == 9 || month == 11 {
        30
    } else if month == 2 {
        if is_leap_year(year) { 29 } else { 28 }
    } else {
        0
    }
}

/// `YYYY-MM-DD hh:mm:ss`, each field zero-padded.
pub open spec fn datetime_text(dt: DateTime) -> Seq<char> {
    dec_pad(dt.year as nat, 4) + seq!['-'] + dec_pad(dt.month as nat, 2) + seq!['-'] + dec_pad(dt.day as nat, 2)
        + seq![' '] + dec_pad(dt.hour as nat, 2) + seq![':'] + dec_pad(dt.minute as nat, 2) + seq![':']
        + dec_pad(dt.second as nat, 2)
}

/// A string of at most 32 bytes held in place (`heapless::String<32>`).
#[verifier::external_type_specification]
#[verifier::external_body]
pub struct ExHeaplessString<const N: usize>(heapless::String<N>);

/// The bytes a `heapless::String<32>` holds.
pub uninterp spec fn heapless_bytes(s: heapless::String<32>) -> Seq<u8>;

/// `heapless::String::new`: an empty string.
#[verifier::external_body]
fn heapless_new() -> (r: heapless::String<32>)
    ensures
        heapless_bytes(r) == Seq::<u8>::empty(),
{
    heapless::String::new()
}

/// `heapless::String::push_str`: the text's UTF-8 bytes are appended when
/// they fit in the 32 bytes, otherwise nothing changes and `Err` comes back.
#[verifier::external_body]
fn heapless_push_str(s: &mut heapless::String<32>, t: &str) -> (r: Result<(), ()>)
    ensures
        (r is Ok) == (heapless_bytes(*old(s)).len() + encode_utf8(t@).len() <= 32),
        r is Ok ==> heapless_bytes(*final(s)) == heapless_bytes(*old(s)) + encode_utf8(t@),
        r is Err ==> heapless_bytes(*final(s)) == heapless_bytes(*old(s)),
{
    s.push_str(t)
}

/// Decimal digits are ASCII, and a number below 100000 has at most five.
proof fn lemma_dec_ascii(n: nat)
    ensures
        is_ascii_chars(dec(n)),
        n < 10 ==> dec(n).len() == 1,
        n < 100 ==> dec(n).len() <= 2,
        n < 1000 ==> dec(n).len() <= 3,
        n < 10000 ==> dec(n).len() <= 4,
        n < 100000 ==> dec(n).len() <= 5,
    decreases n,
{
    if n >= 10 {
        lemma_dec_ascii(n / 10);
        let d = hex_digit((n % 10) as int);
        assert('\0' <= d <= '\u{7f}');
        assert(dec(n) == dec(n / 10).push(d));
    } else {
        assert('\0' <= hex_digit(n as int) <= '\u{7f}');
    }
}

/// A padded number below 100000, padded to at most five places, is ASCII
/// and at most five characters long.
proof fn lemma_dec_pad_ascii(n: nat, w: nat)
    requires
        n < 100000,
        w <= 5,
    ensures
        is_ascii_chars(dec_pad(n, w)),
        dec_pad(n, w).len() <= 5,
        n < 1000 && w <= 3 ==> dec_pad(n, w).len() <= 3,
{
    lemma_dec_ascii(n);
    let z = Seq::new((if dec(n).len() < w { w - dec(n).len() } else { 0 }) as nat, |i: int| '0');
    assert(dec_pad(n, w) == z + dec(n));
    assert forall|i: int| 0 <= i < dec_pad(n, w).len() implies '\0' <= #[trigger] dec_pad(n, w)[i] <= '\u{7f}' by {
        if i >= z.len() {
            assert(dec_pad(n, w)[i] == dec(n)[i - z.len()]);
        }
    }
}

/// The date text is ASCII and fits in 32 bytes.
proof fn lemma_datetime_text_fits(dt: DateTime)
    ensures
        is_ascii_chars(datetime_text(dt)),
        encode_utf8(datetime_text(dt)).len() <= 32,
        encode_utf8(datetime_text(dt)) == datetime_text(dt).map_values(|c: char| c as u8),
{
    lemma_dec_pad_ascii(dt.year as nat, 4);
    lemma_dec_pad_ascii(dt.month as nat, 2);
    lemma_dec_pad_ascii(dt.day as nat, 2);
    lemma_dec_pad_ascii(dt.hour as nat, 2);
    lemma_dec_pad_ascii(dt.minute as nat, 2);
    lemma_dec_pad_ascii(dt.second as nat, 2);
    let t = datetime_text(dt);
    assert(is_ascii_chars(t)) by {
        let a = dec_pad(dt.year as nat, 4);
        let b = dec_pad(dt.month as nat, 2);
        let c = dec_pad(dt.day as nat, 2);
        let d = dec_pad(dt.hour as nat, 2);
        let e = dec_pad(dt.minute as nat, 2);
        let f = dec_pad(dt.second as nat, 2);
        assert forall|i: int| 0 <= i < t.len() implies '\0' <= #[trigger] t[i] <= '\u{7f}' by {
            let p1 = a + seq!['-'];
            let p2 = p1 + b;
            let p3 = p2 + seq!['-'];
            let p4 = p3 + c;
            let p5 = p4 + seq![' '];
            let p6 = p5 + d;
            let p7 = p6 + seq![':'];
            let p8 = p7 + e;
            let p9 = p8 + seq![':'];
            assert(t == p9 + f);
            if i < a.len() {
                assert(t[i] == a[i]);
            } else if i < p1.len() {
            } else if i < p2.len() {
                assert(t[i] == b[i - p1.len()]);
            } else if i < p3.len() {
            } else if i < p4.len() {
                assert(t[i] == c[i - p3.len()]);
            } else if i < p5.len() {
            } else if i < p6.len() {
                assert(t[i] == d[i - p5.len()]);
            } else if i < p7.len() {
            } else if i < p8.len() {
                assert(t[i] == e[i - p7.len()]);
            } else if i < p9.len() {
            } else {
                assert(t[i] == f[i - p9.len()]);
            }
        }
    }
    vstd::utf8::is_ascii_chars_encode_utf8(t);
    assert(encode_utf8(t) =~= t.map_values(|c: char| c as u8));
}

impl DateTime {
    /// All fields zero.
    pub fn new() -> (r: Self)
        ensures
            r == (DateTime { year: 0, month: 0, day: 0, weekday: 0, hour: 0, minute: 0, second: 0 }),
    {
        DateTime { year: 0, month: 0, day: 0, weekday: 0, hour: 0, minute: 0, second: 0 }
    }

    /// Seconds since 1970-01-01 00:00:00; 0 for earlier years.
    pub fn to_unix_timestamp(&self) -> (r: u64)
        requires
            self.year >= 1970 ==> self.day >= 1,
        ensures
            r == unix_seconds(*self),
    {
        if self.year < 1970 {
            return 0;
        }
        proof {
            lemma_days_before_year_bound(self.year as int);
            lemma_days_before_month_bound(self.month as int, self.year as int);
        }
        let mut days: u64 = 0;
        let mut year: u16 = 1970;
        while year < self.year
            invariant
                1970 <= year <= self.year,
                days == days_before_year(year as int),
            decreases self.year - year,
        {
            proof {
                lemma_days_before_year_bound(year as int);
            }
            if is_leap_year(year) {
                days = days + 366;
            } else {
                days = days + 365;
            }
            year = year + 1;
        }
        let mut month: u8 = 1;
        while month < self.month
            invariant
                1 <= month,
                month <= (if self.month >= 1 { self.month } else { 1 }),
                days == days_before_year(self.year as int) + days_before_month(month as int, self.year as int),
                days_before_year(self.year as int) <= 366 * 65535,
                self.year >= 1970,
                self.day >= 1,
            decreases self.month - month,
        {
            proof {
                lemma_days_before_month_bound(month as int, self.year as int);
            }
            days = days + days_in_month(month, self.year) as u64;
            month = month + 1;
        }
        proof {
            lemma_days_before_month_bound(month as int, self.year as int);
            assert(days_before_month(month as int, self.year as int) == days_before_month(self.month as int,
                self.year as int));
        }
        days = days + (self.day - 1) as u64;
        let seconds = days * 24 * 60 * 60;
        seconds + (self.hour as u64 * 3600) + (self.minute as u64 * 60) + self.second as u64
    }

    /// `YYYY-MM-DD hh:mm:ss`, in a string of at most 32 bytes (the text
    /// always fits).
    pub fn format(&self) -> (r: heapless::String<32>)
        ensures
            heapless_bytes(r) == encode_utf8(datetime_text(*self)),
            encode_utf8(datetime_text(*self)) == datetime_text(*self).map_values(|c: char| c as u8),
    {
        let mut s = String::new();
        push_dec_pad(&mut s, self.year as u64, 4);
        push_char(&mut s, '-');
        push_dec_pad(&mut s, self.month as u64, 2);
        push_char(&mut s, '-');
        push_dec_pad(&mut s, self.day as u64, 2);
        push_char(&mut s, ' ');
        push_dec_pad(&mut s, self.hour as u64, 2);
        push_char(&mut s, ':');
        push_dec_pad(&mut s, self.minute as u64, 2);
        push_char(&mut s, ':');
        push_dec_pad(&mut s, self.second as u64, 2);
        assert(s@ =~= datetime_text(*self));
        proof {
            lemma_datetime_text_fits(*self);
        }
        let mut h = heapless_new();
        let _ = heapless_push_str(&mut h, s.as_str());
        h
    }
}

/// A binary-coded-decimal byte's value.
pub open spec fn bcd_value(bcd: u8) -> int {
    (bcd % 16) + (bcd / 16) * 10
}

/// The BCD byte of a value: tens shifted into the high nibble (as a byte),
/// units in the low one.
pub open spec fn bcd_encode(b: u8) -> u8 {
    ((b / 10) << 4u32) | (b % 10)
}

/// A register value as written: as is in binary mode, else BCD.
pub open spec fn reg_encode(b: u8, binary: bool) -> u8 {
    if binary { b } else { bcd_encode(b) }
}

/// The register writes hold the date and time, encoded for the mode.
pub open spec fn written_values(w: Seq<(u8, u8)>, dt: DateTime, binary: bool) -> bool {
    &&& w[1].1 == reg_encode(dt.second, binary)
    &&& w[2].1 == reg_encode(dt.minute, binary)
    &&& w[3].1 == reg_encode(dt.hour, binary)
    &&& w[4].1 == reg_encode(dt.day, binary)
    &&& w[5].1 == reg_encode(dt.month, binary)
    &&& w[6].1 == reg_encode((dt.year % 100) as u8, binary)
}

/// Real-time clock driver state.
pub struct RtcDriver {
    pub initialized: bool,
    pub boot_time: u64,
    pub last_update: u64,
    pub tick_count: u64,
    /// The clock registers: as last read from the hardware, with the
    /// status B the driver has set, for the caller to write back.
    pub clock: RtcRegisters,
}

/// The values the clock registers hold, as read.
#[derive(Debug, Clone, Copy, PartialEq, Eq, Structural)]
pub struct RtcRegisters {
    pub status_b: u8,
    pub second: u8,
    pub minute: u8,
    pub hour: u8,
    pub weekday: u8,
    pub day: u8,
    pub month: u8,
    pub year: u8,
}

/// The registers before the first reading: 2000-01-01 00:00:00 in BCD,
/// 12-hour mode.
pub open spec fn power_on_registers() -> RtcRegisters {
    RtcRegisters { status_b: 0, second: 0, minute: 0, hour: 0, weekday: 0, day: 1, month: 1, year: 0 }
}

/// Registers that give a date with a day of the month, in either mode.
pub open spec fn readable(r: RtcRegisters) -> bool {
    r.day != 0
}

/// A set day register decodes to a day of at least 1.
pub proof fn lemma_readable_day(r: RtcRegisters)
    requires
        readable(r),
    ensures
        decode_registers(r).day >= 1,
{
    assert(bcd_value(r.day) <= 165);
}

/// A register value as a number: as is in binary mode, else BCD.
pub open spec fn reg_value(b: u8, binary: bool) -> u8 {
    if binary { b } else { bcd_value(b) as u8 }
}

/// The date and time the registers encode: BCD unless status B says binary;
/// in 12-hour mode a set top bit means PM; two-digit years are in 2000..2099.
pub open spec fn decode_registers(r: RtcRegisters) -> DateTime {
    let binary = r.status_b & RTC_BINARY != 0;
    let hour_24 = r.status_b & RTC_24_HOUR != 0;
    let hour0 = reg_value(r.hour, binary);
    let hour = if !hour_24 && hour0 & 0x80 != 0 { ((hour0 & 0x7F) % 12 + 12) as u8 } else { hour0 };
    let year0: u16 = reg_value(r.year, binary) as u16;
    DateTime {
        year: if year0 < 100 { (year0 + 2000) as u16 } else { year0 },
        month: reg_value(r.month, binary),
        day: reg_value(r.day, binary),
        weekday: r.weekday,
        hour,
        minute: reg_value(r.minute, binary),
        second: reg_value(r.second, binary),
    }
}

impl RtcDriver {
    /// A driver before initialisation and before any reading.
    pub fn new() -> (r: Self)
        ensures
            !r.initialized && r.boot_time == 0 && r.last_update == 0 && r.tick_count == 0,
            r.clock == power_on_registers(),
    {
        RtcDriver {
            initialized: false,
            boot_time: 0,
            last_update: 0,
            tick_count: 0,
            clock: RtcRegisters { status_b: 0, second: 0, minute: 0, hour: 0, weekday: 0, day: 1, month: 1, year: 0 },
        }
    }

    /// Records the registers as just read from the hardware.
    pub fn latch(&mut self, regs: RtcRegisters)
        ensures
            final(self).clock == regs,
            final(self).initialized == old(self).initialized,
            final(self).boot_time == old(self).boot_time,
            final(self).last_update == old(self).last_update,
            final(self).tick_count == old(self).tick_count,
    {
        self.clock = regs;
    }

    /// The value of a BCD byte (wrapping like `u8` arithmetic for invalid digits).
    pub fn bcd_to_binary(bcd: u8) -> (r: u8)
        ensures
            r == bcd_value(bcd),
    {
        let hi = bcd >> 4u8;
        proof {
            assert(bcd >> 4u8 == bcd / 16) by (bit_vector);
            assert(bcd & 0x0Fu8 == bcd % 16) by (bit_vector);
        }
        (bcd & 0x0F).wrapping_add(hi.wrapping_mul(10))
    }

    /// The BCD byte of a value: tens in the high nibble, units in the low
    /// one (the tens wrap for values above 159).
    pub fn binary_to_bcd(binary: u8) -> (r: u8)
        ensures
            r == bcd_encode(binary),
            binary < 100 ==> r == (binary / 10) * 16 + binary % 10,
    {
        let hi = binary / 10;
        let lo = binary % 10;
        proof {
            assert(hi < 10 && lo < 10 ==> ((hi << 4u8) | lo) == hi * 16 + lo) by (bit_vector);
            if binary >= 100 {
                assert(hi <= 25);
            }
        }
        let r = (hi.wrapping_shl(4)) | lo;
        assert(r == bcd_encode(binary));
        r
    }

    /// Decodes the clock registers into a date and time.
    pub fn read_datetime(&self, r: RtcRegisters) -> (dt: DateTime)
        ensures
            dt == decode_registers(r),
    {
        let binary_mode = (r.status_b & RTC_BINARY) != 0;
        let hour_24 = (r.status_b & RTC_24_HOUR) != 0;
        let mut dt = DateTime::new();
        dt.second = r.second;
        dt.minute = r.minute;
        dt.hour = r.hour;
        dt.weekday = r.weekday;
        dt.day = r.day;
        dt.month = r.month;
        dt.year = r.year as u16;
        if !binary_mode {
            dt.second = Self::bcd_to_binary(dt.second);
            dt.minute = Self::bcd_to_binary(dt.minute);
            dt.hour = Self::bcd_to_binary(dt.hour);
            dt.day = Self::bcd_to_binary(dt.day);
            dt.month = Self::bcd_to_binary(dt.month);
            dt.year = Self::bcd_to_binary(dt.year as u8) as u16;
        }
        if !hour_24 && dt.hour & 0x80 != 0 {
            dt.hour = ((dt.hour & 0x7F) % 12) + 12;
        }
        if dt.year < 100 {
            dt.year = dt.year + 2000;
        }
        dt
    }

    /// The register writes that set the clock to `datetime`, given status B:
    /// updates are held (status B with bit 7) while seconds, minutes, hours,
    /// day, month and two-digit year are written, BCD unless status B says
    /// binary, then status B is restored.  An uninitialised clock is refused.
    pub fn set_datetime(&self, datetime: &DateTime, status_b: u8) -> (r: Result<Vec<(u8, u8)>, &'static str>)
        ensures
            !self.initialized ==> r is Err,
            self.initialized ==> (r matches Ok(w) && w@.len() == 8 && w@[0] == (RTC_STATUS_B, status_b | 0x80)
                && w@[1].0 == RTC_SECONDS && w@[2].0 == RTC_MINUTES && w@[3].0 == RTC_HOURS && w@[4].0 == RTC_DAY
                && w@[5].0 == RTC_MONTH && w@[6].0 == RTC_YEAR && w@[7] == (RTC_STATUS_B, status_b)
                && written_values(w@, *datetime, status_b & RTC_BINARY != 0)),
    {
        if !self.initialized {
            return Err("RTC not initialized");
        }
        let binary_mode = (status_b & RTC_BINARY) != 0;
        let second = if binary_mode { datetime.second } else { Self::binary_to_bcd(datetime.second) };
        let minute = if binary_mode { datetime.minute } else { Self::binary_to_bcd(datetime.minute) };
        let hour = if binary_mode { datetime.hour } else { Self::binary_to_bcd(datetime.hour) };
        let day = if binary_mode { datetime.day } else { Self::binary_to_bcd(datetime.day) };
        let month = if binary_mode { datetime.month } else { Self::binary_to_bcd(datetime.month) };
        let year = if binary_mode { (datetime.year % 100) as u8 } else { Self::binary_to_bcd((datetime.year % 100) as u8) };
        let mut w: Vec<(u8, u8)> = Vec::new();
        w.push((RTC_STATUS_B, status_b | 0x80));
        w.push((RTC_SECONDS, second));
        w.push((RTC_MINUTES, minute));
        w.push((RTC_HOURS, hour));
        w.push((RTC_DAY, day));
        w.push((RTC_MONTH, month));
        w.push((RTC_YEAR, year));
        w.push((RTC_STATUS_B, status_b));
        Ok(w)
    }

    /// New values of status A and B that turn on the periodic interrupt at
    /// 1024 Hz; an uninitialised clock is refused.
    pub fn enable_interrupts(&self, status_a: u8, status_b: u8) -> (r: Result<(u8, u8), &'static str>)
        ensures
            !self.initialized ==> r is Err,
            self.initialized ==> r == Ok::<(u8, u8), &'static str>(((status_a & 0xF0) | 0x06, status_b | RTC_PERIODIC_INTERRUPT)),
    {
        if !self.initialized {
            return Err("RTC not initialized");
        }
        Ok(((status_a & 0xF0) | 0x06, status_b | RTC_PERIODIC_INTERRUPT))
    }

    /// New status B with the periodic and update interrupts off.
    pub fn disable_interrupts(&self, status_b: u8) -> (r: u8)
        ensures
            r == status_b & !(RTC_PERIODIC_INTERRUPT | RTC_UPDATE_INTERRUPT),
    {
        status_b & !(RTC_PERIODIC_INTERRUPT | RTC_UPDATE_INTERRUPT)
    }

    /// Counts a clock interrupt.
    pub fn handle_interrupt(&mut self)
        requires
            old(self).tick_count < u64::MAX,
        ensures
            final(self).tick_count == old(self).tick_count + 1,
            final(self).initialized == old(self).initialized,
            final(self).boot_time == old(self).boot_time,
            final(self).last_update == old(self).last_update,
            final(self).clock == old(self).clock,
    {
        self.tick_count = self.tick_count + 1;
    }

    /// Clock interrupts counted.
    pub fn get_tick_count(&self) -> (r: u64)
        ensures
            r == self.tick_count,
    {
        self.tick_count
    }

    /// Seconds since boot given the current time; 0 before boot time is known.
    pub fn get_uptime(&self, current: &DateTime) -> (r: u64)
        requires
            current.year >= 1970 ==> current.day >= 1,
        ensures
            self.boot_time == 0 ==> r == 0,
            self.boot_time != 0 ==> r == (if unix_seconds(*current) >= self.boot_time { unix_seconds(*current)
                - self.boot_time } else { 0 }),
    {
        if self.boot_time == 0 {
            return 0;
        }
        current.to_unix_timestamp().saturating_sub(self.boot_time)
    }

    /// Status B for initialisation: 24-hour binary mode.
    pub fn init_status(&self, status_b: u8) -> (r: u8)
        ensures
            r == status_b | RTC_24_HOUR | RTC_BINARY,
    {
        status_b | RTC_24_HOUR | RTC_BINARY
    }
}

impl Driver for RtcDriver {
    type Error = &'static str;

    open spec fn driver_inv(&self) -> bool {
        readable(self.clock)
    }

    fn name(&self) -> (r: &'static str)
        ensures
            r@ == "Real-Time Clock Driver"@,
    {
        "Real-Time Clock Driver"
    }

    /// Sets 24-hour binary mode in status B, then records the time the
    /// registers give in that mode as the boot time.
    fn init(&mut self) -> (r: Result<(), &'static str>)
        ensures
            r is Ok,
            final(self).initialized,
            final(self).clock == (RtcRegisters {
                status_b: old(self).clock.status_b | RTC_24_HOUR | RTC_BINARY,
                ..old(self).clock
            }),
            final(self).boot_time == unix_seconds(decode_registers(final(self).clock)),
            final(self).last_update == final(self).boot_time,
            final(self).tick_count == old(self).tick_count,
    {
        let status_b = self.init_status(self.clock.status_b);
        self.clock.status_b = status_b;
        let boot = self.read_datetime(self.clock);
        proof {
            lemma_readable_day(self.clock);
        }
        self.boot_time = boot.to_unix_timestamp();
        self.last_update = self.boot_time;
        self.initialized = true;
        Ok(())
    }

    /// Turns the periodic and update interrupts off in status B and marks
    /// the driver uninitialised.
    fn cleanup(&mut self) -> (r: Result<(), &'static str>)
        ensures
            r is Ok,
            !final(self).initialized,
            final(self).clock == (RtcRegisters {
                status_b: old(self).clock.status_b & !(RTC_PERIODIC_INTERRUPT | RTC_UPDATE_INTERRUPT),
                ..old(self).clock
            }),
            final(self).boot_time == old(self).boot_time,
            final(self).last_update == old(self).last_update,
            final(self).tick_count == old(self).tick_count,
    {
        let status_b = self.disable_interrupts(self.clock.status_b);
        self.clock.status_b = status_b;
        self.initialized = false;
        Ok(())
    }

    fn is_initialized(&self) -> (r: bool)
        ensures
            r == self.initialized,
    {
        self.initialized
    }
}

impl TimerDriver for RtcDriver {
    /// Seconds since the Unix epoch of the time the registers hold.
    fn get_timestamp(&self) -> (r: u64)
        ensures
            r == unix_seconds(decode_registers(self.clock)),
    {
        proof {
            lemma_readable_day(self.clock);
        }
        let dt = self.read_datetime(self.clock);
        dt.to_unix_timestamp()
    }

    /// Alarms are not supported: always refused, nothing changed.
    fn set_alarm(&mut self, timestamp: u64) -> (r: Result<(), &'static str>)
        ensures
            r is Err,
            final(self).initialized == old(self).initialized,
            final(self).boot_time == old(self).boot_time,
            final(self).last_update == old(self).last_update,
            final(self).tick_count == old(self).tick_count,
            final(self).clock == old(self).clock,
    {
        Err("RTC alarms not implemented")
    }
}

/// Brings the clock driver up from the registers last read: 24-hour binary
/// mode, and the boot time they then give.
pub fn init(rtc: &mut RtcDriver) -> (r: Result<(), &'static str>)
    requires
        old(rtc).driver_inv(),
    ensures
        r is Ok,
        final(rtc).driver_inv(),
        final(rtc).initialized,
        final(rtc).clock == (RtcRegisters {
            status_b: old(rtc).clock.status_b | RTC_24_HOUR | RTC_BINARY,
            ..old(rtc).clock
        }),
        final(rtc).boot_time == unix_seconds(decode_registers(final(rtc).clock)),
        final(rtc).tick_count == old(rtc).tick_count,
{
    Driver::init(rtc)
}

/// Counts a clock interrupt.
pub fn handle_interrupt(rtc: &mut RtcDriver)
    requires
        old(rtc).tick_count < u64::MAX,
    ensures
        final(rtc).tick_count == old(rtc).tick_count + 1,
        final(rtc).initialized == old(rtc).initialized,
        final(rtc).boot_time == old(rtc).boot_time,
{
    rtc.handle_interrupt();
}

/// Clock interrupts counted.
pub fn get_tick_count(rtc: &RtcDriver) -> (r: u64)
    ensures
        r == rtc.tick_count,
{
    rtc.get_tick_count()
}

/// A monotonic timestamp: the clock interrupt count.
pub fn get_simple_timestamp(rtc: &RtcDriver) -> (r: u64)
    ensures
        r == rtc.tick_count,
{
    get_tick_count(rtc)
}

/// The date and time the clock's registers hold.
pub fn get_current_time(rtc: &RtcDriver, regs: RtcRegisters) -> (dt: DateTime)
    ensures
        dt == decode_registers(regs),
{
    rtc.read_datetime(regs)
}

/// The register writes that set the clock, given status B as read.
pub fn set_current_time(rtc: &RtcDriver, datetime: &DateTime, status_b: u8) -> (r: Result<Vec<(u8, u8)>, &'static str>)
    ensures
        !rtc.initialized ==> r is Err,
        rtc.initialized ==> r is Ok,
{
    rtc.set_datetime(datetime, status_b)
}

/// The time the registers hold, as `YYYY-MM-DD HH:MM:SS`.
pub fn format_current_time(rtc: &RtcDriver, regs: RtcRegisters) -> (r: heapless::String<32>)
    ensures
        heapless_bytes(r) == encode_utf8(datetime_text(decode_registers(regs))),
{
    get_current_time(rtc, regs).format()
}

/// Seconds since the Unix epoch of the time the registers hold.
pub fn get_timestamp(rtc: &RtcDriver, regs: RtcRegisters) -> (r: u64)
    requires
        decode_registers(regs).year >= 1970 ==> decode_registers(regs).day >= 1,
    ensures
        r == unix_seconds(decode_registers(regs)),
{
    let dt = rtc.read_datetime(regs);
    dt.to_unix_timestamp()
}

/// Decoding a BCD byte gives back the value encoded, for values below 100.
pub proof fn law_bcd_round_trip(x: u8)
    requires
        x < 100,
    ensures
        bcd_value(bcd_encode(x)) == x,
{
    let e = bcd_encode(x);
    assert(x < 100 ==> ((x / 10) << 4u32) | (x % 10) == (x / 10) * 16 + x % 10) by (bit_vector);
    assert(e % 16 == x % 10);
    assert(e / 16 == x / 10);
}

/// In 12-hour binary mode the hour register holds the clock hour, 1 to 12,
/// with its top bit set for PM: a PM hour reads as an afternoon hour of the
/// 24-hour day (1 PM is 13, 11 PM is 23, 12 PM is noon, 12), and an AM hour
/// from 1 to 11 reads as itself.
pub proof fn law_twelve_hour_reading(r: RtcRegisters, h: u8, pm: bool)
    requires
        r.status_b & RTC_BINARY != 0,
        r.status_b & RTC_24_HOUR == 0,
        1 <= h <= 12,
        r.hour == (if pm { h | 0x80u8 } else { h }),
    ensures
        pm ==> 12 <= decode_registers(r).hour < 24,
        pm ==> decode_registers(r).hour == (if h == 12 { 12 } else { h + 12 }),
        !pm && h < 12 ==> decode_registers(r).hour == h,
{
    assert((h | 0x80u8) & 0x80u8 != 0 && (h | 0x80u8) & 0x7Fu8 == h) by (bit_vector)
        requires
            h <= 12,
    ;
    assert(h & 0x80u8 == 0) by (bit_vector)
        requires
            h <= 12,
    ;
}

/// The registers a clock holds after `set_datetime` wrote `dt`: the written
/// values, the status byte, and the weekday the clock already had.
pub open spec fn registers_after_set(dt: DateTime, status_b: u8, weekday: u8) -> RtcRegisters {
    let binary = status_b & RTC_BINARY != 0;
    RtcRegisters {
        status_b,
        second: reg_encode(dt.second, binary),
        minute: reg_encode(dt.minute, binary),
        hour: reg_encode(dt.hour, binary),
        weekday,
        day: reg_encode(dt.day, binary),
        month: reg_encode(dt.month, binary),
        year: reg_encode((dt.year % 100) as u8, binary),
    }
}

/// Setting the clock and reading it back gives the time that was set (the
/// weekday is not written and reads as the clock had it), for a time whose
/// fields have two digits, a year in 2000..=2099, and the clock in 24-hour
/// mode.
pub proof fn law_set_then_read(dt: DateTime, status_b: u8, weekday: u8)
    requires
        status_b & RTC_24_HOUR != 0,
        dt.second < 100,
        dt.minute < 100,
        dt.hour < 100,
        dt.day < 100,
        dt.month < 100,
        2000 <= dt.year < 2100,
    ensures
        decode_registers(registers_after_set(dt, status_b, weekday)) == (DateTime { weekday, ..dt }),
{
    let binary = status_b & RTC_BINARY != 0;
    if !binary {
        law_bcd_round_trip(dt.second);
        law_bcd_round_trip(dt.minute);
        law_bcd_round_trip(dt.hour);
        law_bcd_round_trip(dt.day);
        law_bcd_round_trip(dt.month);
        law_bcd_round_trip((dt.year % 100) as u8);
    }
}

} // verus!
