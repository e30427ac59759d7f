//! Date and time encoders: pure formatting rules over calendar values held as
//! plain fields, with full Gregorian validity enforced at construction. A
//! calendar date renders as `YYYY-MM-DD` under the text tag; timestamps render
//! at millisecond precision, the zoned kind with a `±HHMM` offset suffix.

use crate::bindings::ToSql;
use crate::buffer::write_text;
use crate::errors::BindingError;
use crate::numeric::{padded_decimal, spec_pad};
use crate::tags::SnowflakeType;
use vstd::prelude::*;

verus! {

/// Gregorian leap-year rule.
pub open spec fn spec_is_leap_year(y: int) -> bool {
    y % 4 == 0 && (y % 100 != 0 || y % 400 == 0)
}

/// How many days the month has in the year.
pub open spec fn spec_days_in_month(y: int, m: int) -> int {
    if m == 2 {
        if spec_is_leap_year(y) {
            29
        } else {
            28
        }
    } else if m == 4 || m == 6 || m == 9 || m == 11 {
        30
    } else {
        31
    }
}

/// A calendar date the wire format can carry: four-digit year, real month,
/// real day of that month.
pub open spec fn spec_valid_date(y: int, m: int, d: int) -> bool {
    &&& 0 <= y <= 9999
    &&& 1 <= m <= 12
    &&& 1 <= d <= spec_days_in_month(y, m)
}

/// `YYYY-MM-DD`.
pub open spec fn spec_date_text(y: nat, m: nat, d: nat) -> Seq<char> {
    spec_pad(y, 4) + seq!['-'] + spec_pad(m, 2) + seq!['-'] + spec_pad(d, 2)
}

/// `HH:MM:SS.mmm`.
pub open spec fn spec_time_text(h: nat, mi: nat, s: nat, ms: nat) -> Seq<char> {
    spec_pad(h, 2) + seq![':'] + spec_pad(mi, 2) + seq![':'] + spec_pad(s, 2) + seq!['.']
        + spec_pad(ms, 3)
}

/// `±HHMM` for an offset in minutes.
pub open spec fn spec_offset_text(off: int) -> Seq<char> {
    let mag = if off < 0 {
        -off
    } else {
        off
    };
    (if off < 0 {
        seq!['-']
    } else {
        seq!['+']
    }) + spec_pad((mag / 60) as nat, 2) + spec_pad((mag % 60) as nat, 2)
}

/// Law: a date's text always has the `YYYY-MM-DD` shape — ten characters
/// with dashes after the year and the month.
pub proof fn lemma_date_text_shape(y: nat, m: nat, d: nat)
    ensures
        spec_date_text(y, m, d).len() == 10,
        spec_date_text(y, m, d)[4] == '-',
        spec_date_text(y, m, d)[7] == '-',
{
    crate::numeric::lemma_pad_len(y, 4);
    crate::numeric::lemma_pad_len(m, 2);
    crate::numeric::lemma_pad_len(d, 2);
}

/// Whether the year is a Gregorian leap year.
pub fn is_leap_year(y: u16) -> (r: bool)
    ensures
        r == spec_is_leap_year(y as int),
{
    y % 4 == 0 && (y % 100 != 0 || y % 400 == 0)
}

/// How many days the month has in the year.
pub fn days_in_month(y: u16, m: u8) -> (r: u8)
    ensures
        r as int == spec_days_in_month(y as int, m as int),
{
    if m == 2 {
        if is_leap_year(y) {
            29
        } else {
            28
        }
    } else if m == 4 || m == 6 || m == 9 || m == 11 {
        30
    } else {
        31
    }
}

/// A calendar date, valid by construction. Encodes as `YYYY-MM-DD` text.
pub struct SqlDate {
    year: u16,
    month: u8,
    day: u8,
}

impl SqlDate {
    pub closed spec fn spec_year(&self) -> int {
        self.year as int
    }

    pub closed spec fn spec_month(&self) -> int {
        self.month as int
    }

    pub closed spec fn spec_day(&self) -> int {
        self.day as int
    }

    /// Every constructed date is a valid Gregorian calendar date.
    pub open spec fn wf(&self) -> bool {
        spec_valid_date(self.spec_year(), self.spec_month(), self.spec_day())
    }

    /// Builds the date when the fields name a real calendar day.
    pub fn new(year: u16, month: u8, day: u8) -> (r: Option<SqlDate>)
        ensures
            r is Some <==> spec_valid_date(year as int, month as int, day as int),
            r matches Some(d) ==> {
                &&& d.spec_year() == year as int
                &&& d.spec_month() == month as int
                &&& d.spec_day() == day as int
                &&& d.wf()
            },
    {
        if year <= 9999 && 1 <= month && month <= 12 && 1 <= day && day <= days_in_month(
            year,
            month,
        ) {
            Some(SqlDate { year, month, day })
        } else {
            None
        }
    }

    /// The `YYYY-MM-DD` rendering.
    fn render(&self) -> (s: String)
        ensures
            s@ == spec_date_text(self.spec_year() as nat, self.spec_month() as nat, self.spec_day() as nat),
    {
        let mut s = padded_decimal(self.year as u64, 4);
        s.append("-");
        let m = padded_decimal(self.month as u64, 2);
        s.append(m.as_str());
        s.append("-");
        let d = padded_decimal(self.day as u64, 2);
        s.append(d.as_str());
        proof {
            reveal_strlit("-");
            assert(s@ =~= spec_date_text(
                self.spec_year() as nat,
                self.spec_month() as nat,
                self.spec_day() as nat,
            ));
        }
        s
    }
}

impl ToSql for SqlDate {
    open spec fn spec_sql_type(&self) -> SnowflakeType {
        SnowflakeType::Text
    }

    open spec fn spec_present(&self) -> bool {
        true
    }

    open spec fn spec_text(&self) -> Seq<char> {
        spec_date_text(self.spec_year() as nat, self.spec_month() as nat, self.spec_day() as nat)
    }

    open spec fn spec_format(&self) -> Seq<char> {
        Seq::empty()
    }

    open spec fn spec_encodes(&self) -> bool {
        true
    }

    fn sql_type(&self) -> SnowflakeType {
        SnowflakeType::Text
    }

    fn to_sql(&self, out: &mut bytes::BytesMut) -> Result<Option<()>, BindingError> {
        let s = self.render();
        write_text(out, s.as_str());
        Ok(Some(()))
    }

    fn encode_format(&self) -> String {
        String::new()
    }
}

/// A wall-clock timestamp without a zone, valid by construction. Encodes as
/// `YYYY-MM-DD HH:MM:SS.mmm` under the no-zone timestamp tag.
pub struct SqlTimestamp {
    date: SqlDate,
    hour: u8,
    minute: u8,
    second: u8,
    milli: u16,
}

impl SqlTimestamp {
    pub closed spec fn spec_date(&self) -> SqlDate {
        self.date
    }

    pub closed spec fn spec_hour(&self) -> int {
        self.hour as int
    }

    pub closed spec fn spec_minute(&self) -> int {
        self.minute as int
    }

    pub closed spec fn spec_second(&self) -> int {
        self.second as int
    }

    pub closed spec fn spec_milli(&self) -> int {
        self.milli as int
    }

    /// A real calendar day and a real time of day, at millisecond precision.
    pub open spec fn wf(&self) -> bool {
        &&& self.spec_date().wf()
        &&& 0 <= self.spec_hour() < 24
        &&& 0 <= self.spec_minute() < 60
        &&& 0 <= self.spec_second() < 60
        &&& 0 <= self.spec_milli() < 1000
    }

    /// Builds the timestamp when the fields name a real time of day.
    pub fn new(date: SqlDate, hour: u8, minute: u8, second: u8, milli: u16) -> (r: Option<
        SqlTimestamp,
    >)
        requires
            date.wf(),
        ensures
            r is Some <==> (hour < 24 && minute < 60 && second < 60 && milli < 1000),
            r matches Some(t) ==> {
                &&& t.spec_date() == date
                &&& t.spec_hour() == hour as int
                &&& t.spec_minute() == minute as int
                &&& t.spec_second() == second as int
                &&& t.spec_milli() == milli as int
                &&& t.wf()
            },
    {
        if hour < 24 && minute < 60 && second < 60 && milli < 1000 {
            Some(SqlTimestamp { date, hour, minute, second, milli })
        } else {
            None
        }
    }

    /// The text every timestamp kind shares: date, a space, time of day.
    pub open spec fn spec_wall_text(&self) -> Seq<char> {
        spec_date_text(
            self.spec_date().spec_year() as nat,
            self.spec_date().spec_month() as nat,
            self.spec_date().spec_day() as nat,
        ) + seq![' '] + spec_time_text(
            self.spec_hour() as nat,
            self.spec_minute() as nat,
            self.spec_second() as nat,
            self.spec_milli() as nat,
        )
    }

    /// The `YYYY-MM-DD HH:MM:SS.mmm` rendering.
    fn render(&self) -> (s: String)
        ensures
            s@ == self.spec_wall_text(),
    {
        let mut s = self.date.render();
        s.append(" ");
        let h = padded_decimal(self.hour as u64, 2);
        s.append(h.as_str());
        s.append(":");
        let mi = padded_decimal(self.minute as u64, 2);
        s.append(mi.as_str());
        s.append(":");
        let se = padded_decimal(self.second as u64, 2);
        s.append(se.as_str());
        s.append(".");
        let ms = padded_decimal(self.milli as u64, 3);
        s.append(ms.as_str());
        proof {
            reveal_strlit(" ");
            reveal_strlit(":");
            reveal_strlit(".");
            assert(s@ =~= self.spec_wall_text());
        }
        s
    }
}

impl ToSql for SqlTimestamp {
    open spec fn spec_sql_type(&self) -> SnowflakeType {
        SnowflakeType::TimestampNtz
    }

    open spec fn spec_present(&self) -> bool {
        true
    }

    open spec fn spec_text(&self) -> Seq<char> {
        self.spec_wall_text()
    }

    open spec fn spec_format(&self) -> Seq<char> {
        Seq::empty()
    }

    open spec fn spec_encodes(&self) -> bool {
        true
    }

    fn sql_type(&self) -> SnowflakeType {
        SnowflakeType::TimestampNtz
    }

    fn to_sql(&self, out: &mut bytes::BytesMut) -> Result<Option<()>, BindingError> {
        let s = self.render();
        write_text(out, s.as_str());
        Ok(Some(()))
    }

    fn encode_format(&self) -> String {
        String::new()
    }
}

/// A timestamp in the session's local zone: the same wall-clock text as the
/// no-zone kind, under the local-zone tag.
pub struct SqlTimestampLtz(pub SqlTimestamp);

impl ToSql for SqlTimestampLtz {
    open spec fn spec_sql_type(&self) -> SnowflakeType {
        SnowflakeType::TimestampLtz
    }

    open spec fn spec_present(&self) -> bool {
        true
    }

    open spec fn spec_text(&self) -> Seq<char> {
        self.0.spec_wall_text()
    }

    open spec fn spec_format(&self) -> Seq<char> {
        Seq::empty()
    }

    open spec fn spec_encodes(&self) -> bool {
        true
    }

    fn sql_type(&self) -> SnowflakeType {
        SnowflakeType::TimestampLtz
    }

    fn to_sql(&self, out: &mut bytes::BytesMut) -> Result<Option<()>, BindingError> {
        self.0.to_sql(out)
    }

    fn encode_format(&self) -> String {
        String::new()
    }
}

/// A timestamp at a fixed UTC offset: wall-clock text, a space, and the
/// offset as `±HHMM`, under the zoned timestamp tag.
pub struct SqlTimestampTz {
    ts: SqlTimestamp,
    offset_minutes: i16,
}

impl SqlTimestampTz {
    pub closed spec fn spec_ts(&self) -> SqlTimestamp {
        self.ts
    }

    pub closed spec fn spec_offset_minutes(&self) -> int {
        self.offset_minutes as int
    }

    /// The offset stays within one day on either side.
    pub open spec fn wf(&self) -> bool {
        &&& self.spec_ts().wf()
        &&& -1440 < self.spec_offset_minutes() < 1440
    }

    /// Builds the zoned timestamp when the offset stays within one day.
    pub fn new(ts: SqlTimestamp, offset_minutes: i16) -> (r: Option<SqlTimestampTz>)
        requires
            ts.wf(),
        ensures
            r is Some <==> -1440 < offset_minutes < 1440,
            r matches Some(t) ==> {
                &&& t.spec_ts() == ts
                &&& t.spec_offset_minutes() == offset_minutes as int
                &&& t.wf()
            },
    {
        if -1440 < offset_minutes && offset_minutes < 1440 {
            Some(SqlTimestampTz { ts, offset_minutes })
        } else {
            None
        }
    }
}

impl ToSql for SqlTimestampTz {
    open spec fn spec_sql_type(&self) -> SnowflakeType {
        SnowflakeType::TimestampTz
    }

    open spec fn spec_present(&self) -> bool {
        true
    }

    open spec fn spec_text(&self) -> Seq<char> {
        self.spec_ts().spec_wall_text() + seq![' '] + spec_offset_text(self.spec_offset_minutes())
    }

    open spec fn spec_format(&self) -> Seq<char> {
        Seq::empty()
    }

    open spec fn spec_encodes(&self) -> bool {
        true
    }

    fn sql_type(&self) -> SnowflakeType {
        SnowflakeType::TimestampTz
    }

    fn to_sql(&self, out: &mut bytes::BytesMut) -> Result<Option<()>, BindingError> {
        let mut s = self.ts.render();
        s.append(" ");
        let mag: u16 = if self.offset_minutes < 0 {
            s.append("-");
            (-(self.offset_minutes as i32)) as u16
        } else {
            s.append("+");
            self.offset_minutes as u16
        };
        let hh = padded_decimal((mag / 60) as u64, 2);
        s.append(hh.as_str());
        let mm = padded_decimal((mag % 60) as u64, 2);
        s.append(mm.as_str());
        proof {
            reveal_strlit(" ");
            reveal_strlit("-");
            reveal_strlit("+");
            assert(s@ =~= self.spec_text());
        }
        write_text(out, s.as_str());
        Ok(Some(()))
    }

    fn encode_format(&self) -> String {
        String::new()
    }
}

} // verus!
