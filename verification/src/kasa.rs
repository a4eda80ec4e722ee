//! What the plug answers, and the reading that the monitor keeps of an answer.
use vstd::prelude::*;

use crate::text::{append_decimal, decimal, law_decimal_is_unique};
use crate::time::{Timestamp, NANOS_PER_SEC};

verus! {

/// The plug's answer to a request.
#[derive(Debug)]
pub struct KasaResponse {
    pub system: KasaSystemResponse,
    pub power: KasaPowerResponse,
}

#[derive(Debug)]
pub struct KasaSystemResponse {
    pub get_sysinfo: KasaSysinfoResponse,
}

/// Who the plug says it is.
#[derive(Debug)]
pub struct KasaSysinfoResponse {
    pub alias: String,
    pub device_id: String,
    pub model: Option<String>,
    pub sw_ver: Option<String>,
    pub hw_ver: Option<String>,
}

#[derive(Debug)]
pub struct KasaPowerResponse {
    /// Nothing where the plug cannot measure.
    pub get_realtime: Option<KasaRealtimeResponse>,
}

/// What the plug measures.
///
/// The first hardware generation reports fractions of base units; `voltage`, `current`,
/// `power` and `total` hold them cut to whole millivolts, milliamperes, milliwatts
/// and watt hours. The second generation reports whole numbers of named units itself.
#[derive(Clone, Copy, Debug)]
pub struct KasaRealtimeResponse {
    pub current: Option<u64>,
    pub voltage: Option<u64>,
    pub power: Option<u64>,
    pub total: Option<u64>,
    pub voltage_mv: Option<u64>,
    pub current_ma: Option<u64>,
    pub power_mw: Option<u64>,
    pub total_wh: Option<u64>,
}

/// One reading of one plug.
#[derive(Debug, PartialEq)]
pub struct KasaPowerDetails {
    pub alias: String,
    pub device_id: String,
    pub voltage_mv: Option<u64>,
    pub current_ma: Option<u64>,
    pub power_mw: Option<u64>,
    pub total_wh: Option<u64>,
    pub timestamp: Timestamp,
}

/// `first` where it is there, else `second`.
pub open spec fn first_present(first: Option<u64>, second: Option<u64>) -> Option<u64> {
    match first {
        Some(v) => Some(v),
        None => second,
    }
}

/// The value, or zero where there is none.
pub open spec fn or_zero(v: Option<u64>) -> u64 {
    match v {
        Some(x) => x,
        None => 0,
    }
}

/// The text, or the word for a missing one.
pub open spec fn or_unknown(v: Option<String>) -> Seq<char> {
    match v {
        Some(x) => x@,
        None => "unknown"@,
    }
}

fn prefer(first: Option<u64>, second: Option<u64>) -> (r: Option<u64>)
    ensures
        r == first_present(first, second),
{
    match first {
        Some(v) => Some(v),
        None => second,
    }
}

fn text_or_unknown(v: &Option<String>) -> (r: &str)
    ensures
        r@ == or_unknown(*v),
{
    match v {
        Some(x) => x.as_str(),
        None => "unknown",
    }
}

impl KasaSysinfoResponse {
    /// The line that stands for this answer in a log.
    pub open spec fn text(self) -> Seq<char> {
        "alias: "@ + self.alias@ + "deviceId: "@ + self.device_id@ + "model: "@ + or_unknown(
            self.model,
        ) + "sw_ver: "@ + or_unknown(self.sw_ver) + "hw_ver: "@ + or_unknown(self.hw_ver)
    }

    /// Writes this answer for a log.
    pub fn format(&self) -> (r: String)
        ensures
            r@ == self.text(),
    {
        let mut out = String::new();
        out.append("alias: ");
        out.append(self.alias.as_str());
        out.append("deviceId: ");
        out.append(self.device_id.as_str());
        out.append("model: ");
        out.append(text_or_unknown(&self.model));
        out.append("sw_ver: ");
        out.append(text_or_unknown(&self.sw_ver));
        out.append("hw_ver: ");
        out.append(text_or_unknown(&self.hw_ver));
        assert(out@ =~= self.text());
        out
    }
}

impl Clone for KasaPowerDetails {
    fn clone(&self) -> (r: Self)
        ensures
            r == *self,
    {
        KasaPowerDetails {
            alias: self.alias.clone(),
            device_id: self.device_id.clone(),
            voltage_mv: self.voltage_mv,
            current_ma: self.current_ma,
            power_mw: self.power_mw,
            total_wh: self.total_wh,
            timestamp: self.timestamp,
        }
    }
}

impl KasaPowerDetails {
    /// The two readings agree on everything but when they were taken.
    pub open spec fn same_reading(self, other: KasaPowerDetails) -> bool {
        &&& self.alias@ == other.alias@
        &&& self.device_id@ == other.device_id@
        &&& self.voltage_mv == other.voltage_mv
        &&& self.current_ma == other.current_ma
        &&& self.power_mw == other.power_mw
        &&& self.total_wh == other.total_wh
    }

    /// This is what `response` says, which came at `timestamp`. A value in named units is
    /// preferred to one in base units.
    pub open spec fn is_reading_of(self, response: KasaResponse, timestamp: Timestamp) -> bool {
        &&& response.power.get_realtime matches Some(power)
        &&& self.alias == response.system.get_sysinfo.alias
        &&& self.device_id == response.system.get_sysinfo.device_id
        &&& self.voltage_mv == first_present(power.voltage_mv, power.voltage)
        &&& self.current_ma == first_present(power.current_ma, power.current)
        &&& self.power_mw == first_present(power.power_mw, power.power)
        &&& self.total_wh == first_present(power.total_wh, power.total)
        &&& self.timestamp == timestamp
    }

    /// The line that stands for this reading in a log.
    pub open spec fn text(self) -> Seq<char> {
        "alias: "@ + self.alias@ + " deviceId: "@ + self.device_id@ + " voltage: "@ + decimal(
            or_zero(self.voltage_mv) as nat,
        ) + " mv current: "@ + decimal(or_zero(self.current_ma) as nat) + " ma power: "@ + decimal(
            or_zero(self.power_mw) as nat,
        ) + " mw total: "@ + decimal(or_zero(self.total_wh) as nat) + " wh"@
    }

    /// Whether this reading agrees with another on everything but when it was taken.
    pub fn compare_no_ts(&self, other: &KasaPowerDetails) -> (r: bool)
        ensures
            r == self.same_reading(*other),
    {
        self.alias == other.alias && self.device_id == other.device_id && self.voltage_mv
            == other.voltage_mv && self.current_ma == other.current_ma && self.power_mw
            == other.power_mw && self.total_wh == other.total_wh
    }

    /// The reading that an answer holds, which came at `timestamp`.
    pub fn from_response_at(response: KasaResponse, timestamp: Timestamp) -> (r: KasaPowerDetails)
        requires
            response.power.get_realtime is Some,
        ensures
            r.is_reading_of(response, timestamp),
    {
        let system = response.system.get_sysinfo;
        let power = response.power.get_realtime.unwrap();
        KasaPowerDetails {
            alias: system.alias,
            device_id: system.device_id,
            voltage_mv: prefer(power.voltage_mv, power.voltage),
            current_ma: prefer(power.current_ma, power.current),
            power_mw: prefer(power.power_mw, power.power),
            total_wh: prefer(power.total_wh, power.total),
            timestamp,
        }
    }

    /// The reading that an answer holds, which comes now, on a clock at the given offset.
    pub fn from(response: KasaResponse, utc_offset: i32) -> (r: KasaPowerDetails)
        requires
            response.power.get_realtime is Some,
        ensures
            r.is_reading_of(response, r.timestamp),
            r.timestamp.valid(),
            0 <= r.timestamp.secs,
            r.timestamp.nanos < NANOS_PER_SEC,
            r.timestamp.utc_offset == utc_offset,
    {
        KasaPowerDetails::from_response_at(response, Timestamp::now(utc_offset))
    }

    /// Writes this reading for a log.
    pub fn format(&self) -> (r: String)
        ensures
            r@ == self.text(),
    {
        let mut out = String::new();
        out.append("alias: ");
        out.append(self.alias.as_str());
        out.append(" deviceId: ");
        out.append(self.device_id.as_str());
        out.append(" voltage: ");
        append_decimal(&mut out, self.voltage_mv.unwrap_or(0));
        out.append(" mv current: ");
        append_decimal(&mut out, self.current_ma.unwrap_or(0));
        out.append(" ma power: ");
        append_decimal(&mut out, self.power_mw.unwrap_or(0));
        out.append(" mw total: ");
        append_decimal(&mut out, self.total_wh.unwrap_or(0));
        out.append(" wh");
        assert(out@ =~= self.text());
        out
    }
}

/// Agreement but for the time relates every reading to itself, goes both ways and carries
/// over from one reading to the next.
pub proof fn law_same_reading_equivalence(
    a: KasaPowerDetails,
    b: KasaPowerDetails,
    c: KasaPowerDetails,
)
    ensures
        a.same_reading(a),
        a.same_reading(b) == b.same_reading(a),
        a.same_reading(b) && b.same_reading(c) ==> a.same_reading(c),
{
}

/// When a reading was taken has no part in what it agrees with.
pub proof fn law_same_reading_ignores_timestamp(
    a: KasaPowerDetails,
    b: KasaPowerDetails,
    timestamp: Timestamp,
)
    ensures
        a.same_reading(KasaPowerDetails { timestamp, ..b }) == a.same_reading(b),
{
}

/// The reading that is made of an answer, field by field: where the answer has a value in named
/// units the reading holds that one, where it has one in base units only the reading holds
/// this one, and where it has neither the reading has none. Whatever the values are, they are
/// held as they came, with the plug's names and the point at which the answer came.
pub proof fn law_reading_of_response(
    response: KasaResponse,
    timestamp: Timestamp,
    r: KasaPowerDetails,
    power: KasaRealtimeResponse,
)
    requires
        call_ensures(KasaPowerDetails::from_response_at, (response, timestamp), r),
        response.power.get_realtime == Some(power),
    ensures
        power.voltage_mv is Some ==> r.voltage_mv == power.voltage_mv,
        power.voltage_mv is None ==> r.voltage_mv == power.voltage,
        power.current_ma is Some ==> r.current_ma == power.current_ma,
        power.current_ma is None ==> r.current_ma == power.current,
        power.power_mw is Some ==> r.power_mw == power.power_mw,
        power.power_mw is None ==> r.power_mw == power.power,
        power.total_wh is Some ==> r.total_wh == power.total_wh,
        power.total_wh is None ==> r.total_wh == power.total,
        r.alias@ == response.system.get_sysinfo.alias@,
        r.device_id@ == response.system.get_sysinfo.device_id@,
        r.timestamp.secs == timestamp.secs,
        r.timestamp.nanos == timestamp.nanos,
        r.timestamp.utc_offset == timestamp.utc_offset,
        call_requires(KasaPowerDetails::from_response_at, (response, timestamp)),
{
}

/// A reading that is made of an answer now holds the same as one made of it at the point that
/// the clock shows, which is never before 1970 and never inside a leap second.
pub proof fn law_reading_of_response_now(
    response: KasaResponse,
    utc_offset: i32,
    r: KasaPowerDetails,
    at: KasaPowerDetails,
)
    requires
        response.power.get_realtime is Some,
        call_ensures(KasaPowerDetails::from, (response, utc_offset), r),
        call_ensures(KasaPowerDetails::from_response_at, (response, r.timestamp), at),
    ensures
        r == at,
        0 <= r.timestamp.secs <= 8_210_266_876_799,
        r.timestamp.nanos < 1_000_000_000,
        r.timestamp.utc_offset == utc_offset,
        call_requires(KasaPowerDetails::from, (response, utc_offset)),
{
}

/// Two readings compare as the same exactly when all six fields but the time are the same.
pub proof fn law_comparison_sees_every_field(
    a: KasaPowerDetails,
    b: KasaPowerDetails,
    r: bool,
)
    requires
        call_ensures(KasaPowerDetails::compare_no_ts, (&a, &b), r),
    ensures
        r <==> a.alias@ == b.alias@ && a.device_id@ == b.device_id@ && a.voltage_mv
            == b.voltage_mv && a.current_ma == b.current_ma && a.power_mw == b.power_mw
            && a.total_wh == b.total_wh,
{
}

/// A copy of a reading is that reading.
pub proof fn law_copy_is_the_reading(a: KasaPowerDetails, r: KasaPowerDetails)
    requires
        call_ensures(KasaPowerDetails::clone, (&a,), r),
    ensures
        r.alias@ == a.alias@,
        r.device_id@ == a.device_id@,
        r.voltage_mv == a.voltage_mv,
        r.current_ma == a.current_ma,
        r.power_mw == a.power_mw,
        r.total_wh == a.total_wh,
        r.timestamp.secs == a.timestamp.secs,
        r.timestamp.nanos == a.timestamp.nanos,
        r.timestamp.utc_offset == a.timestamp.utc_offset,
{
}

/// `digits` is how the value is written: digits only, no zero in front unless it is all, and a
/// single zero where there is no value.
pub open spec fn writes(digits: Seq<char>, v: Option<u64>) -> bool {
    &&& digits.len() > 0
    &&& forall|i: int| 0 <= i < digits.len() ==> '0' <= #[trigger] digits[i] <= '9'
    &&& digits.len() > 1 ==> digits[0] != '0'
    &&& match v {
        Some(x) => digits.fold_left(0int, |n: int, c: char| n * 10 + (c as int - 48)) == x,
        None => digits == seq!['0'],
    }
}

proof fn lemma_written(digits: Seq<char>, v: Option<u64>)
    requires
        writes(digits, v),
    ensures
        digits == decimal(or_zero(v) as nat),
{
    match v {
        Some(x) => law_decimal_is_unique(digits, x as nat),
        None => {
            assert(digits =~= decimal(0));
        },
    }
}

/// The line about a reading: its names and its four values, each value in decimal behind its
/// own label.
pub proof fn law_line_shows_every_value(
    a: KasaPowerDetails,
    r: String,
    voltage: Seq<char>,
    current: Seq<char>,
    power: Seq<char>,
    energy: Seq<char>,
)
    requires
        call_ensures(KasaPowerDetails::format, (&a,), r),
        writes(voltage, a.voltage_mv),
        writes(current, a.current_ma),
        writes(power, a.power_mw),
        writes(energy, a.total_wh),
    ensures
        r@ == "alias: "@ + a.alias@ + " deviceId: "@ + a.device_id@ + " voltage: "@ + voltage
            + " mv current: "@ + current + " ma power: "@ + power + " mw total: "@ + energy
            + " wh"@,
{
    lemma_written(voltage, a.voltage_mv);
    lemma_written(current, a.current_ma);
    lemma_written(power, a.power_mw);
    lemma_written(energy, a.total_wh);
}

/// The line about the plug shows each of its names; a name that is missing is shown as the word
/// for that, and so reads like one that is this word.
pub proof fn law_line_shows_every_name(
    a: KasaSysinfoResponse,
    r: String,
    model: Seq<char>,
    sw_ver: Seq<char>,
    hw_ver: Seq<char>,
)
    requires
        call_ensures(KasaSysinfoResponse::format, (&a,), r),
        model == (if a.model is Some {
            a.model.unwrap()@
        } else {
            "unknown"@
        }),
        sw_ver == (if a.sw_ver is Some {
            a.sw_ver.unwrap()@
        } else {
            "unknown"@
        }),
        hw_ver == (if a.hw_ver is Some {
            a.hw_ver.unwrap()@
        } else {
            "unknown"@
        }),
    ensures
        r@ == "alias: "@ + a.alias@ + "deviceId: "@ + a.device_id@ + "model: "@ + model
            + "sw_ver: "@ + sw_ver + "hw_ver: "@ + hw_ver,
{
}

} // verus!
