//! The normalized status record that every vendor client produces.

use vstd::prelude::*;
use vstd::string::StringExecFns;
use crate::bandwidth_utils::{TrafficMode, TrafficStatistics};
use crate::json::JsonValue;
use crate::xml::XmlElement;
use crate::text::{
    dec_text, hex_text, prefix, push_dec, push_hex, take_chars, trim_nul, trim_nul_chars,
};
use crate::utils::{bounded_text, copy_string_to_array};

verus! {

/// Width of the PLMN field: the six digits of the longest identifier.
pub const PLMN_WIDTH: usize = 6;

/// Width of the band field.
pub const BAND_WIDTH: usize = 20;

/// Width of the battery status field.
pub const BATTERY_STATUS_WIDTH: usize = 20;

/// Width of the manufacturer and model fields.
pub const DEVICE_TEXT_WIDTH: usize = 40;

/// The kind of network that the modem is on.
#[derive(Copy, Clone, PartialEq, Eq, Structural, Debug)]
pub enum NetworkMode {
    Lte,
    Wcdma,
    Gsm,
    Unknown,
}

/// Signal figures of an LTE cell, with the station and cell numbers that
/// its cell id holds.
#[derive(Copy, Clone, PartialEq, Eq, Structural, Debug)]
pub struct LteSignalInfo {
    pub rsrq: i64,
    pub rsrp: i64,
    pub sinr: i64,
    pub ca_count: i64,
    pub enb: i64,
    pub id: i64,
    pub pci: i64,
}

/// Signal figures of a WCDMA cell, with the controller, node and cell
/// numbers that its cell id holds.
#[derive(Copy, Clone, PartialEq, Eq, Structural, Debug)]
pub struct WcdmaSignalInfo {
    pub rscp: i64,
    pub ecio: i64,
    pub nb: i64,
    pub cc: i64,
    pub rnc: i64,
    pub psc: i64,
}

/// What is known of the signal, by network mode.
#[derive(Copy, Clone, PartialEq, Eq, Structural, Debug)]
pub enum SignalInfo {
    Lte(LteSignalInfo),
    Wcdma(WcdmaSignalInfo),
    /// Neither: the mode is GSM or not known.
    NoInfo,
}

/// The upper half of a WCDMA cell id: the radio network controller.
pub open spec fn wcdma_rnc(cell_id: i64) -> i64 {
    cell_id >> 16
}

/// The lower half of a WCDMA cell id.
pub open spec fn wcdma_id(cell_id: i64) -> i64 {
    cell_id & 0xFFFF
}

/// The upper part of an LTE cell id: the base station.
pub open spec fn lte_enb(cell_id: i64) -> i64 {
    cell_id >> 8
}

/// The lowest eight bits of an LTE cell id: the cell at that station.
pub open spec fn lte_id(cell_id: i64) -> i64 {
    cell_id & 0xFF
}

/// Splits a WCDMA cell id into `(rnc, id, nb, cc)`: the two halves, and
/// the node and the cell number that the lower half holds in decimal.
pub fn split_wcdma_cell_id(cell_id: i64) -> (r: (i64, i64, i64, i64))
    ensures
        r.0 == wcdma_rnc(cell_id),
        r.1 == wcdma_id(cell_id),
        r.2 == wcdma_id(cell_id) / 10,
        r.3 == wcdma_id(cell_id) % 10,
        0 <= r.1 <= 0xFFFF,
{
    let rnc: i64 = cell_id >> 16;
    let id: i64 = cell_id & 0xFFFF;
    assert(0 <= cell_id & 0xFFFF <= 0xFFFF) by (bit_vector);
    (rnc, id, id / 10, id % 10)
}

/// Splits an LTE cell id into `(enb, id)`.
pub fn split_lte_cell_id(cell_id: i64) -> (r: (i64, i64))
    ensures
        r.0 == lte_enb(cell_id),
        r.1 == lte_id(cell_id),
        0 <= r.1 <= 0xFF,
{
    assert(0 <= cell_id & 0xFF <= 0xFF) by (bit_vector);
    (cell_id >> 8, cell_id & 0xFF)
}

/// `s` filled up with NUL characters to `width`; unchanged where it is
/// that long already.
pub open spec fn pad_nul(s: Seq<char>, width: nat) -> Seq<char> {
    if s.len() >= width {
        s
    } else {
        s + Seq::new((width - s.len()) as nat, |i: int| '\0')
    }
}

/// Network identifier: the digits of the country code and of the network
/// code, one after the other.
#[derive(Clone, Debug, PartialEq, Eq)]
pub struct PlmnStatus {
    pub plmn: String,
}

impl View for PlmnStatus {
    type V = Seq<char>;

    open spec fn view(&self) -> Seq<char> {
        self.plmn@
    }
}

/// A network identifier that fits its field is shown with the width of
/// the field, whatever its own length: first the identifier, then NUL
/// characters.
pub proof fn lemma_plmn_has_fixed_width(plmn: PlmnStatus)
    requires
        plmn.wf(),
    ensures
        plmn.text().len() == PLMN_WIDTH,
        plmn.text().take(plmn@.len() as int) == plmn@,
        forall|i: int| plmn@.len() <= i < PLMN_WIDTH ==> plmn.text()[i] == '\0',
{
    assert(plmn.text().take(plmn@.len() as int) =~= plmn@);
}

impl PlmnStatus {
    /// The text fits the field.
    pub open spec fn wf(&self) -> bool {
        self.plmn@.len() <= PLMN_WIDTH
    }

    /// The field as it is shown: always `PLMN_WIDTH` characters, NUL where
    /// the identifier is shorter.
    pub open spec fn text(&self) -> Seq<char> {
        pad_nul(self.plmn@, PLMN_WIDTH as nat)
    }

    /// Keeps of `s` what the field holds: its first six characters. It
    /// never fails.
    pub fn from_str(s: &str) -> (r: Result<PlmnStatus, ()>)
        ensures
            r is Ok,
            r->Ok_0@ == prefix(s@, PLMN_WIDTH as nat),
            r->Ok_0.wf(),
    {
        Ok(PlmnStatus { plmn: take_chars(s, PLMN_WIDTH) })
    }

    /// The field as it is shown.
    pub fn to_text(&self) -> (r: String)
        ensures
            r@ == self.text(),
            self.wf() ==> r@.len() == PLMN_WIDTH,
    {
        let mut out = self.plmn.clone();
        let mut n: usize = self.plmn.as_str().unicode_len();
        let ghost start = n;
        while n < PLMN_WIDTH
            invariant
                start == self.plmn@.len(),
                start <= n,
                start < PLMN_WIDTH ==> n <= PLMN_WIDTH,
                start >= PLMN_WIDTH ==> n == start,
                out@ == self.plmn@ + Seq::new((n - start) as nat, |i: int| '\0'),
            decreases PLMN_WIDTH - n,
        {
            out.push('\0');
            n = n + 1;
        }
        assert(start >= PLMN_WIDTH ==> out@ =~= self.plmn@);
        out
    }
}

/// The charge of the battery in percent, and what the battery is doing.
#[derive(Clone, Debug, PartialEq, Eq)]
pub struct BatteryStatus {
    pub percent: i64,
    pub status: String,
}

/// A battery status with its text as a sequence of characters.
pub struct BatteryStatusView {
    pub percent: i64,
    pub status: Seq<char>,
}

impl View for BatteryStatus {
    type V = BatteryStatusView;

    open spec fn view(&self) -> BatteryStatusView {
        BatteryStatusView { percent: self.percent, status: self.status@ }
    }
}

impl BatteryStatus {
    /// The text fits the field.
    pub open spec fn wf(&self) -> bool {
        self.status@.len() < BATTERY_STATUS_WIDTH
    }

    /// The charge and the field's text.
    pub fn new(percent: i64, status: &str) -> (r: BatteryStatus)
        ensures
            r@ == (BatteryStatusView {
                percent,
                status: bounded_text(status@, BATTERY_STATUS_WIDTH as nat),
            }),
            r.wf(),
    {
        BatteryStatus { percent, status: copy_string_to_array(status, BATTERY_STATUS_WIDTH) }
    }

    /// The charge, and the status text without NUL characters around it.
    pub fn get_battery_percent_and_status(&self) -> (r: (i64, String))
        ensures
            r.0 == self.percent,
            r.1@ == trim_nul(self.status@),
    {
        (self.percent, trim_nul_chars(self.status.as_str()))
    }
}

/// Temperatures in degrees Celsius.
#[derive(Copy, Clone, PartialEq, Eq, Structural, Debug)]
pub struct DeviceTemperature {
    pub device_temp: i64,
    pub battery_temp: i64,
}

/// Who made the modem, and which model it is.
#[derive(Clone, Debug, PartialEq, Eq)]
pub struct DeviceInformation {
    pub manufacturer: String,
    pub model: String,
}

/// Device information with its texts as sequences of characters.
pub struct DeviceInformationView {
    pub manufacturer: Seq<char>,
    pub model: Seq<char>,
}

impl View for DeviceInformation {
    type V = DeviceInformationView;

    open spec fn view(&self) -> DeviceInformationView {
        DeviceInformationView { manufacturer: self.manufacturer@, model: self.model@ }
    }
}

impl DeviceInformation {
    /// Both texts fit their fields.
    pub open spec fn wf(&self) -> bool {
        &&& self.manufacturer@.len() < DEVICE_TEXT_WIDTH
        &&& self.model@.len() < DEVICE_TEXT_WIDTH
    }

    /// Keeps of both texts what their fields hold.
    pub fn from(manufacturer_str: &str, model_str: &str) -> (r: DeviceInformation)
        ensures
            r@ == (DeviceInformationView {
                manufacturer: bounded_text(manufacturer_str@, DEVICE_TEXT_WIDTH as nat),
                model: bounded_text(model_str@, DEVICE_TEXT_WIDTH as nat),
            }),
            r.wf(),
    {
        DeviceInformation {
            manufacturer: copy_string_to_array(manufacturer_str, DEVICE_TEXT_WIDTH),
            model: copy_string_to_array(model_str, DEVICE_TEXT_WIDTH),
        }
    }

    /// Both texts, without NUL characters around them.
    pub fn get_manufacturer_and_model(&self) -> (r: (String, String))
        ensures
            r.0@ == trim_nul(self.manufacturer@),
            r.1@ == trim_nul(self.model@),
    {
        (trim_nul_chars(self.manufacturer.as_str()), trim_nul_chars(self.model.as_str()))
    }
}

/// One snapshot of what a modem reports.
#[derive(Clone, Debug, PartialEq, Eq)]
pub struct ModemStatus {
    pub mode: NetworkMode,
    pub plmn: PlmnStatus,
    pub rssi: i64,
    pub cell_id: i64,
    pub signal_info: SignalInfo,
    pub band: String,
    pub device_info: DeviceInformation,
    pub battery_status: Option<BatteryStatus>,
    pub device_temp: Option<DeviceTemperature>,
    pub traffic_statistics: Option<TrafficStatistics>,
    pub traffic_mode: TrafficMode,
}

/// A status record with every text as a sequence of characters: what the
/// contracts of the vendor clients are stated over.
pub struct ModemStatusView {
    pub mode: NetworkMode,
    pub plmn: Seq<char>,
    pub rssi: i64,
    pub cell_id: i64,
    pub signal_info: SignalInfo,
    pub band: Seq<char>,
    pub device_info: DeviceInformationView,
    pub battery_status: Option<BatteryStatusView>,
    pub device_temp: Option<DeviceTemperature>,
    pub traffic_statistics: Option<TrafficStatistics>,
    pub traffic_mode: TrafficMode,
}

impl ModemStatusView {
    /// The signal information is of the kind that goes with the network
    /// mode, and its cell numbers are those that the cell id holds: for
    /// WCDMA the controller in the upper half and, in the lower half, the
    /// node and the cell as the decimal digits before the last and the
    /// last; for LTE the station above the lowest eight bits, which are
    /// the cell.
    pub open spec fn cell_consistent(self) -> bool {
        match self.signal_info {
            SignalInfo::Wcdma(w) => {
                &&& self.mode == NetworkMode::Wcdma
                &&& w.rnc == self.cell_id >> 16
                &&& w.nb == (self.cell_id & 0xFFFF) / 10
                &&& w.cc == (self.cell_id & 0xFFFF) % 10
            },
            SignalInfo::Lte(l) => {
                &&& self.mode == NetworkMode::Lte
                &&& l.enb == self.cell_id >> 8
                &&& l.id == self.cell_id & 0xFF
            },
            SignalInfo::NoInfo => self.mode != NetworkMode::Wcdma && self.mode != NetworkMode::Lte,
        }
    }

    /// Every text field fits its width.
    pub open spec fn wf(self) -> bool {
        &&& self.plmn.len() <= PLMN_WIDTH
        &&& self.band.len() < BAND_WIDTH
        &&& self.device_info.manufacturer.len() < DEVICE_TEXT_WIDTH
        &&& self.device_info.model.len() < DEVICE_TEXT_WIDTH
        &&& self.battery_status matches Some(b) ==> b.status.len() < BATTERY_STATUS_WIDTH
    }
}

impl View for ModemStatus {
    type V = ModemStatusView;

    open spec fn view(&self) -> ModemStatusView {
        ModemStatusView {
            mode: self.mode,
            plmn: self.plmn@,
            rssi: self.rssi,
            cell_id: self.cell_id,
            signal_info: self.signal_info,
            band: self.band@,
            device_info: self.device_info@,
            battery_status: match self.battery_status {
                Some(b) => Some(b@),
                None => None,
            },
            device_temp: self.device_temp,
            traffic_statistics: self.traffic_statistics,
            traffic_mode: self.traffic_mode,
        }
    }
}

impl ModemStatus {
    /// Every text field fits its width.
    pub open spec fn wf(&self) -> bool {
        self@.wf()
    }

    /// The number of aggregated carriers; zero outside LTE.
    pub open spec fn ca_count(&self) -> i64 {
        match self.signal_info {
            SignalInfo::Lte(lte_info) => lte_info.ca_count,
            _ => 0,
        }
    }

    /// The name of the network mode; LTE with aggregated carriers is
    /// `LTE-A`.
    pub open spec fn mode_text(&self) -> Seq<char> {
        match self.mode {
            NetworkMode::Lte => if self.ca_count() > 0 {
                "LTE-A"@
            } else {
                "LTE"@
            },
            NetworkMode::Wcdma => "WCDMA"@,
            NetworkMode::Gsm => "GSM"@,
            NetworkMode::Unknown => "Unknown"@,
        }
    }

    /// The band, followed by `+nCA` where `n` carriers are aggregated.
    pub open spec fn band_text(&self) -> Seq<char> {
        if self.ca_count() > 0 {
            trim_nul(self.band@) + "+"@ + dec_text(self.ca_count() as int) + "CA"@
        } else {
            trim_nul(self.band@)
        }
    }

    /// The line on the signal that closes the report; empty where there
    /// is no signal information.
    pub open spec fn signal_text(&self) -> Seq<char> {
        match self.signal_info {
            SignalInfo::Wcdma(w) => "\nRSCP : "@ + dec_text(w.rscp as int) + "dBm EC/IO : "@
                + dec_text(w.ecio as int) + "dB"@,
            SignalInfo::Lte(l) => "\nRSRQ/RSRP/SINR : "@ + dec_text(l.rsrq as int) + "dB/"@
                + dec_text(l.rsrp as int) + "dBm/"@ + dec_text(l.sinr as int) + "dB"@,
            SignalInfo::NoInfo => Seq::<char>::empty(),
        }
    }

    /// The whole record as a report of several lines.
    pub open spec fn report(&self) -> Seq<char> {
        "Network mode : "@ + self.mode_text() + "\nRSSI : "@ + dec_text(self.rssi as int)
            + " dBm\nPLMN : "@ + self.plmn.text() + "\nBand : "@ + self.band_text()
            + "\nCell ID : "@ + hex_text(self.cell_id as int) + " / "@ + dec_text(
            self.cell_id as int,
        ) + self.signal_text()
    }

    pub fn get_ca_count(&self) -> (r: i64)
        ensures
            r == self.ca_count(),
    {
        match self.signal_info {
            SignalInfo::Lte(lte_info) => lte_info.ca_count,
            _ => 0,
        }
    }

    pub fn get_mode(&self) -> (r: String)
        ensures
            r@ == self.mode_text(),
    {
        match self.mode {
            NetworkMode::Lte => {
                if self.get_ca_count() > 0 {
                    String::from_str("LTE-A")
                } else {
                    String::from_str("LTE")
                }
            },
            NetworkMode::Wcdma => String::from_str("WCDMA"),
            NetworkMode::Gsm => String::from_str("GSM"),
            NetworkMode::Unknown => String::from_str("Unknown"),
        }
    }

    pub fn get_plmn(&self) -> (r: String)
        ensures
            r@ == self.plmn.text(),
    {
        self.plmn.to_text()
    }

    pub fn get_band(&self) -> (r: String)
        ensures
            r@ == self.band_text(),
    {
        let ca_count = self.get_ca_count();
        let mut band = trim_nul_chars(self.band.as_str());
        if ca_count > 0 {
            band.append("+");
            push_dec(&mut band, ca_count);
            band.append("CA");
        }
        band
    }

    /// The cell id in upper-case hexadecimal and in decimal.
    pub fn get_cell_id_hex_and_dec(&self) -> (r: (String, String))
        ensures
            r.0@ == hex_text(self.cell_id as int),
            r.1@ == dec_text(self.cell_id as int),
    {
        let mut cell_id = String::new();
        push_dec(&mut cell_id, self.cell_id);
        let mut cell_id_hex = String::new();
        push_hex(&mut cell_id_hex, self.cell_id);
        (cell_id_hex, cell_id)
    }

    pub fn get_battery_percent_and_status(&self) -> (r: Option<(i64, String)>)
        ensures
            match (r, self.battery_status) {
                (Some(p), Some(b)) => p.0 == b.percent && p.1@ == trim_nul(b.status@),
                (None, None) => true,
                _ => false,
            },
    {
        match &self.battery_status {
            Some(battery_status) => Some(battery_status.get_battery_percent_and_status()),
            None => None,
        }
    }

    /// The report that the record prints as.
    pub fn to_text(&self) -> (r: String)
        ensures
            r@ == self.report(),
    {
        let mut out = String::from_str("Network mode : ");
        out.append(self.get_mode().as_str());
        out.append("\nRSSI : ");
        push_dec(&mut out, self.rssi);
        out.append(" dBm\nPLMN : ");
        out.append(self.get_plmn().as_str());
        out.append("\nBand : ");
        out.append(self.get_band().as_str());
        out.append("\nCell ID : ");
        push_hex(&mut out, self.cell_id);
        out.append(" / ");
        push_dec(&mut out, self.cell_id);
        match self.signal_info {
            SignalInfo::Wcdma(wcdma_info) => {
                out.append("\nRSCP : ");
                push_dec(&mut out, wcdma_info.rscp);
                out.append("dBm EC/IO : ");
                push_dec(&mut out, wcdma_info.ecio);
                out.append("dB");
            },
            SignalInfo::Lte(lte_info) => {
                out.append("\nRSRQ/RSRP/SINR : ");
                push_dec(&mut out, lte_info.rsrq);
                out.append("dB/");
                push_dec(&mut out, lte_info.rsrp);
                out.append("dBm/");
                push_dec(&mut out, lte_info.sinr);
                out.append("dB");
            },
            SignalInfo::NoInfo => {},
        }
        out
    }
}

/// Why a fetch failed.
#[derive(Copy, Clone, PartialEq, Eq, Structural, Debug)]
pub enum ModemError {
    /// The modem could not be reached, or answered with an HTTP error.
    HttpConnection,
    /// The modem refused the request.
    Access,
    /// A field that the record needs is missing or cannot be read.
    DataParsing,
    /// Anything else.
    Unknown,
}

/// Session cookie and request token of a web session, in this order.
pub type SessionInfo = (String, String);

/// A session as two sequences of characters.
pub open spec fn session_view(session: Option<SessionInfo>) -> Option<(Seq<char>, Seq<char>)> {
    match session {
        Some(pair) => Some((pair.0@, pair.1@)),
        None => None,
    }
}

/// A copy of `session`.
pub fn clone_session(session: &Option<SessionInfo>) -> (r: Option<SessionInfo>)
    ensures
        session_view(r) == session_view(*session),
{
    match session {
        Some(pair) => Some((pair.0.clone(), pair.1.clone())),
        None => None,
    }
}

/// The two kinds of document that modems answer with.
#[derive(Copy, Clone, PartialEq, Eq, Structural, Debug)]
pub enum DocumentKind {
    Json,
    Xml,
}

/// What a client wants read from the modem next: a `GET` of `query` on
/// the modem's host, with the session attached where there is one, and
/// the answer read as a document of the given kind.
#[derive(Clone, Debug, PartialEq, Eq)]
pub struct Request {
    pub kind: DocumentKind,
    pub query: String,
    pub session_token: Option<SessionInfo>,
}

/// A request with its texts as sequences of characters.
pub struct RequestView {
    pub kind: DocumentKind,
    pub query: Seq<char>,
    pub session_token: Option<(Seq<char>, Seq<char>)>,
}

impl View for Request {
    type V = RequestView;

    open spec fn view(&self) -> RequestView {
        RequestView {
            kind: self.kind,
            query: self.query@,
            session_token: session_view(self.session_token),
        }
    }
}

/// A document that the modem answered with.
#[derive(Debug, PartialEq, Eq)]
pub enum Document {
    Json(JsonValue),
    Xml(XmlElement),
}

/// How a fetch goes on after an answer: with another request, or not at
/// all, the cycle having given a record or failed.
#[derive(Debug, PartialEq, Eq)]
pub enum Step<P> {
    Ask(P, Request),
    Done(Result<ModemStatus, ModemError>),
}

/// A vendor's way of fetching one status record. The client never talks
/// to the modem itself: it says what to read, and is handed the answer.
/// A caller starts with `begin`, performs each request and hands the
/// document that came back (`None` where none could be had) to `resume`,
/// until `resume` is done.
pub trait ModemInfoParser: Sized {
    /// An upper bound on the requests still to come after the one that is
    /// out.
    spec fn requests_left(&self) -> nat;

    /// Starts a fetch cycle: the client's state and its first request.
    fn begin() -> (r: (Self, Request));

    /// Takes the answer to the request that is out. Every further request
    /// brings the cycle nearer to its end.
    fn resume(self, answer: Option<Document>) -> (r: Step<Self>)
        ensures
            r matches Step::Ask(next, _) ==> next.requests_left() < self.requests_left(),
    ;
}

} // verus!
