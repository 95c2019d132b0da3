//! Client for Netgear modems: one JSON document, read without
//! authentication.

use vstd::prelude::*;
use vstd::string::StringExecFns;
use crate::bandwidth_utils::{TrafficMode, TrafficStatistics, SIZE_TB};
use crate::json::{int_at, str_at, JsonValue};
use crate::modem_utils::{
    Document, DocumentKind, ModemInfoParser, Request, RequestView, Step,
    lte_enb, lte_id, split_lte_cell_id, split_wcdma_cell_id, wcdma_id, wcdma_rnc, BatteryStatus,
    BatteryStatusView, DeviceInformation, DeviceInformationView, DeviceTemperature,
    LteSignalInfo, ModemError, ModemStatus, ModemStatusView, NetworkMode, PlmnStatus, SignalInfo,
    WcdmaSignalInfo, BAND_WIDTH, BATTERY_STATUS_WIDTH, DEVICE_TEXT_WIDTH, PLMN_WIDTH,
};
use crate::text::{prefix, str_eq};
use crate::utils::{bounded_text, copy_string_to_array, json_str_as_type, json_str_int};

verus! {

/// The network mode that a service type names.
pub open spec fn mode_by_description(s: Seq<char>) -> NetworkMode {
    if s == "GsmService"@ {
        NetworkMode::Gsm
    } else if s == "WcdmaService"@ {
        NetworkMode::Wcdma
    } else if s == "LteService"@ {
        NetworkMode::Lte
    } else {
        NetworkMode::Unknown
    }
}

pub fn get_mode_by_description(s: &str) -> (r: NetworkMode)
    ensures
        r == mode_by_description(s@),
{
    if str_eq(s, "GsmService") {
        NetworkMode::Gsm
    } else if str_eq(s, "WcdmaService") {
        NetworkMode::Wcdma
    } else if str_eq(s, "LteService") {
        NetworkMode::Lte
    } else {
        NetworkMode::Unknown
    }
}

/// The bits that a byte counter stands for. A counter that is missing, is
/// above `SIZE_TB`, or has no eightfold in an `i64`, counts as zero.
pub open spec fn counter_bits(bytes: Option<i64>) -> i64 {
    match bytes {
        Some(n) => if n <= SIZE_TB && n * 8 >= i64::MIN {
            (n * 8) as i64
        } else {
            0
        },
        None => 0,
    }
}

pub fn counter_to_bits(bytes: Option<i64>) -> (r: i64)
    ensures
        r == counter_bits(bytes),
{
    match bytes {
        Some(n) => if n <= SIZE_TB && n >= i64::MIN / 8 {
            n * 8
        } else {
            0
        },
        None => 0,
    }
}

/// The text of a member of the group `a`.
pub open spec fn text_in(json: JsonValue, a: Seq<char>, b: Seq<char>) -> Option<Seq<char>> {
    str_at(json, seq![a, b])
}

/// The integer that is a member of the group `a`.
pub open spec fn int_in(json: JsonValue, a: Seq<char>, b: Seq<char>) -> Option<i64> {
    int_at(json, seq![a, b])
}

/// One of the signal strength figures.
pub open spec fn strength(json: JsonValue, name: Seq<char>) -> Option<i64> {
    int_at(json, seq!["wwan"@, "signalStrength"@, name])
}

/// The number of aggregated carriers; zero where the document gives none.
pub open spec fn carrier_count(json: JsonValue) -> i64 {
    match int_at(json, seq!["wwan"@, "ca"@, "SCCcount"@]) {
        Some(n) => n,
        None => 0,
    }
}

/// The network mode that the document reports; only meaningful where the
/// service type is present.
pub open spec fn reported_mode(json: JsonValue) -> NetworkMode {
    mode_by_description(text_in(json, "wwan"@, "currentNWserviceType"@).unwrap())
}

/// The fields that every document must hold.
pub open spec fn has_general_fields(json: JsonValue) -> bool {
    &&& text_in(json, "wwan"@, "currentNWserviceType"@) is Some
    &&& strength(json, "rssi"@) is Some
    &&& text_in(json, "wwanadv"@, "MCC"@) is Some
    &&& text_in(json, "wwanadv"@, "MNC"@) is Some
    &&& text_in(json, "wwanadv"@, "curBand"@) is Some
    &&& int_in(json, "wwanadv"@, "cellId"@) is Some
    &&& text_in(json, "general"@, "companyName"@) is Some
    &&& text_in(json, "general"@, "deviceName"@) is Some
    &&& int_in(json, "power"@, "battChargeLevel"@) is Some
    &&& text_in(json, "power"@, "battChargeSource"@) is Some
    &&& int_in(json, "general"@, "devTemperature"@) is Some
    &&& int_in(json, "power"@, "batteryTemperature"@) is Some
}

/// The fields that the reported network mode asks for on top.
pub open spec fn has_signal_fields(json: JsonValue) -> bool {
    match reported_mode(json) {
        NetworkMode::Wcdma => {
            &&& strength(json, "rscp"@) is Some
            &&& strength(json, "ecio"@) is Some
            &&& int_in(json, "wwanadv"@, "primScode"@) is Some
        },
        NetworkMode::Lte => {
            &&& strength(json, "rsrq"@) is Some
            &&& strength(json, "rsrp"@) is Some
            &&& strength(json, "sinr"@) is Some
            &&& int_in(json, "wwanadv"@, "primScode"@) is Some
        },
        _ => true,
    }
}

/// Whether the document holds every field that a status record needs.
pub open spec fn is_complete(json: JsonValue) -> bool {
    has_general_fields(json) && has_signal_fields(json)
}

/// The signal information that a complete document gives.
pub open spec fn signal_of(json: JsonValue) -> SignalInfo {
    let cell_id = int_in(json, "wwanadv"@, "cellId"@).unwrap();
    match reported_mode(json) {
        NetworkMode::Wcdma => SignalInfo::Wcdma(
            WcdmaSignalInfo {
                rscp: strength(json, "rscp"@).unwrap(),
                ecio: strength(json, "ecio"@).unwrap(),
                nb: (wcdma_id(cell_id) / 10) as i64,
                cc: (wcdma_id(cell_id) % 10) as i64,
                rnc: wcdma_rnc(cell_id),
                psc: int_in(json, "wwanadv"@, "primScode"@).unwrap(),
            },
        ),
        NetworkMode::Lte => SignalInfo::Lte(
            LteSignalInfo {
                rsrq: strength(json, "rsrq"@).unwrap(),
                rsrp: strength(json, "rsrp"@).unwrap(),
                sinr: strength(json, "sinr"@).unwrap(),
                ca_count: carrier_count(json),
                enb: lte_enb(cell_id),
                id: lte_id(cell_id),
                pci: int_in(json, "wwanadv"@, "primScode"@).unwrap(),
            },
        ),
        _ => SignalInfo::NoInfo,
    }
}

/// The byte counter under `name`, which the modem writes as a string.
pub open spec fn transferred(json: JsonValue, name: Seq<char>) -> Option<i64> {
    match json.at(seq!["wwan"@, name]) {
        Some(v) => json_str_int(v),
        None => None,
    }
}

/// The record that a complete document gives.
pub open spec fn status_of(json: JsonValue) -> ModemStatusView {
    ModemStatusView {
        mode: reported_mode(json),
        plmn: prefix(
            text_in(json, "wwanadv"@, "MCC"@).unwrap() + text_in(
                json,
                "wwanadv"@,
                "MNC"@,
            ).unwrap(),
            PLMN_WIDTH as nat,
        ),
        rssi: strength(json, "rssi"@).unwrap(),
        cell_id: int_in(json, "wwanadv"@, "cellId"@).unwrap(),
        signal_info: signal_of(json),
        band: bounded_text(text_in(json, "wwanadv"@, "curBand"@).unwrap(), BAND_WIDTH as nat),
        device_info: DeviceInformationView {
            manufacturer: bounded_text(
                text_in(json, "general"@, "companyName"@).unwrap(),
                DEVICE_TEXT_WIDTH as nat,
            ),
            model: bounded_text(
                text_in(json, "general"@, "deviceName"@).unwrap(),
                DEVICE_TEXT_WIDTH as nat,
            ),
        },
        battery_status: Some(
            BatteryStatusView {
                percent: int_in(json, "power"@, "battChargeLevel"@).unwrap(),
                status: bounded_text(
                    text_in(json, "power"@, "battChargeSource"@).unwrap(),
                    BATTERY_STATUS_WIDTH as nat,
                ),
            },
        ),
        device_temp: Some(
            DeviceTemperature {
                device_temp: int_in(json, "general"@, "devTemperature"@).unwrap(),
                battery_temp: int_in(json, "power"@, "batteryTemperature"@).unwrap(),
            },
        ),
        traffic_statistics: Some(
            TrafficStatistics {
                dl: counter_bits(transferred(json, "dataTransferredRx"@)),
                ul: counter_bits(transferred(json, "dataTransferredTx"@)),
            },
        ),
        traffic_mode: TrafficMode::Cumulative,
    }
}

/// The record that a document gives: none where a required field is
/// missing.
pub open spec fn parsed_info(json: JsonValue) -> Option<ModemStatusView> {
    if is_complete(json) {
        Some(status_of(json))
    } else {
        None
    }
}

/// A fetch cycle under way: one request is out, and nothing else is to
/// be remembered.
#[derive(Clone, Debug, PartialEq, Eq)]
pub struct NetgearParser {}

impl NetgearParser {
    /// Where the modem serves its status document.
    pub fn info_query() -> (r: &'static str)
        ensures
            r@ == "/model.json?internalapi=1"@,
    {
        "/model.json?internalapi=1"
    }

    fn read_counter(json: &JsonValue, name: &str) -> (r: i64)
        ensures
            r == counter_bits(transferred(*json, name@)),
    {
        match json.get2("wwan", name) {
            Some(v) => counter_to_bits(json_str_as_type(v)),
            None => 0,
        }
    }

    fn read_signal(json: &JsonValue, mode: NetworkMode, cell_id: i64) -> (r: Option<SignalInfo>)
        requires
            mode == reported_mode(*json),
            Some(cell_id) == int_in(*json, "wwanadv"@, "cellId"@),
        ensures
            r is Some <==> has_signal_fields(*json),
            r matches Some(s) ==> s == signal_of(*json),
    {
        match mode {
            NetworkMode::Wcdma => {
                let rscp = json.i64_at3("wwan", "signalStrength", "rscp")?;
                let ecio = json.i64_at3("wwan", "signalStrength", "ecio")?;
                let psc = json.i64_at2("wwanadv", "primScode")?;
                let (rnc, _id, nb, cc) = split_wcdma_cell_id(cell_id);
                Some(SignalInfo::Wcdma(WcdmaSignalInfo { rscp, ecio, nb, cc, rnc, psc }))
            },
            NetworkMode::Lte => {
                let ca_count = match json.i64_at3("wwan", "ca", "SCCcount") {
                    Some(n) => n,
                    None => 0,
                };
                let rsrq = json.i64_at3("wwan", "signalStrength", "rsrq")?;
                let rsrp = json.i64_at3("wwan", "signalStrength", "rsrp")?;
                let sinr = json.i64_at3("wwan", "signalStrength", "sinr")?;
                let pci = json.i64_at2("wwanadv", "primScode")?;
                let (enb, id) = split_lte_cell_id(cell_id);
                Some(SignalInfo::Lte(LteSignalInfo { rsrq, rsrp, sinr, ca_count, enb, id, pci }))
            },
            _ => Some(SignalInfo::NoInfo),
        }
    }

    /// Builds the status record from the modem's document. The record is
    /// there exactly when no required field is missing, and every field
    /// of it is fixed by the document.
    pub fn parse_info_json(json: &JsonValue) -> (r: Option<ModemStatus>)
        ensures
            r is Some <==> is_complete(*json),
            match r {
                Some(status) => parsed_info(*json) == Some(status@) && status.wf(),
                None => parsed_info(*json) is None,
            },
    {
        let service = json.str_at2("wwan", "currentNWserviceType")?;
        let mode = get_mode_by_description(service);
        let rssi = json.i64_at3("wwan", "signalStrength", "rssi")?;
        let mcc = json.str_at2("wwanadv", "MCC")?;
        let mnc = json.str_at2("wwanadv", "MNC")?;
        let mut plmn_str = String::from_str(mcc);
        plmn_str.append(mnc);
        let plmn = match PlmnStatus::from_str(plmn_str.as_str()) {
            Ok(p) => p,
            Err(_) => {
                return None;
            },
        };
        let band_str = json.str_at2("wwanadv", "curBand")?;
        let band = copy_string_to_array(band_str, BAND_WIDTH);
        let cell_id = json.i64_at2("wwanadv", "cellId")?;
        let manufacturer_str = json.str_at2("general", "companyName")?;
        let model_str = json.str_at2("general", "deviceName")?;
        let battery_percent = json.i64_at2("power", "battChargeLevel")?;
        let battery_status_str = json.str_at2("power", "battChargeSource")?;
        let device_temp = json.i64_at2("general", "devTemperature")?;
        let battery_temp = json.i64_at2("power", "batteryTemperature")?;
        let signal_info = NetgearParser::read_signal(json, mode, cell_id)?;

        let device_info = DeviceInformation::from(manufacturer_str, model_str);
        let battery_status = BatteryStatus::new(battery_percent, battery_status_str);
        let dl = NetgearParser::read_counter(json, "dataTransferredRx");
        let ul = NetgearParser::read_counter(json, "dataTransferredTx");

        Some(
            ModemStatus {
                mode,
                plmn,
                rssi,
                cell_id,
                signal_info,
                band,
                device_info,
                battery_status: Some(battery_status),
                device_temp: Some(DeviceTemperature { device_temp, battery_temp }),
                traffic_statistics: Some(TrafficStatistics { dl, ul }),
                traffic_mode: TrafficMode::Cumulative,
            },
        )
    }
}

/// How a fetch ends once the modem's answer is in hand: with the record,
/// with `DataParsing` where the document lacks a required field, with
/// `HttpConnection` where no JSON document could be had.
pub open spec fn fetched(answer: Option<Document>) -> Result<ModemStatusView, ModemError> {
    match answer {
        Some(Document::Json(json)) => match parsed_info(json) {
            Some(status) => Ok(status),
            None => Err(ModemError::DataParsing),
        },
        _ => Err(ModemError::HttpConnection),
    }
}

/// The one request of a fetch cycle.
pub open spec fn info_request() -> RequestView {
    RequestView {
        kind: DocumentKind::Json,
        query: "/model.json?internalapi=1"@,
        session_token: None,
    }
}

impl NetgearParser {
    /// The outcome of a fetch, given the document that the modem
    /// answered with.
    pub fn get_info(json: Option<&JsonValue>) -> (r: Result<ModemStatus, ModemError>)
        ensures
            match r {
                Ok(status) => json matches Some(j) && parsed_info(*j) == Some(status@)
                    && status.wf(),
                Err(e) => match json {
                    Some(j) => e == ModemError::DataParsing && parsed_info(*j) is None,
                    None => e == ModemError::HttpConnection,
                },
            },
    {
        match json {
            Some(json) => match NetgearParser::parse_info_json(json) {
                Some(modem_info) => Ok(modem_info),
                None => Err(ModemError::DataParsing),
            },
            None => Err(ModemError::HttpConnection),
        }
    }
}

impl ModemInfoParser for NetgearParser {
    open spec fn requests_left(&self) -> nat {
        0
    }

    fn begin() -> (r: (Self, Request))
        ensures
            r.1@ == info_request(),
    {
        let request = Request {
            kind: DocumentKind::Json,
            query: String::from_str(NetgearParser::info_query()),
            session_token: None,
        };
        (NetgearParser {  }, request)
    }

    fn resume(self, answer: Option<Document>) -> (r: Step<Self>)
        ensures
            match r {
                Step::Done(Ok(status)) => fetched(answer) == Ok::<ModemStatusView, ModemError>(
                    status@,
                ) && status.wf(),
                Step::Done(Err(e)) => fetched(answer) == Err::<ModemStatusView, ModemError>(e),
                Step::Ask(_, _) => false,
            },
    {
        match answer {
            Some(Document::Json(json)) => Step::Done(NetgearParser::get_info(Some(&json))),
            _ => Step::Done(NetgearParser::get_info(None)),
        }
    }
}

/// A document that lacks a required field ends the fetch with
/// `DataParsing`.
pub proof fn lemma_incomplete_document_is_data_parsing(json: JsonValue)
    requires
        !is_complete(json),
    ensures
        fetched(Some(Document::Json(json))) == Err::<ModemStatusView, ModemError>(
            ModemError::DataParsing,
        ),
{
}

/// The cell numbers in a record read from a document are those that its
/// cell id holds.
pub proof fn lemma_record_is_consistent(json: JsonValue)
    requires
        is_complete(json),
    ensures
        status_of(json).cell_consistent(),
        status_of(json).wf(),
{
    let cell_id = int_in(json, "wwanadv"@, "cellId"@).unwrap();
    assert(0 <= cell_id & 0xFFFF <= 0xFFFF) by (bit_vector);
}

} // verus!
