//! Client for Huawei modems: XML documents behind a web session that is
//! opened anew for every fetch.

use vstd::prelude::*;
use vstd::string::StringExecFns;
use crate::bandwidth_utils::{TrafficMode, TrafficStatistics};
use crate::modem_utils::{
    clone_session, lte_enb, lte_id, session_view, split_lte_cell_id, split_wcdma_cell_id,
    wcdma_id, wcdma_rnc, BatteryStatus, BatteryStatusView, DeviceInformation,
    DeviceInformationView, Document, DocumentKind, LteSignalInfo, ModemError, ModemInfoParser,
    ModemStatus, ModemStatusView, NetworkMode, PlmnStatus, Request, RequestView, SessionInfo,
    SignalInfo, Step, WcdmaSignalInfo, BATTERY_STATUS_WIDTH, DEVICE_TEXT_WIDTH, PLMN_WIDTH,
};
use crate::text::{prefix, str_eq};
use crate::utils::{
    bounded_text, get_xml_element, get_xml_element_as, get_xml_element_as_unit, int_field,
    unit_field, xml_contains_required_parameters,
};
use crate::xml::XmlElement;

verus! {

/// The network mode that a mode number names.
pub open spec fn mode_by_id(s: Seq<char>) -> NetworkMode {
    if s == "0"@ {
        NetworkMode::Gsm
    } else if s == "2"@ {
        NetworkMode::Wcdma
    } else if s == "7"@ {
        NetworkMode::Lte
    } else {
        NetworkMode::Unknown
    }
}

pub fn get_mode_by_id(s: &str) -> (r: NetworkMode)
    ensures
        r == mode_by_id(s@),
{
    if str_eq(s, "0") {
        NetworkMode::Gsm
    } else if str_eq(s, "2") {
        NetworkMode::Wcdma
    } else if str_eq(s, "7") {
        NetworkMode::Lte
    } else {
        NetworkMode::Unknown
    }
}

/// An error document of the modem's web interface.
#[derive(Clone, Debug, PartialEq, Eq)]
pub struct HuaweiError {
    pub code: Option<String>,
    pub message: Option<String>,
}

impl HuaweiError {
    /// The error in words, with its code and message where it has them.
    pub open spec fn report(&self) -> Seq<char> {
        "Huawei REST Error"@ + (match self.code {
            Some(code) => " code='"@ + code@ + "'"@,
            None => Seq::<char>::empty(),
        }) + (match self.message {
            Some(message) => " message='"@ + message@ + "'"@,
            None => Seq::<char>::empty(),
        })
    }

    /// The error as one line of text.
    pub fn to_text(&self) -> (r: String)
        ensures
            r@ == self.report(),
    {
        let mut out = String::from_str("Huawei REST Error");
        let ghost head = out@;
        match &self.code {
            Some(code) => {
                let mut part = String::from_str(" code='");
                part.append(code.as_str());
                part.append("'");
                out.append(part.as_str());
            },
            None => {
                assert(out@ == head + Seq::<char>::empty());
            },
        }
        let ghost middle = out@;
        match &self.message {
            Some(message) => {
                let mut part = String::from_str(" message='");
                part.append(message.as_str());
                part.append("'");
                out.append(part.as_str());
            },
            None => {
                assert(out@ == middle + Seq::<char>::empty());
            },
        }
        out
    }
}

/// Whether the document is the modem's way of reporting an error.
pub open spec fn is_error_document(xml: XmlElement) -> bool {
    xml.name@ == "error"@
}

/// Tells an error document from any other, and reads its code and
/// message.
pub fn check_huawei_error_xml(xml: &XmlElement) -> (r: Result<(), HuaweiError>)
    ensures
        r is Err <==> is_error_document(*xml),
        r matches Err(e) ==> {
            &&& match e.code {
                Some(c) => xml.field("code"@) == Some(c@),
                None => xml.field("code"@) is None,
            }
            &&& match e.message {
                Some(m) => xml.field("message"@) == Some(m@),
                None => xml.field("message"@) is None,
            }
        },
{
    if str_eq(xml.name.as_str(), "error") {
        let code = get_xml_element(xml, "code");
        let message = get_xml_element(xml, "message");
        Err(HuaweiError { code, message })
    } else {
        Ok(())
    }
}

/// The network mode that the signal document reports; only meaningful
/// where the document holds one.
pub open spec fn signal_mode(xml: XmlElement) -> NetworkMode {
    mode_by_id(xml.field("mode"@).unwrap())
}

/// Whether the signal document holds every field that a status record
/// needs, each one readable.
pub open spec fn signal_complete(xml: XmlElement) -> bool {
    &&& xml.field("mode"@) is Some
    &&& unit_field(xml, "rssi"@) is Some
    &&& int_field(xml, "cell_id"@) is Some
    &&& match signal_mode(xml) {
        NetworkMode::Wcdma => unit_field(xml, "rscp"@) is Some && unit_field(xml, "ecio"@) is Some,
        NetworkMode::Lte => {
            &&& unit_field(xml, "rsrp"@) is Some
            &&& unit_field(xml, "rsrq"@) is Some
            &&& unit_field(xml, "sinr"@) is Some
        },
        _ => true,
    }
}

/// A figure that may be left out, and then counts as zero.
pub open spec fn or_zero(v: Option<i64>) -> i64 {
    match v {
        Some(n) => n,
        None => 0,
    }
}

/// The signal information that a complete signal document gives.
pub open spec fn signal_info_of(xml: XmlElement) -> SignalInfo {
    let cell_id = int_field(xml, "cell_id"@).unwrap();
    match signal_mode(xml) {
        NetworkMode::Wcdma => SignalInfo::Wcdma(
            WcdmaSignalInfo {
                rscp: unit_field(xml, "rscp"@).unwrap(),
                ecio: unit_field(xml, "ecio"@).unwrap(),
                nb: (wcdma_id(cell_id) / 10) as i64,
                cc: (wcdma_id(cell_id) % 10) as i64,
                rnc: wcdma_rnc(cell_id),
                psc: or_zero(unit_field(xml, "sc"@)),
            },
        ),
        NetworkMode::Lte => SignalInfo::Lte(
            LteSignalInfo {
                rsrq: unit_field(xml, "rsrq"@).unwrap(),
                rsrp: unit_field(xml, "rsrp"@).unwrap(),
                sinr: unit_field(xml, "sinr"@).unwrap(),
                ca_count: 0,
                enb: lte_enb(cell_id),
                id: lte_id(cell_id),
                pci: or_zero(unit_field(xml, "pci"@)),
            },
        ),
        _ => SignalInfo::NoInfo,
    }
}

/// What is known of the device before it was asked: the manufacturer.
pub open spec fn default_device() -> DeviceInformationView {
    DeviceInformationView {
        manufacturer: bounded_text("HUAWEI"@, DEVICE_TEXT_WIDTH as nat),
        model: bounded_text(""@, DEVICE_TEXT_WIDTH as nat),
    }
}

/// The record that a complete signal document gives. What other
/// documents tell is absent from it, and the PLMN is all zeros.
pub open spec fn signal_status(xml: XmlElement) -> ModemStatusView {
    ModemStatusView {
        mode: signal_mode(xml),
        plmn: prefix("00000"@, PLMN_WIDTH as nat),
        rssi: unit_field(xml, "rssi"@).unwrap(),
        cell_id: int_field(xml, "cell_id"@).unwrap(),
        signal_info: signal_info_of(xml),
        band: Seq::<char>::empty(),
        device_info: default_device(),
        battery_status: None,
        device_temp: None,
        traffic_statistics: None,
        traffic_mode: TrafficMode::Absolute,
    }
}

/// The record that a signal document gives: none where a required field
/// is missing or cannot be read.
pub open spec fn parsed_signal(xml: XmlElement) -> Option<ModemStatusView> {
    if signal_complete(xml) {
        Some(signal_status(xml))
    } else {
        None
    }
}

/// The session that a session document opens: both halves or none.
pub open spec fn session_of(xml: XmlElement) -> Option<(Seq<char>, Seq<char>)> {
    match (xml.field("SesInfo"@), xml.field("TokInfo"@)) {
        (Some(ses_info), Some(tok_info)) => Some((ses_info, tok_info)),
        _ => None,
    }
}

/// The rates that a traffic document reports, in bits per second as the
/// modem gives them; zero for a rate that is missing or cannot be read.
pub open spec fn traffic_of(xml: XmlElement) -> TrafficStatistics {
    TrafficStatistics {
        dl: or_zero(unit_field(xml, "CurrentDownloadRate"@)),
        ul: or_zero(unit_field(xml, "CurrentUploadRate"@)),
    }
}

/// What the modem's battery status number means.
pub open spec fn battery_status_text(code: Seq<char>) -> Seq<char> {
    if code == "0"@ {
        "No Charge"@
    } else if code == "1"@ {
        "Charging"@
    } else if code == "-1"@ {
        "Low"@
    } else if code == "2"@ {
        "No Battery"@
    } else {
        "Unknown status"@
    }
}

/// The battery status that a monitoring document reports: none unless it
/// holds both the charge and the status number.
pub open spec fn battery_of(xml: XmlElement) -> Option<BatteryStatusView> {
    match (unit_field(xml, "BatteryPercent"@), xml.field("BatteryStatus"@)) {
        (Some(percent), Some(code)) => Some(
            BatteryStatusView {
                percent,
                status: bounded_text(battery_status_text(code), BATTERY_STATUS_WIDTH as nat),
            },
        ),
        _ => None,
    }
}

/// The network identifier that a PLMN document reports; empty where it
/// holds none.
pub open spec fn plmn_of(xml: XmlElement) -> Seq<char> {
    prefix(
        match xml.field("Numeric"@) {
            Some(s) => s,
            None => Seq::<char>::empty(),
        },
        PLMN_WIDTH as nat,
    )
}

/// The model name in a device document: under `devicename`, else under
/// `DeviceName`, else empty.
pub open spec fn device_model_of(xml: XmlElement) -> Seq<char> {
    match xml.field("devicename"@) {
        Some(s) => s,
        None => match xml.field("DeviceName"@) {
            Some(s) => s,
            None => Seq::<char>::empty(),
        },
    }
}

/// What asking for the device model gave: the name, `Access` where the
/// modem answered with an error document, `HttpConnection` where it did
/// not answer.
pub open spec fn device_model_answer(answer: Option<XmlElement>) -> Result<Seq<char>, ModemError> {
    match answer {
        Some(xml) => if is_error_document(xml) {
            Err(ModemError::Access)
        } else {
            Ok(device_model_of(xml))
        },
        None => Err(ModemError::HttpConnection),
    }
}

/// The device information that goes with a model name.
pub open spec fn device_with_model(model: Seq<char>) -> DeviceInformationView {
    DeviceInformationView {
        manufacturer: bounded_text("HUAWEI"@, DEVICE_TEXT_WIDTH as nat),
        model: bounded_text(model, DEVICE_TEXT_WIDTH as nat),
    }
}

/// The requests of one fetch cycle, in the order in which they go out.
#[derive(Copy, Clone, PartialEq, Eq, Structural, Debug)]
pub enum HuaweiStage {
    SessionToken,
    Signal,
    Plmn,
    TrafficStatistics,
    BatteryStatus,
    BasicInformation,
    Information,
}

/// Where each request goes.
pub open spec fn stage_query(stage: HuaweiStage) -> Seq<char> {
    match stage {
        HuaweiStage::SessionToken => "/api/webserver/SesTokInfo"@,
        HuaweiStage::Signal => "/api/device/signal"@,
        HuaweiStage::Plmn => "/api/net/current-plmn"@,
        HuaweiStage::TrafficStatistics => "/api/monitoring/traffic-statistics"@,
        HuaweiStage::BatteryStatus => "/api/monitoring/status"@,
        HuaweiStage::BasicInformation => "/api/device/basic_information"@,
        HuaweiStage::Information => "/api/device/information"@,
    }
}

/// How many requests follow the one of `stage` at most.
pub open spec fn stages_after(stage: HuaweiStage) -> nat {
    match stage {
        HuaweiStage::SessionToken => 6,
        HuaweiStage::Signal => 5,
        HuaweiStage::Plmn => 4,
        HuaweiStage::TrafficStatistics => 3,
        HuaweiStage::BatteryStatus => 2,
        HuaweiStage::BasicInformation => 1,
        HuaweiStage::Information => 0,
    }
}

/// A fetch cycle under way: the request that is out, the session, and
/// the record as far as it is known.
#[derive(Clone, Debug, PartialEq, Eq)]
pub struct HuaweiParser {
    pub stage: HuaweiStage,
    pub session_token: Option<SessionInfo>,
    pub status: ModemStatus,
}

/// A fetch cycle under way, its texts as sequences of characters.
pub struct HuaweiParserView {
    pub stage: HuaweiStage,
    pub session_token: Option<(Seq<char>, Seq<char>)>,
    pub status: ModemStatusView,
}

impl View for HuaweiParser {
    type V = HuaweiParserView;

    open spec fn view(&self) -> HuaweiParserView {
        HuaweiParserView {
            stage: self.stage,
            session_token: session_view(self.session_token),
            status: self.status@,
        }
    }
}

/// How a cycle goes on, over views.
pub enum HuaweiStepView {
    Ask(HuaweiParserView),
    Done(Result<ModemStatusView, ModemError>),
}

/// The record before any document was read.
pub open spec fn blank_status() -> ModemStatusView {
    ModemStatusView {
        mode: NetworkMode::Unknown,
        plmn: prefix("00000"@, PLMN_WIDTH as nat),
        rssi: 0,
        cell_id: 0,
        signal_info: SignalInfo::NoInfo,
        band: Seq::<char>::empty(),
        device_info: default_device(),
        battery_status: None,
        device_temp: None,
        traffic_statistics: None,
        traffic_mode: TrafficMode::Absolute,
    }
}

/// The state in which a cycle begins.
pub open spec fn first_state() -> HuaweiParserView {
    HuaweiParserView {
        stage: HuaweiStage::SessionToken,
        session_token: None,
        status: blank_status(),
    }
}

/// The request that is out in state `s`.
pub open spec fn request_of(s: HuaweiParserView) -> RequestView {
    RequestView {
        kind: DocumentKind::Xml,
        query: stage_query(s.stage),
        session_token: s.session_token,
    }
}

/// The document behind a reference, if there is one.
pub open spec fn owned_answer(xml: Option<&XmlElement>) -> Option<XmlElement> {
    match xml {
        Some(document) => Some(*document),
        None => None,
    }
}

/// The XML document in an answer, if it holds one.
pub open spec fn xml_answer(answer: Option<Document>) -> Option<XmlElement> {
    match answer {
        Some(Document::Xml(xml)) => Some(xml),
        _ => None,
    }
}

/// The end of a cycle: the record, with the device information that the
/// model name gives where there is a name.
pub open spec fn finished(s: HuaweiParserView, model: Result<Seq<char>, ModemError>)
    -> ModemStatusView {
    match model {
        Ok(name) => if name.len() > 0 {
            ModemStatusView { device_info: device_with_model(name), ..s.status }
        } else {
            s.status
        },
        Err(_) => s.status,
    }
}

/// Whether asking for the device model gave a name.
pub open spec fn has_model(model: Result<Seq<char>, ModemError>) -> bool {
    model matches Ok(name) && name.len() > 0
}

/// One step of a fetch cycle. The session is opened first, and the cycle
/// goes on without one where that fails. Only the signal document can end
/// the cycle with an error: `HttpConnection` where it could not be had,
/// `DataParsing` where it lacks a required field. Every later document
/// adds what it holds and leaves the record as it was where it is
/// missing. The device model is asked for in two places, the second only
/// where the first gave no name.
pub open spec fn huawei_step(s: HuaweiParserView, answer: Option<XmlElement>) -> HuaweiStepView {
    match s.stage {
        HuaweiStage::SessionToken => HuaweiStepView::Ask(
            HuaweiParserView {
                stage: HuaweiStage::Signal,
                session_token: match answer {
                    Some(xml) => session_of(xml),
                    None => None,
                },
                status: s.status,
            },
        ),
        HuaweiStage::Signal => match answer {
            Some(xml) => match parsed_signal(xml) {
                Some(status) => HuaweiStepView::Ask(
                    HuaweiParserView {
                        stage: HuaweiStage::Plmn,
                        session_token: s.session_token,
                        status,
                    },
                ),
                None => HuaweiStepView::Done(Err(ModemError::DataParsing)),
            },
            None => HuaweiStepView::Done(Err(ModemError::HttpConnection)),
        },
        HuaweiStage::Plmn => HuaweiStepView::Ask(
            HuaweiParserView {
                stage: HuaweiStage::TrafficStatistics,
                session_token: s.session_token,
                status: match answer {
                    Some(xml) => ModemStatusView { plmn: plmn_of(xml), ..s.status },
                    None => s.status,
                },
            },
        ),
        HuaweiStage::TrafficStatistics => HuaweiStepView::Ask(
            HuaweiParserView {
                stage: HuaweiStage::BatteryStatus,
                session_token: s.session_token,
                status: ModemStatusView {
                    traffic_statistics: match answer {
                        Some(xml) => Some(traffic_of(xml)),
                        None => None,
                    },
                    ..s.status
                },
            },
        ),
        HuaweiStage::BatteryStatus => HuaweiStepView::Ask(
            HuaweiParserView {
                stage: HuaweiStage::BasicInformation,
                session_token: s.session_token,
                status: ModemStatusView {
                    battery_status: match answer {
                        Some(xml) => battery_of(xml),
                        None => None,
                    },
                    ..s.status
                },
            },
        ),
        HuaweiStage::BasicInformation => if has_model(device_model_answer(answer)) {
            HuaweiStepView::Done(Ok(finished(s, device_model_answer(answer))))
        } else {
            HuaweiStepView::Ask(
                HuaweiParserView {
                    stage: HuaweiStage::Information,
                    session_token: s.session_token,
                    status: s.status,
                },
            )
        },
        HuaweiStage::Information => HuaweiStepView::Done(
            Ok(finished(s, device_model_answer(answer))),
        ),
    }
}

impl HuaweiParser {
    /// Builds the status record from the signal document.
    pub fn parse_signal_xml(xml: &XmlElement) -> (r: Option<ModemStatus>)
        ensures
            r is Some <==> signal_complete(*xml),
            match r {
                Some(status) => parsed_signal(*xml) == Some(status@) && status.wf(),
                None => parsed_signal(*xml) is None,
            },
    {
        let required: [&str; 3] = ["mode", "rssi", "cell_id"];
        if !xml_contains_required_parameters(xml, &required) {
            proof {
                if xml.field("mode"@) is Some && xml.field("rssi"@) is Some && xml.field(
                    "cell_id"@,
                ) is Some {
                    assert forall|i: int| 0 <= i < required@.len() implies xml.field(
                        (#[trigger] required@[i])@,
                    ) is Some by {}
                }
            }
            return None;
        }
        let mode_str = get_xml_element(xml, "mode")?;
        let mode = get_mode_by_id(mode_str.as_str());
        let rssi = get_xml_element_as_unit(xml, "rssi")?;
        let cell_id = get_xml_element_as(xml, "cell_id")?;
        let plmn = match PlmnStatus::from_str("00000") {
            Ok(p) => p,
            Err(_) => {
                return None;
            },
        };
        let band = String::new();

        let signal_info: SignalInfo = match mode {
            NetworkMode::Wcdma => {
                let rscp = get_xml_element_as_unit(xml, "rscp")?;
                let ecio = get_xml_element_as_unit(xml, "ecio")?;
                let psc = match get_xml_element_as_unit(xml, "sc") {
                    Some(n) => n,
                    None => 0,
                };
                let (rnc, _id, nb, cc) = split_wcdma_cell_id(cell_id);
                SignalInfo::Wcdma(WcdmaSignalInfo { rscp, ecio, nb, cc, rnc, psc })
            },
            NetworkMode::Lte => {
                let rsrp = get_xml_element_as_unit(xml, "rsrp")?;
                let rsrq = get_xml_element_as_unit(xml, "rsrq")?;
                let sinr = get_xml_element_as_unit(xml, "sinr")?;
                let pci = match get_xml_element_as_unit(xml, "pci") {
                    Some(n) => n,
                    None => 0,
                };
                let (enb, id) = split_lte_cell_id(cell_id);
                SignalInfo::Lte(LteSignalInfo { rsrq, rsrp, sinr, ca_count: 0, enb, id, pci })
            },
            _ => SignalInfo::NoInfo,
        };

        Some(
            ModemStatus {
                mode,
                plmn,
                rssi,
                cell_id,
                signal_info,
                band,
                device_info: DeviceInformation::from("HUAWEI", ""),
                battery_status: None,
                device_temp: None,
                traffic_statistics: None,
                traffic_mode: TrafficMode::Absolute,
            },
        )
    }

    /// Reads the session from the session document.
    pub fn parse_session_token_xml(xml: &XmlElement) -> (r: Option<SessionInfo>)
        ensures
            session_view(r) == session_of(*xml),
    {
        match (get_xml_element(xml, "SesInfo"), get_xml_element(xml, "TokInfo")) {
            (Some(ses_info), Some(tok_info)) => Some((ses_info, tok_info)),
            _ => None,
        }
    }

    /// The session that the answer to the session request opens.
    pub fn get_session_token(answer: Option<&XmlElement>) -> (r: Option<SessionInfo>)
        ensures
            session_view(r) == match answer {
                Some(xml) => session_of(*xml),
                None => None,
            },
    {
        match answer {
            Some(xml) => HuaweiParser::parse_session_token_xml(xml),
            None => None,
        }
    }

    fn rate_or_zero(rate: Option<i64>) -> (r: i64)
        ensures
            r == or_zero(rate),
    {
        match rate {
            Some(n) => n,
            None => 0,
        }
    }

    /// Reads the rates from the traffic document.
    pub fn parse_traffic_statistics_xml(xml: &XmlElement) -> (r: TrafficStatistics)
        ensures
            r == traffic_of(*xml),
    {
        let dl = HuaweiParser::rate_or_zero(get_xml_element_as_unit(xml, "CurrentDownloadRate"));
        let ul = HuaweiParser::rate_or_zero(get_xml_element_as_unit(xml, "CurrentUploadRate"));
        TrafficStatistics { dl, ul }
    }

    /// The rates in the answer to the traffic request.
    pub fn get_traffic_statistics(answer: Option<&XmlElement>) -> (r: Option<TrafficStatistics>)
        ensures
            r == match answer {
                Some(xml) => Some(traffic_of(*xml)),
                None => None,
            },
    {
        match answer {
            Some(xml) => Some(HuaweiParser::parse_traffic_statistics_xml(xml)),
            None => None,
        }
    }

    fn battery_status_name(code: &str) -> (r: &'static str)
        ensures
            r@ == battery_status_text(code@),
    {
        if str_eq(code, "0") {
            "No Charge"
        } else if str_eq(code, "1") {
            "Charging"
        } else if str_eq(code, "-1") {
            "Low"
        } else if str_eq(code, "2") {
            "No Battery"
        } else {
            "Unknown status"
        }
    }

    /// Reads the battery status from the monitoring document.
    pub fn parse_battery_status_xml(xml: &XmlElement) -> (r: Option<BatteryStatus>)
        ensures
            match r {
                Some(b) => battery_of(*xml) == Some(b@) && b.wf(),
                None => battery_of(*xml) is None,
            },
    {
        let battery_percent = get_xml_element_as_unit(xml, "BatteryPercent")?;
        let status = get_xml_element(xml, "BatteryStatus")?;
        let battery_status_str = HuaweiParser::battery_status_name(status.as_str());
        Some(BatteryStatus::new(battery_percent, battery_status_str))
    }

    /// The battery status in the answer to the monitoring request.
    pub fn get_battery_status(answer: Option<&XmlElement>) -> (r: Option<BatteryStatus>)
        ensures
            match r {
                Some(b) => answer matches Some(xml) && battery_of(*xml) == Some(b@) && b.wf(),
                None => answer matches Some(xml) ==> battery_of(*xml) is None,
            },
    {
        match answer {
            Some(xml) => HuaweiParser::parse_battery_status_xml(xml),
            None => None,
        }
    }

    /// Reads the network identifier from the PLMN document.
    pub fn parse_plmn_xml(xml: &XmlElement) -> (r: PlmnStatus)
        ensures
            r@ == plmn_of(*xml),
            r.wf(),
    {
        let plmn_str = match get_xml_element(xml, "Numeric") {
            Some(s) => s,
            None => String::new(),
        };
        match PlmnStatus::from_str(plmn_str.as_str()) {
            Ok(p) => p,
            Err(_) => PlmnStatus { plmn: String::new() },
        }
    }

    /// The network identifier in the answer to the PLMN request.
    pub fn get_plmn_status(answer: Option<&XmlElement>) -> (r: Option<PlmnStatus>)
        ensures
            match r {
                Some(p) => answer matches Some(xml) && p@ == plmn_of(*xml) && p.wf(),
                None => answer is None,
            },
    {
        match answer {
            Some(xml) => Some(HuaweiParser::parse_plmn_xml(xml)),
            None => None,
        }
    }

    /// Reads the model name from a device document.
    pub fn parse_device_model_xml(xml: &XmlElement) -> (r: String)
        ensures
            r@ == device_model_of(*xml),
    {
        match get_xml_element(xml, "devicename") {
            Some(model_str) => model_str,
            None => match get_xml_element(xml, "DeviceName") {
                Some(model_str) => model_str,
                None => String::new(),
            },
        }
    }

    /// The model name in the answer to a device request, or why there is
    /// none.
    pub fn get_device_model_by_query(answer: Option<&XmlElement>) -> (r: Result<String, ModemError>)
        ensures
            match r {
                Ok(model) => answer matches Some(xml) && device_model_answer(Some(*xml)) == Ok::<
                    Seq<char>,
                    ModemError,
                >(model@),
                Err(e) => device_model_answer(
                    match answer {
                        Some(xml) => Some(*xml),
                        None => None,
                    },
                ) == Err::<Seq<char>, ModemError>(e),
            },
    {
        match answer {
            Some(xml) => match check_huawei_error_xml(xml) {
                Err(_) => Err(ModemError::Access),
                Ok(()) => Ok(HuaweiParser::parse_device_model_xml(xml)),
            },
            None => Err(ModemError::HttpConnection),
        }
    }

    /// The device information that goes with a model name: `Access` where
    /// the name is empty.
    pub fn get_device_information(model: &str) -> (r: Result<DeviceInformation, ModemError>)
        ensures
            match r {
                Ok(info) => model@.len() > 0 && info@ == device_with_model(model@) && info.wf(),
                Err(e) => model@.len() == 0 && e == ModemError::Access,
            },
    {
        if model.unicode_len() == 0 {
            Err(ModemError::Access)
        } else {
            Ok(DeviceInformation::from("HUAWEI", model))
        }
    }

    fn query_for(stage: HuaweiStage) -> (r: String)
        ensures
            r@ == stage_query(stage),
    {
        match stage {
            HuaweiStage::SessionToken => String::from_str("/api/webserver/SesTokInfo"),
            HuaweiStage::Signal => String::from_str("/api/device/signal"),
            HuaweiStage::Plmn => String::from_str("/api/net/current-plmn"),
            HuaweiStage::TrafficStatistics => String::from_str(
                "/api/monitoring/traffic-statistics",
            ),
            HuaweiStage::BatteryStatus => String::from_str("/api/monitoring/status"),
            HuaweiStage::BasicInformation => String::from_str("/api/device/basic_information"),
            HuaweiStage::Information => String::from_str("/api/device/information"),
        }
    }

    /// Goes on to `stage` and asks for its document.
    fn ask(
        stage: HuaweiStage,
        session_token: Option<SessionInfo>,
        status: ModemStatus,
    ) -> (r: Step<HuaweiParser>)
        ensures
            r matches Step::Ask(next, request) && next@ == (HuaweiParserView {
                stage,
                session_token: session_view(session_token),
                status: status@,
            }) && request@ == request_of(next@) && (status.wf() ==> next.status.wf()),
    {
        let request = Request {
            kind: DocumentKind::Xml,
            query: HuaweiParser::query_for(stage),
            session_token: clone_session(&session_token),
        };
        Step::Ask(HuaweiParser { stage, session_token, status }, request)
    }

    /// Ends the cycle with the record, the device information filled in
    /// where the model is known.
    fn finish(status: ModemStatus, model: Result<String, ModemError>) -> (r: ModemStatus)
        ensures
            r@ == match model {
                Ok(name) => if name@.len() > 0 {
                    ModemStatusView { device_info: device_with_model(name@), ..status@ }
                } else {
                    status@
                },
                Err(_) => status@,
            },
            status.wf() ==> r.wf(),
    {
        let mut status = status;
        if let Ok(name) = model {
            if let Ok(device_info) = HuaweiParser::get_device_information(name.as_str()) {
                status.device_info = device_info;
            }
        }
        status
    }

    /// One step of a fetch cycle, given the document that answered the
    /// request that is out, `None` where none could be had.
    pub fn advance(self, xml: Option<&XmlElement>) -> (r: Step<HuaweiParser>)
        ensures
            HuaweiParser::step_view(r) == huawei_step(self@, owned_answer(xml)),
            r matches Step::Ask(next, request) ==> request@ == request_of(next@) && stages_after(
                next.stage,
            ) < stages_after(self.stage),
            self.status.wf() ==> match r {
                Step::Ask(next, _) => next.status.wf(),
                Step::Done(Ok(status)) => status.wf(),
                Step::Done(Err(_)) => true,
            },
    {
        let HuaweiParser { stage, session_token, status } = self;
        let mut status = status;
        match stage {
            HuaweiStage::SessionToken => {
                let token = HuaweiParser::get_session_token(xml);
                HuaweiParser::ask(HuaweiStage::Signal, token, status)
            },
            HuaweiStage::Signal => match xml {
                Some(xml) => match HuaweiParser::parse_signal_xml(xml) {
                    Some(modem_status) => HuaweiParser::ask(
                        HuaweiStage::Plmn,
                        session_token,
                        modem_status,
                    ),
                    None => Step::Done(Err(ModemError::DataParsing)),
                },
                None => Step::Done(Err(ModemError::HttpConnection)),
            },
            HuaweiStage::Plmn => {
                if let Some(plmn) = HuaweiParser::get_plmn_status(xml) {
                    status.plmn = plmn;
                }
                HuaweiParser::ask(HuaweiStage::TrafficStatistics, session_token, status)
            },
            HuaweiStage::TrafficStatistics => {
                status.traffic_statistics = HuaweiParser::get_traffic_statistics(xml);
                HuaweiParser::ask(HuaweiStage::BatteryStatus, session_token, status)
            },
            HuaweiStage::BatteryStatus => {
                status.battery_status = HuaweiParser::get_battery_status(xml);
                HuaweiParser::ask(HuaweiStage::BasicInformation, session_token, status)
            },
            HuaweiStage::BasicInformation => {
                let model = HuaweiParser::get_device_model_by_query(xml);
                let named = match &model {
                    Ok(name) => name.as_str().unicode_len() > 0,
                    Err(_) => false,
                };
                if named {
                    Step::Done(Ok(HuaweiParser::finish(status, model)))
                } else {
                    HuaweiParser::ask(HuaweiStage::Information, session_token, status)
                }
            },
            HuaweiStage::Information => {
                let model = HuaweiParser::get_device_model_by_query(xml);
                Step::Done(Ok(HuaweiParser::finish(status, model)))
            },
        }
    }

    /// Runs a whole fetch cycle on the answers to its requests, given in
    /// the order of the requests: session, signal, PLMN, traffic,
    /// battery, and the two device documents. The outcome is there as
    /// soon as the cycle ends, which seven answers always bring about. A
    /// signal document that is missing ends it with `HttpConnection`, one
    /// that lacks a required field or holds one that cannot be read ends
    /// it with `DataParsing`; nothing else makes it fail.
    #[verifier::loop_isolation(false)]
    pub fn get_info(answers: &Vec<Option<XmlElement>>) -> (r: Option<
        Result<ModemStatus, ModemError>,
    >)
        ensures
            match r {
                Some(Ok(status)) => fetch_outcome(first_state(), answers@) == Some(
                    Ok::<ModemStatusView, ModemError>(status@),
                ) && status.wf(),
                Some(Err(e)) => fetch_outcome(first_state(), answers@) == Some(
                    Err::<ModemStatusView, ModemError>(e),
                ),
                None => fetch_outcome(first_state(), answers@) is None,
            },
            answers@.len() >= 7 ==> r is Some,
            answers@.len() >= 2 && answers@[1] is None ==> r == Some(
                Err::<ModemStatus, ModemError>(ModemError::HttpConnection),
            ),
            answers@.len() >= 2 && (answers@[1] matches Some(xml) && !signal_complete(xml)) ==> r
                == Some(Err::<ModemStatus, ModemError>(ModemError::DataParsing)),
            answers@.len() >= 7 && (answers@[1] matches Some(xml) && signal_complete(xml)) ==> r
                matches Some(Ok(_)),
    {
        proof {
            if answers@.len() >= 2 {
                lemma_signal_failure_fails_the_fetch(answers@);
            }
            if answers@.len() >= 7 && (answers@[1] matches Some(xml) && signal_complete(xml)) {
                lemma_only_the_signal_document_can_fail(answers@);
            }
            assert(answers@.skip(0) =~= answers@);
        }
        let (first, _) = HuaweiParser::begin();
        let mut state = first;
        let mut i: usize = 0;
        while i < answers.len()
            invariant
                i <= answers@.len(),
                state.status.wf(),
                stages_after(state.stage) + i <= 6,
                fetch_outcome(first_state(), answers@) == fetch_outcome(
                    state@,
                    answers@.skip(i as int),
                ),
            decreases answers@.len() - i,
        {
            proof {
                let rest = answers@.skip(i as int);
                assert(rest[0] == answers@[i as int]);
                assert(rest.drop_first() =~= answers@.skip(i + 1));
            }
            match state.advance(answers[i].as_ref()) {
                Step::Ask(next, _) => {
                    state = next;
                    i = i + 1;
                },
                Step::Done(result) => {
                    return Some(result);
                },
            }
        }
        None
    }

    /// What the exec step gave, over views.
    pub open spec fn step_view(step: Step<HuaweiParser>) -> HuaweiStepView {
        match step {
            Step::Ask(next, _) => HuaweiStepView::Ask(next@),
            Step::Done(Ok(status)) => HuaweiStepView::Done(Ok(status@)),
            Step::Done(Err(e)) => HuaweiStepView::Done(Err(e)),
        }
    }
}

impl ModemInfoParser for HuaweiParser {
    open spec fn requests_left(&self) -> nat {
        stages_after(self.stage)
    }

    fn begin() -> (r: (Self, Request))
        ensures
            r.0@ == first_state(),
            r.1@ == request_of(first_state()),
            r.0.status.wf(),
    {
        let plmn = match PlmnStatus::from_str("00000") {
            Ok(p) => p,
            Err(_) => PlmnStatus { plmn: String::new() },
        };
        let status = ModemStatus {
            mode: NetworkMode::Unknown,
            plmn,
            rssi: 0,
            cell_id: 0,
            signal_info: SignalInfo::NoInfo,
            band: String::new(),
            device_info: DeviceInformation::from("HUAWEI", ""),
            battery_status: None,
            device_temp: None,
            traffic_statistics: None,
            traffic_mode: TrafficMode::Absolute,
        };
        let request = Request {
            kind: DocumentKind::Xml,
            query: HuaweiParser::query_for(HuaweiStage::SessionToken),
            session_token: None,
        };
        (HuaweiParser { stage: HuaweiStage::SessionToken, session_token: None, status }, request)
    }

    fn resume(self, answer: Option<Document>) -> (r: Step<Self>)
        ensures
            HuaweiParser::step_view(r) == huawei_step(self@, xml_answer(answer)),
            r matches Step::Ask(next, request) ==> request@ == request_of(next@),
            self.status.wf() ==> match r {
                Step::Ask(next, _) => next.status.wf(),
                Step::Done(Ok(status)) => status.wf(),
                Step::Done(Err(_)) => true,
            },
    {
        match &answer {
            Some(Document::Xml(xml)) => self.advance(Some(xml)),
            _ => self.advance(None),
        }
    }
}

/// A whole fetch cycle, given the answers to its requests in order:
/// how it ends, or `None` where the answers run out before it does.
pub open spec fn fetch_outcome(s: HuaweiParserView, answers: Seq<Option<XmlElement>>) -> Option<
    Result<ModemStatusView, ModemError>,
>
    decreases answers.len(),
{
    if answers.len() == 0 {
        None
    } else {
        match huawei_step(s, answers[0]) {
            HuaweiStepView::Done(result) => Some(result),
            HuaweiStepView::Ask(next) => fetch_outcome(next, answers.drop_first()),
        }
    }
}

/// A fetch whose signal document could not be had fails with
/// `HttpConnection`, and one whose signal document lacks a required field
/// fails with `DataParsing`, whatever the other answers are.
pub proof fn lemma_signal_failure_fails_the_fetch(answers: Seq<Option<XmlElement>>)
    requires
        answers.len() >= 2,
    ensures
        answers[1] is None ==> fetch_outcome(first_state(), answers) == Some(
            Err::<ModemStatusView, ModemError>(ModemError::HttpConnection),
        ),
        answers[1] matches Some(xml) && !signal_complete(xml) ==> fetch_outcome(
            first_state(),
            answers,
        ) == Some(Err::<ModemStatusView, ModemError>(ModemError::DataParsing)),
{
    let rest = answers.drop_first();
    assert(rest[0] == answers[1]);
    reveal_with_fuel(fetch_outcome, 3);
}

/// Seven answers end every fetch. With a signal document that holds its
/// required fields the fetch gives a record, whatever the other answers
/// are, missing ones included; and what the signal document told stands
/// in that record.
pub proof fn lemma_only_the_signal_document_can_fail(answers: Seq<Option<XmlElement>>)
    requires
        answers.len() >= 7,
        answers[1] matches Some(xml) && signal_complete(xml),
    ensures
        fetch_outcome(first_state(), answers) matches Some(Ok(status)) && {
            &&& status.mode == signal_mode(answers[1].unwrap())
            &&& status.rssi == signal_status(answers[1].unwrap()).rssi
            &&& status.cell_id == signal_status(answers[1].unwrap()).cell_id
            &&& status.signal_info == signal_info_of(answers[1].unwrap())
            &&& status.traffic_mode == TrafficMode::Absolute
        },
{
    let a1 = answers.drop_first();
    let a2 = a1.drop_first();
    let a3 = a2.drop_first();
    let a4 = a3.drop_first();
    let a5 = a4.drop_first();
    let a6 = a5.drop_first();
    assert(a1[0] == answers[1]);
    let s1 = huawei_step(first_state(), answers[0])->Ask_0;
    let s2 = huawei_step(s1, a1[0])->Ask_0;
    let s3 = huawei_step(s2, a2[0])->Ask_0;
    let s4 = huawei_step(s3, a3[0])->Ask_0;
    let s5 = huawei_step(s4, a4[0])->Ask_0;
    assert(fetch_outcome(first_state(), answers) == fetch_outcome(s1, a1));
    assert(fetch_outcome(s1, a1) == fetch_outcome(s2, a2));
    assert(fetch_outcome(s2, a2) == fetch_outcome(s3, a3));
    assert(fetch_outcome(s3, a3) == fetch_outcome(s4, a4));
    assert(fetch_outcome(s4, a4) == fetch_outcome(s5, a5));
    assert(s5.stage == HuaweiStage::BasicInformation);
    match huawei_step(s5, a5[0]) {
        HuaweiStepView::Done(result) => {
            assert(fetch_outcome(s5, a5) == Some(result));
        },
        HuaweiStepView::Ask(s6) => {
            assert(fetch_outcome(s5, a5) == fetch_outcome(s6, a6));
            assert(s6.stage == HuaweiStage::Information);
            assert(fetch_outcome(s6, a6) == Some(
                huawei_step(s6, a6[0])->Done_0,
            ));
        },
    }
}

/// The cell numbers in a record read from a signal document are those
/// that its cell id holds.
pub proof fn lemma_signal_record_is_consistent(xml: XmlElement)
    requires
        signal_complete(xml),
    ensures
        signal_status(xml).cell_consistent(),
        signal_status(xml).wf(),
{
    reveal_strlit("00000");
    reveal_strlit("HUAWEI");
    reveal_strlit("");
}

} // verus!
