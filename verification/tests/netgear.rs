use antenna_status::bandwidth_utils::{TrafficMode, TrafficStatistics, SIZE_TB};
use antenna_status::json::JsonValue;
use antenna_status::modem_utils::{
    BatteryStatus, DeviceInformation, DeviceTemperature, Document, DocumentKind, LteSignalInfo,
    ModemError, ModemInfoParser, ModemStatus, NetworkMode, PlmnStatus, Request, SignalInfo, Step,
    WcdmaSignalInfo,
};
use antenna_status::netgear_parser::{counter_to_bits, get_mode_by_description, NetgearParser};
use antenna_status::xml::XmlElement;

const LTE_DOCUMENT: &str = r#"{
  "general": {"companyName": "NETGEAR", "deviceName": "MR1100", "devTemperature": 45},
  "power": {"battChargeLevel": 87, "battChargeSource": "USB", "batteryTemperature": 31},
  "wwan": {
    "currentNWserviceType": "LteService",
    "signalStrength": {"rssi": -65, "rsrp": -95, "rsrq": -11, "sinr": 14, "rscp": 0, "ecio": 0},
    "ca": {"SCCcount": 2},
    "dataTransferredRx": "123456",
    "dataTransferredTx": "654"
  },
  "wwanadv": {"MCC": "250", "MNC": "01", "curBand": "LTE B3", "cellId": 4660, "primScode": 301}
}"#;

fn document(text: &str) -> JsonValue {
    JsonValue::parse(text).unwrap()
}

/// `LTE_DOCUMENT` with one piece of text replaced by another.
fn changed(from: &str, to: &str) -> JsonValue {
    assert!(LTE_DOCUMENT.contains(from));
    document(&LTE_DOCUMENT.replacen(from, to, 1))
}

fn lte_record() -> ModemStatus {
    ModemStatus {
        mode: NetworkMode::Lte,
        plmn: PlmnStatus { plmn: String::from("25001") },
        rssi: -65,
        cell_id: 4660,
        signal_info: SignalInfo::Lte(LteSignalInfo {
            rsrq: -11,
            rsrp: -95,
            sinr: 14,
            ca_count: 2,
            enb: 0x12,
            id: 0x34,
            pci: 301,
        }),
        band: String::from("LTE B3"),
        device_info: DeviceInformation {
            manufacturer: String::from("NETGEAR"),
            model: String::from("MR1100"),
        },
        battery_status: Some(BatteryStatus { percent: 87, status: String::from("USB") }),
        device_temp: Some(DeviceTemperature { device_temp: 45, battery_temp: 31 }),
        traffic_statistics: Some(TrafficStatistics { dl: 123456 * 8, ul: 654 * 8 }),
        traffic_mode: TrafficMode::Cumulative,
    }
}

#[test]
fn get_mode_by_description_knows_three_services() {
    assert_eq!(get_mode_by_description("GsmService"), NetworkMode::Gsm);
    assert_eq!(get_mode_by_description("WcdmaService"), NetworkMode::Wcdma);
    assert_eq!(get_mode_by_description("LteService"), NetworkMode::Lte);
    assert_eq!(get_mode_by_description("lteservice"), NetworkMode::Unknown);
    assert_eq!(get_mode_by_description(""), NetworkMode::Unknown);
}

#[test]
fn parse_info_json_reads_an_lte_document() {
    assert_eq!(NetgearParser::parse_info_json(&document(LTE_DOCUMENT)), Some(lte_record()));
}

#[test]
fn parse_info_json_reads_a_wcdma_document() {
    let json = changed("LteService", "WcdmaService");
    let json = match json {
        JsonValue::Object(mut entries) => {
            for entry in entries.iter_mut() {
                if entry.0 == "wwanadv" {
                    entry.1 = document(
                        r#"{"MCC": "310", "MNC": "410", "curBand": "WCDMA 2100", "cellId": 1245189,
                            "primScode": 17}"#,
                    );
                }
            }
            JsonValue::Object(entries)
        }
        other => other,
    };
    let status = NetgearParser::parse_info_json(&json).unwrap();
    assert_eq!(status.mode, NetworkMode::Wcdma);
    assert_eq!(
        status.signal_info,
        SignalInfo::Wcdma(WcdmaSignalInfo { rscp: 0, ecio: 0, nb: 0, cc: 5, rnc: 0x13, psc: 17 })
    );
    assert_eq!(status.plmn.plmn, "310410");
    assert_eq!(status.band, "WCDMA 2100");
    assert_eq!(status.get_mode(), "WCDMA");
}

#[test]
fn parse_info_json_without_signal_information_for_other_modes() {
    let status = NetgearParser::parse_info_json(&changed("LteService", "GsmService")).unwrap();
    assert_eq!(status.mode, NetworkMode::Gsm);
    assert_eq!(status.signal_info, SignalInfo::NoInfo);
    let status = NetgearParser::parse_info_json(&changed("LteService", "Other")).unwrap();
    assert_eq!(status.mode, NetworkMode::Unknown);
    assert_eq!(status.signal_info, SignalInfo::NoInfo);
}

#[test]
fn parse_info_json_fails_on_each_missing_required_field() {
    for name in [
        "companyName",
        "deviceName",
        "devTemperature",
        "battChargeLevel",
        "battChargeSource",
        "batteryTemperature",
        "currentNWserviceType",
        "rssi",
        "rsrp",
        "rsrq",
        "sinr",
        "MCC",
        "MNC",
        "curBand",
        "cellId",
        "primScode",
    ] {
        let key = format!("\"{name}\"");
        let json = changed(&key, "\"renamed\"");
        assert_eq!(NetgearParser::parse_info_json(&json), None, "without {name}");
        assert_eq!(
            NetgearParser::get_info(Some(&json)),
            Err(ModemError::DataParsing),
            "without {name}"
        );
    }
}

#[test]
fn parse_info_json_fails_on_a_missing_group() {
    for name in ["general", "power", "wwan", "wwanadv", "signalStrength"] {
        let key = format!("\"{name}\"");
        let json = changed(&key, "\"renamed\"");
        assert_eq!(NetgearParser::parse_info_json(&json), None, "without {name}");
    }
    assert_eq!(NetgearParser::parse_info_json(&document("{}")), None);
    assert_eq!(NetgearParser::parse_info_json(&document("[]")), None);
    assert_eq!(NetgearParser::parse_info_json(&JsonValue::Null), None);
}

#[test]
fn parse_info_json_fails_on_a_field_of_the_wrong_type() {
    assert_eq!(NetgearParser::parse_info_json(&changed("\"rssi\": -65", "\"rssi\": \"-65\"")), None);
    assert_eq!(NetgearParser::parse_info_json(&changed("\"rssi\": -65", "\"rssi\": -65.5")), None);
    assert_eq!(NetgearParser::parse_info_json(&changed("\"MCC\": \"250\"", "\"MCC\": 250")), None);
    assert_eq!(NetgearParser::parse_info_json(&changed("\"cellId\": 4660", "\"cellId\": null")), None);
}

#[test]
fn parse_info_json_ignores_fields_of_other_modes() {
    // the WCDMA figures are not asked for in LTE mode
    let json = changed("\"rscp\": 0, \"ecio\": 0", "\"other\": 0");
    assert_eq!(NetgearParser::parse_info_json(&json), Some(lte_record()));
    // nor the LTE figures in GSM mode
    let json = document(
        &LTE_DOCUMENT
            .replacen("LteService", "GsmService", 1)
            .replacen("\"rsrp\": -95, \"rsrq\": -11, \"sinr\": 14,", "", 1)
            .replacen(", \"primScode\": 301", "", 1),
    );
    assert!(NetgearParser::parse_info_json(&json).is_some());
}

#[test]
fn carrier_count_is_optional() {
    let mut expected = lte_record();
    expected.signal_info = SignalInfo::Lte(LteSignalInfo {
        rsrq: -11,
        rsrp: -95,
        sinr: 14,
        ca_count: 0,
        enb: 0x12,
        id: 0x34,
        pci: 301,
    });
    let json = changed("\"ca\": {\"SCCcount\": 2},", "");
    assert_eq!(NetgearParser::parse_info_json(&json), Some(expected.clone()));
    let json = changed("\"SCCcount\": 2", "\"SCCcount\": \"2\"");
    assert_eq!(NetgearParser::parse_info_json(&json), Some(expected));
}

#[test]
fn counters_are_optional_and_held_to_a_ceiling() {
    let dl = |json: &JsonValue| {
        NetgearParser::parse_info_json(json).unwrap().traffic_statistics.unwrap().dl
    };
    assert_eq!(dl(&document(LTE_DOCUMENT)), 987648);
    assert_eq!(dl(&changed("\"dataTransferredRx\": \"123456\",", "")), 0);
    assert_eq!(dl(&changed("\"123456\"", "123456")), 0);
    assert_eq!(dl(&changed("\"123456\"", "\"12x\"")), 0);
    assert_eq!(dl(&changed("\"123456\"", "\"1099511627776\"")), 8796093022208);
    assert_eq!(dl(&changed("\"123456\"", "\"1099511627777\"")), 0);
    assert_eq!(dl(&changed("\"123456\"", "\"-5\"")), -40);
}

#[test]
fn counter_to_bits_is_eightfold_within_bounds() {
    assert_eq!(counter_to_bits(None), 0);
    assert_eq!(counter_to_bits(Some(0)), 0);
    assert_eq!(counter_to_bits(Some(1)), 8);
    assert_eq!(counter_to_bits(Some(SIZE_TB)), SIZE_TB * 8);
    assert_eq!(counter_to_bits(Some(SIZE_TB + 1)), 0);
    assert_eq!(counter_to_bits(Some(i64::MAX)), 0);
    assert_eq!(counter_to_bits(Some(-1)), -8);
    assert_eq!(counter_to_bits(Some(i64::MIN / 8)), i64::MIN);
    assert_eq!(counter_to_bits(Some(i64::MIN / 8 - 1)), 0);
    assert_eq!(counter_to_bits(Some(i64::MIN)), 0);
}

#[test]
fn text_fields_are_cut_to_their_widths() {
    let json = changed("\"MR1100\"", "\"a model name of more than forty characters, cut\"");
    let status = NetgearParser::parse_info_json(&json).unwrap();
    assert_eq!(status.device_info.model, "a model name of more than forty charact");
    let json = changed("\"LTE B3\"", "\"a band of over twenty characters\"");
    let status = NetgearParser::parse_info_json(&json).unwrap();
    assert_eq!(status.band, "a band of over twen");
    let json = changed("\"MNC\": \"01\"", "\"MNC\": \"012\"");
    let status = NetgearParser::parse_info_json(&json).unwrap();
    assert_eq!(status.plmn.plmn, "250012");
    assert_eq!(status.get_plmn(), "250012");
    let json = changed("\"MNC\": \"01\"", "\"MNC\": \"0123\"");
    let status = NetgearParser::parse_info_json(&json).unwrap();
    assert_eq!(status.plmn.plmn, "250012");
    let json = changed("\"MCC\": \"250\", \"MNC\": \"01\"", "\"MCC\": \"310\", \"MNC\": \"260\"");
    let status = NetgearParser::parse_info_json(&json).unwrap();
    assert_eq!(status.get_plmn(), "310260");
}

#[test]
fn get_info_tells_a_missing_document_from_a_bad_one() {
    assert_eq!(NetgearParser::get_info(None), Err(ModemError::HttpConnection));
    assert_eq!(NetgearParser::get_info(Some(&document("{}"))), Err(ModemError::DataParsing));
    assert_eq!(NetgearParser::get_info(Some(&document(LTE_DOCUMENT))), Ok(lte_record()));
}

#[test]
fn a_fetch_is_one_request() {
    let (state, request) = NetgearParser::begin();
    assert_eq!(
        request,
        Request {
            kind: DocumentKind::Json,
            query: String::from("/model.json?internalapi=1"),
            session_token: None
        }
    );
    assert_eq!(NetgearParser::info_query(), "/model.json?internalapi=1");
    let step = state.clone().resume(Some(Document::Json(document(LTE_DOCUMENT))));
    assert_eq!(step, Step::Done(Ok(lte_record())));
    assert_eq!(state.clone().resume(None), Step::Done(Err(ModemError::HttpConnection)));
    assert_eq!(
        state.clone().resume(Some(Document::Json(document("{}")))),
        Step::Done(Err(ModemError::DataParsing))
    );
    let xml = XmlElement::parse("<response/>").unwrap();
    assert_eq!(state.resume(Some(Document::Xml(xml))), Step::Done(Err(ModemError::HttpConnection)));
}
