use antenna_status::client::ModemClient;
use antenna_status::json::JsonValue;
use antenna_status::modem_utils::{Document, DocumentKind, ModemError, Request, Step};
use antenna_status::xml::XmlElement;

fn xml(text: &str) -> Option<Document> {
    XmlElement::parse(text).map(Document::Xml)
}

#[test]
fn an_unknown_manufacturer_is_an_unknown_error() {
    for id in [2, 3, -1, i32::MAX, i32::MIN] {
        assert_eq!(ModemClient::begin(id), Err(ModemError::Unknown));
    }
}

#[test]
fn manufacturer_zero_is_netgear() {
    let (client, request) = ModemClient::begin(0).unwrap();
    assert_eq!(request.kind, DocumentKind::Json);
    assert_eq!(request.query, "/model.json?internalapi=1");
    assert!(matches!(client, ModemClient::Netgear(_)));
    assert_eq!(client.resume(None), Step::Done(Err(ModemError::HttpConnection)));
    let (client, _) = ModemClient::begin(0).unwrap();
    assert_eq!(
        client.resume(JsonValue::parse("{}").map(Document::Json)),
        Step::Done(Err(ModemError::DataParsing))
    );
}

#[test]
fn manufacturer_one_is_huawei() {
    let (client, request) = ModemClient::begin(1).unwrap();
    assert_eq!(
        request,
        Request {
            kind: DocumentKind::Xml,
            query: String::from("/api/webserver/SesTokInfo"),
            session_token: None
        }
    );
    let client = match client.resume(None) {
        Step::Ask(next, request) => {
            assert_eq!(request.query, "/api/device/signal");
            assert!(matches!(next, ModemClient::Huawei(_)));
            next
        }
        other => panic!("not asking: {other:?}"),
    };
    assert_eq!(
        client.resume(xml("<response><mode>7</mode><rssi>-65dBm</rssi></response>")),
        Step::Done(Err(ModemError::DataParsing))
    );
}

#[test]
fn every_fetch_ends_within_seven_requests() {
    let signal = "<response><mode>0</mode><rssi>-65</rssi><cell_id>1</cell_id></response>";
    let (mut client, _) = ModemClient::begin(1).unwrap();
    let mut requests = 1;
    loop {
        match client.resume(xml(signal)) {
            Step::Ask(next, _) => {
                client = next;
                requests += 1;
                assert!(requests <= 7);
            }
            Step::Done(result) => {
                assert!(result.is_ok());
                break;
            }
        }
    }
    assert_eq!(requests, 7);
}
