use ride::cli::{HttpOpts, MqttOpts, StdoutOpts, SubCommand};
use ride::decimal::format_fixed6;
use ride::event::{frame_event, Event, Publisher};
use ride::http::Builder;
use ride::mqtt::EmitterConfig;
use ride::planner::Waypoint;
use ride::position::Position;
use ride::stdout::StdoutEventer;

fn times_square() -> Event {
    Event::from_waypoint(Waypoint {
        id: "dev".to_string(),
        pos: Position { lon_e6: -73_985_700, lat_e6: 40_748_400 },
    })
}

#[test]
fn six_decimal_places() {
    assert_eq!(format_fixed6(-73_985_700), "-73.985700");
    assert_eq!(format_fixed6(40_748_400), "40.748400");
    assert_eq!(format_fixed6(0), "0.000000");
    assert_eq!(format_fixed6(1), "0.000001");
    assert_eq!(format_fixed6(-500_000), "-0.500000");
    assert_eq!(format_fixed6(180_000_000), "180.000000");
    assert_eq!(format_fixed6(i64::MIN), "-9223372036854.775808");
}

#[test]
fn event_from_position() {
    let e = times_square();
    assert_eq!(e.id, "dev");
    assert_eq!(e.x, "-73.985700");
    assert_eq!(e.y, "40.748400");
}

#[test]
fn event_json_round_trip() {
    let e = times_square();
    let json = e.to_json(false).unwrap();
    assert_eq!(json, r#"{"id":"dev","x":"-73.985700","y":"40.748400"}"#);
    let back: serde_json::Value = serde_json::from_str(&json).unwrap();
    assert_eq!(back["id"].as_str(), Some("dev"));
    assert_eq!(back["x"].as_str(), Some("-73.985700"));
    assert_eq!(back["y"].as_str(), Some("40.748400"));
}

#[test]
fn pretty_json_matches_serde_layout() {
    let e = times_square();
    let pretty = e.to_json(true).unwrap();
    let mut m = serde_json::Map::new();
    m.insert("id".to_string(), serde_json::Value::String("dev".to_string()));
    m.insert("x".to_string(), serde_json::Value::String("-73.985700".to_string()));
    m.insert("y".to_string(), serde_json::Value::String("40.748400".to_string()));
    let expected = serde_json::to_string_pretty(&serde_json::Value::Object(m)).unwrap();
    assert_eq!(pretty, expected);
}

#[test]
fn ids_are_escaped() {
    let e = Event { id: "a\"b\\c".to_string(), x: "1.000000".to_string(), y: "2.000000".to_string() };
    let json = e.to_json(false).unwrap();
    assert_eq!(json, r#"{"id":"a\"b\\c","x":"1.000000","y":"2.000000"}"#);
    let back: serde_json::Value = serde_json::from_str(&json).unwrap();
    assert_eq!(back["id"].as_str(), Some("a\"b\\c"));
}

#[test]
fn framing_of_quoted_members() {
    assert_eq!(frame_event("\"i\"", "\"1\"", "\"2\"", false), r#"{"id":"i","x":"1","y":"2"}"#);
    assert_eq!(
        frame_event("\"i\"", "\"1\"", "\"2\"", true),
        "{\n  \"id\": \"i\",\n  \"x\": \"1\",\n  \"y\": \"2\"\n}"
    );
}

#[test]
fn payload_is_pretty_only_when_printing_pretty() {
    let e = times_square();
    let compact = e.to_json(false).unwrap();
    let pretty = e.to_json(true).unwrap();
    assert_eq!(Publisher::stdout(true).payload(&e).unwrap(), pretty);
    assert_eq!(Publisher::stdout(false).payload(&e).unwrap(), compact);
    assert_eq!(Publisher::http("http://localhost:9000", true).payload(&e).unwrap(), compact);
    assert_eq!(Publisher::mqtt("tcp://localhost:1883", "ride").payload(&e).unwrap(), compact);
}

#[test]
fn publishers_hold_their_settings() {
    match Publisher::http("localhost:9000", true) {
        Publisher::HttpPost(b) => {
            assert_eq!(b.get_url(), "localhost:9000");
            assert!(b.is_insecure());
        }
        _ => panic!("not an HTTP publisher"),
    }
    match Publisher::mqtt("tcp://broker:1883", "cars") {
        Publisher::Mqtt(c) => {
            assert_eq!(c.get_uri(), "tcp://broker:1883");
            assert_eq!(c.get_topic(), "cars");
            assert_eq!(c.get_qos(), 1);
        }
        _ => panic!("not an MQTT publisher"),
    }
    assert!(matches!(Publisher::stdout(true), Publisher::Print(StdoutEventer { pretty: true })));
}

#[test]
fn builders_set_one_field_each() {
    let b = Builder::default();
    assert_eq!(b.get_url(), "");
    assert!(!b.is_insecure());
    let mut b = b;
    b.with_url("https://example.org/events").with_insecure(true);
    assert_eq!(b.get_url(), "https://example.org/events");
    assert!(b.is_insecure());
    let mut c = EmitterConfig::default();
    c.with_uri("tcp://h:1883").with_topic("t").with_qos(2);
    assert_eq!(c.get_uri(), "tcp://h:1883");
    assert_eq!(c.get_topic(), "t");
    assert_eq!(c.get_qos(), 2);
}

#[test]
fn output_choice_gives_its_publisher() {
    let s = SubCommand::Stdout(StdoutOpts { pretty: true }).publisher();
    assert!(matches!(s, Publisher::Print(StdoutEventer { pretty: true })));
    let h = SubCommand::Http(HttpOpts { uri: "localhost:9000".to_string(), insecure: false }).publisher();
    match h {
        Publisher::HttpPost(b) => {
            assert_eq!(b.get_url(), "localhost:9000");
            assert!(!b.is_insecure());
        }
        _ => panic!("not an HTTP publisher"),
    }
    let m = SubCommand::Mqtt(MqttOpts { uri: "tcp://b:1883".to_string(), topic: "t".to_string(), qos: 0 }).publisher();
    match m {
        Publisher::Mqtt(c) => {
            assert_eq!(c.get_uri(), "tcp://b:1883");
            assert_eq!(c.get_topic(), "t");
            assert_eq!(c.get_qos(), 0);
        }
        _ => panic!("not an MQTT publisher"),
    }
}

#[test]
fn console_payload_of_canonical_event() {
    let e = Event::from_waypoint(Waypoint {
        id: "dev-1".to_string(),
        pos: Position { lon_e6: -73_985_700, lat_e6: 40_748_400 },
    });
    let compact = Publisher::Print(StdoutEventer { pretty: false }).payload(&e).unwrap();
    assert_eq!(compact, r#"{"id":"dev-1","x":"-73.985700","y":"40.748400"}"#);
    assert!(!compact.contains('\n'));
    let pretty = Publisher::Print(StdoutEventer { pretty: true }).payload(&e).unwrap();
    let a: serde_json::Value = serde_json::from_str(&compact).unwrap();
    let b: serde_json::Value = serde_json::from_str(&pretty).unwrap();
    assert_eq!(a, b);
}
