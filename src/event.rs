use vstd::prelude::*;

use crate::decimal::{fixed6, format_fixed6};
use crate::http;
use crate::decimal::{decimal, digit_char, padded};
use crate::json::{json_plain, json_quote, json_string, quoted};
use crate::mqtt;
use crate::planner::Waypoint;
use crate::stdout::StdoutEventer;

verus! {

/// What can go wrong while publishing an event.
#[derive(Debug)]
pub enum Error {
    /// The MQTT broker could not be reached or refused the message.
    MqttConnectError(String),
    /// The HTTP request could not be made.
    HttpClientError(String),
    /// The event could not be written as JSON.
    JsonError(String),
}

/// A telemetry record: device id, and longitude and latitude with six decimal places.
pub struct Event {
    pub id: String,
    pub x: String,
    pub y: String,
}

/// The JSON object `{"id": .., "x": .., "y": ..}` from its three members, each
/// already written as a JSON string literal: on one line, or over five lines
/// with the members indented by two spaces.
pub open spec fn json_object(qid: Seq<char>, qx: Seq<char>, qy: Seq<char>, pretty: bool) -> Seq<
    char,
> {
    if pretty {
        "{\n  \"id\": "@ + qid + ",\n  \"x\": "@ + qx + ",\n  \"y\": "@ + qy + "\n}"@
    } else {
        "{\"id\":"@ + qid + ",\"x\":"@ + qx + ",\"y\":"@ + qy + "}"@
    }
}

/// The JSON text of an event with these fields.
pub open spec fn event_json(id: Seq<char>, x: Seq<char>, y: Seq<char>, pretty: bool) -> Seq<
    char,
> {
    json_object(json_string(id), json_string(x), json_string(y), pretty)
}

/// Lays out the JSON object of an event from its three members, each already
/// written as a JSON string literal.
pub fn frame_event(qid: &str, qx: &str, qy: &str, pretty: bool) -> (r: String)
    ensures
        r@ == json_object(qid@, qx@, qy@, pretty),
{
    let mut s: String;
    if pretty {
        s = String::from_str("{\n  \"id\": ");
        s.append(qid);
        s.append(",\n  \"x\": ");
        s.append(qx);
        s.append(",\n  \"y\": ");
        s.append(qy);
        s.append("\n}");
    } else {
        s = String::from_str("{\"id\":");
        s.append(qid);
        s.append(",\"x\":");
        s.append(qx);
        s.append(",\"y\":");
        s.append(qy);
        s.append("}");
    }
    s
}

impl Event {
    /// The event that reports a waypoint: its device id, and its longitude
    /// and latitude with exactly six decimal places, which need no escaping in JSON.
    pub fn from_waypoint(w: Waypoint) -> (r: Event)
        ensures
            r.id == w.id,
            r.x@ == fixed6(w.pos.lon_e6 as int),
            r.y@ == fixed6(w.pos.lat_e6 as int),
            json_plain(r.x@),
            json_plain(r.y@),
    {
        proof {
            lemma_fixed6_plain(w.pos.lon_e6 as int);
            lemma_fixed6_plain(w.pos.lat_e6 as int);
        }
        Event { id: w.id, x: format_fixed6(w.pos.lon_e6), y: format_fixed6(w.pos.lat_e6) }
    }

    /// The event as a JSON object, compact or pretty-printed. Writing strings
    /// as JSON cannot fail, so this always succeeds; fields that need no
    /// escaping appear as they are, between quotes.
    pub fn to_json(&self, pretty: bool) -> (r: Result<String, Error>)
        ensures
            r matches Ok(j) && j@ == event_json(self.id@, self.x@, self.y@, pretty),
            json_plain(self.id@) && json_plain(self.x@) && json_plain(self.y@) ==> (r matches Ok(
                j,
            ) && j@ == json_object(quoted(self.id@), quoted(self.x@), quoted(self.y@), pretty)),
    {
        let qid = match json_quote(self.id.as_str()) {
            Ok(q) => q,
            Err(e) => {
                return Err(Error::JsonError(e));
            },
        };
        let qx = match json_quote(self.x.as_str()) {
            Ok(q) => q,
            Err(e) => {
                return Err(Error::JsonError(e));
            },
        };
        let qy = match json_quote(self.y.as_str()) {
            Ok(q) => q,
            Err(e) => {
                return Err(Error::JsonError(e));
            },
        };
        Ok(frame_event(qid.as_str(), qx.as_str(), qy.as_str(), pretty))
    }
}

/// The digits, sign and point of a number with six decimal places all stand
/// as themselves in JSON.
pub proof fn lemma_fixed6_plain(v: int)
    ensures
        json_plain(fixed6(v)),
{
    let m: nat = if v < 0 {
        (-v) as nat
    } else {
        v as nat
    };
    lemma_decimal_plain(m / 1_000_000);
    lemma_padded_plain(m % 1_000_000, 6);
    let sign: Seq<char> = if v < 0 {
        seq!['-']
    } else {
        seq![]
    };
    let s = sign + decimal(m / 1_000_000) + seq!['.'] + padded(m % 1_000_000, 6);
    assert(s =~= fixed6(v));
    assert forall|k: int| 0 <= k < s.len() implies crate::json::json_plain_char(#[trigger] s[k]) by {
        if k < sign.len() {
        } else if k < sign.len() + decimal(m / 1_000_000).len() {
            assert(s[k] == decimal(m / 1_000_000)[k - sign.len()]);
        } else if k == sign.len() + decimal(m / 1_000_000).len() {
        } else {
            assert(s[k] == padded(m % 1_000_000, 6)[k - sign.len() - decimal(m / 1_000_000).len()
                - 1]);
        }
    }
}

proof fn lemma_digit_plain(d: int)
    ensures
        crate::json::json_plain_char(digit_char(d)),
{
}

proof fn lemma_decimal_plain(n: nat)
    ensures
        json_plain(decimal(n)),
    decreases n,
{
    lemma_digit_plain(n as int);
    lemma_digit_plain((n % 10) as int);
    if n >= 10 {
        lemma_decimal_plain(n / 10);
        let s = decimal(n);
        assert forall|k: int| 0 <= k < s.len() implies crate::json::json_plain_char(
            #[trigger] s[k],
        ) by {
            if k < s.len() - 1 {
                assert(s[k] == decimal(n / 10)[k]);
            }
        }
    }
}

proof fn lemma_padded_plain(n: nat, width: nat)
    ensures
        json_plain(padded(n, width)),
    decreases width,
{
    if width > 0 {
        lemma_digit_plain((n % 10) as int);
        lemma_padded_plain(n / 10, (width - 1) as nat);
        let s = padded(n, width);
        assert forall|k: int| 0 <= k < s.len() implies crate::json::json_plain_char(
            #[trigger] s[k],
        ) by {
            if k < s.len() - 1 {
                assert(s[k] == padded(n / 10, (width - 1) as nat)[k]);
            }
        }
    }
}

/// Where events go: printed, posted over HTTP, or published to an MQTT topic.
#[derive(Clone)]
pub enum Publisher {
    Print(StdoutEventer),
    HttpPost(http::Builder),
    Mqtt(mqtt::EmitterConfig),
}

impl Publisher {
    /// Printing to standard output, pretty-printed or compact.
    pub fn stdout(pretty: bool) -> (r: Publisher)
        ensures
            r == Publisher::Print(StdoutEventer { pretty }),
    {
        Publisher::Print(StdoutEventer { pretty })
    }

    /// Posting to `url`, trusting invalid TLS certificates when `insecure`.
    pub fn http(url: &str, insecure: bool) -> (r: Publisher)
        ensures
            r matches Publisher::HttpPost(b) && b.url()@ == url@ && b.insecure() == insecure,
    {
        let mut b = http::Builder::new();
        b.with_url(url).with_insecure(insecure);
        Publisher::HttpPost(b)
    }

    /// Publishing to `topic` on the broker at `uri`, at quality of service 1.
    pub fn mqtt(uri: &str, topic: &str) -> (r: Publisher)
        ensures
            r matches Publisher::Mqtt(c) && c.uri()@ == uri@ && c.topic()@ == topic@ && c.qos()
                == 1,
    {
        let mut c = mqtt::EmitterConfig::new();
        c.with_uri(uri).with_topic(topic).with_qos(1);
        Publisher::Mqtt(c)
    }

    /// Whether this publisher writes events pretty-printed.
    pub open spec fn pretty(&self) -> bool {
        match self {
            Publisher::Print(p) => p.pretty,
            _ => false,
        }
    }

    /// The text that goes out for an event: its JSON, pretty-printed only when
    /// printing with pretty output. It always succeeds.
    pub fn payload(&self, e: &Event) -> (r: Result<String, Error>)
        ensures
            r matches Ok(j) && j@ == event_json(e.id@, e.x@, e.y@, self.pretty()),
            json_plain(e.id@) && json_plain(e.x@) && json_plain(e.y@) ==> (r matches Ok(j) && j@
                == json_object(quoted(e.id@), quoted(e.x@), quoted(e.y@), self.pretty())),
    {
        match self {
            Publisher::Print(p) => e.to_json(p.pretty),
            _ => e.to_json(false),
        }
    }
}

} // verus!
