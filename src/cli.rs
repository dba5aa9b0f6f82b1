use vstd::prelude::*;

use crate::event::Publisher;
use crate::mqtt::EmitterConfig;
use crate::stdout::StdoutEventer;

verus! {

/// Where the events of a run go.
pub enum SubCommand {
    Stdout(StdoutOpts),
    Http(HttpOpts),
    Mqtt(MqttOpts),
}

/// Printing to standard output.
pub struct StdoutOpts {
    /// Pretty formatting of the JSON.
    pub pretty: bool,
}

/// Posting to an HTTP endpoint.
pub struct HttpOpts {
    /// URI to post events to.
    pub uri: String,
    /// Trust invalid TLS certificates: any certificate for any site, expired
    /// ones included. Dangerous; only a last resort.
    pub insecure: bool,
}

/// Publishing to an MQTT topic.
pub struct MqttOpts {
    /// URI of the broker.
    pub uri: String,
    /// Topic to publish events to.
    pub topic: String,
    /// Quality of service of each message.
    pub qos: i32,
}

impl SubCommand {
    /// The publisher that this choice of output describes.
    pub fn publisher(&self) -> (r: Publisher)
        ensures
            match self {
                SubCommand::Stdout(o) => r == Publisher::Print(StdoutEventer { pretty: o.pretty }),
                SubCommand::Http(o) => r matches Publisher::HttpPost(b) && b.url()@ == o.uri@
                    && b.insecure() == o.insecure,
                SubCommand::Mqtt(o) => r matches Publisher::Mqtt(c) && c.uri()@ == o.uri@
                    && c.topic()@ == o.topic@ && c.qos() == o.qos,
            },
    {
        match self {
            SubCommand::Stdout(o) => Publisher::stdout(o.pretty),
            SubCommand::Http(o) => Publisher::http(o.uri.as_str(), o.insecure),
            SubCommand::Mqtt(o) => {
                let mut c = EmitterConfig::new();
                c.with_uri(o.uri.as_str()).with_topic(o.topic.as_str()).with_qos(o.qos);
                Publisher::Mqtt(c)
            },
        }
    }
}

} // verus!
