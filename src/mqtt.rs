use vstd::prelude::*;

verus! {

/// Settings of an MQTT publisher: the broker, the topic, and the quality of service.
#[derive(Clone)]
pub struct EmitterConfig {
    uri: String,
    topic: String,
    qos: i32,
}

impl EmitterConfig {
    /// No broker, no topic, quality of service 0.
    pub fn new() -> (r: EmitterConfig)
        ensures
            r.uri()@ == Seq::<char>::empty(),
            r.topic()@ == Seq::<char>::empty(),
            r.qos() == 0,
    {
        EmitterConfig { uri: String::new(), topic: String::new(), qos: 0 }
    }

    pub closed spec fn uri(&self) -> String {
        self.uri
    }

    pub closed spec fn topic(&self) -> String {
        self.topic
    }

    pub closed spec fn qos(&self) -> i32 {
        self.qos
    }

    /// The broker's URI.
    pub fn get_uri(&self) -> (r: &String)
        ensures
            r == self.uri(),
    {
        &self.uri
    }

    /// The topic that events are published to.
    pub fn get_topic(&self) -> (r: &String)
        ensures
            r == self.topic(),
    {
        &self.topic
    }

    /// The quality of service of each message.
    pub fn get_qos(&self) -> (r: i32)
        ensures
            r == self.qos(),
    {
        self.qos
    }

    /// Connects to the broker at `uri`.
    pub fn with_uri(&mut self, uri: &str) -> (r: &mut EmitterConfig)
        ensures
            r.uri()@ == uri@,
            r.topic() == old(self).topic(),
            r.qos() == old(self).qos(),
            *final(self) == *final(r),
    {
        self.uri = String::from_str(uri);
        self
    }

    /// Publishes to `topic`.
    pub fn with_topic(&mut self, topic: &str) -> (r: &mut EmitterConfig)
        ensures
            r.topic()@ == topic@,
            r.uri() == old(self).uri(),
            r.qos() == old(self).qos(),
            *final(self) == *final(r),
    {
        self.topic = String::from_str(topic);
        self
    }

    /// Publishes at quality of service `qos`.
    pub fn with_qos(&mut self, qos: i32) -> (r: &mut EmitterConfig)
        ensures
            r.qos() == qos,
            r.uri() == old(self).uri(),
            r.topic() == old(self).topic(),
            *final(self) == *final(r),
    {
        self.qos = qos;
        self
    }
}

impl Default for EmitterConfig {
    fn default() -> (r: EmitterConfig)
        ensures
            r.uri()@ == Seq::<char>::empty(),
            r.topic()@ == Seq::<char>::empty(),
            r.qos() == 0,
    {
        EmitterConfig::new()
    }
}

} // verus!
