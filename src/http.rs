use vstd::prelude::*;

verus! {

/// Settings of an HTTP publisher: where to post, and whether to trust invalid
/// TLS certificates.
#[derive(Clone)]
pub struct Builder {
    insecure: bool,
    url: String,
}

impl Builder {
    /// No URL, certificates checked.
    pub fn new() -> (r: Builder)
        ensures
            r.url()@ == Seq::<char>::empty(),
            !r.insecure(),
    {
        Builder { insecure: false, url: String::new() }
    }

    pub closed spec fn insecure(&self) -> bool {
        self.insecure
    }

    pub closed spec fn url(&self) -> String {
        self.url
    }

    /// Whether invalid certificates are trusted.
    pub fn is_insecure(&self) -> (r: bool)
        ensures
            r == self.insecure(),
    {
        self.insecure
    }

    /// The URL that events are posted to.
    pub fn get_url(&self) -> (r: &String)
        ensures
            r == self.url(),
    {
        &self.url
    }

    /// Trusts invalid TLS certificates when `insecure`; dangerous, off unless asked for.
    pub fn with_insecure(&mut self, insecure: bool) -> (r: &mut Builder)
        ensures
            r.insecure() == insecure,
            r.url() == old(self).url(),
            *final(self) == *final(r),
    {
        self.insecure = insecure;
        self
    }

    /// Posts to `url`.
    pub fn with_url(&mut self, url: &str) -> (r: &mut Builder)
        ensures
            r.url()@ == url@,
            r.insecure() == old(self).insecure(),
            *final(self) == *final(r),
    {
        self.url = String::from_str(url);
        self
    }
}

impl Default for Builder {
    fn default() -> (r: Builder)
        ensures
            r.url()@ == Seq::<char>::empty(),
            !r.insecure(),
    {
        Builder::new()
    }
}

} // verus!
