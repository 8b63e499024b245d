use vstd::prelude::*;

verus! {

/// Credentials and device identifiers for the vendor API, read from the
/// configuration file at startup and passed to whatever talks to the API.
#[derive(Debug)]
pub struct Struct {
    api_key: String,
    device: String,
    model: String,
}

impl Struct {
    /// Bundles the values read from the configuration file.
    pub fn new(api_key: String, device: String, model: String) -> (r: Struct)
        ensures
            r.spec_api_key() == api_key@,
            r.spec_device() == device@,
            r.spec_model() == model@,
    {
        Struct { api_key, device, model }
    }

    pub closed spec fn spec_api_key(&self) -> Seq<char> {
        self.api_key@
    }

    pub closed spec fn spec_device(&self) -> Seq<char> {
        self.device@
    }

    pub closed spec fn spec_model(&self) -> Seq<char> {
        self.model@
    }

    /// The vendor API key.
    pub fn api_key(&self) -> (r: &String)
        ensures
            r@ == self.spec_api_key(),
    {
        &self.api_key
    }

    /// The controlled device's identifier.
    pub fn device(&self) -> (r: &String)
        ensures
            r@ == self.spec_device(),
    {
        &self.device
    }

    /// The controlled device's model name.
    pub fn model(&self) -> (r: &String)
        ensures
            r@ == self.spec_model(),
    {
        &self.model
    }
}

} // verus!
