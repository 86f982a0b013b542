use vstd::prelude::*;

verus! {

/// API Key for the remote service.
/// This is required for write requests.
///
/// If you believe you need an API Key,
/// contact the maintainer of the remote service you are using.
pub struct ApiKey(String);

impl View for ApiKey {
    type V = Seq<char>;

    closed spec fn view(&self) -> Seq<char> {
        self.0@
    }
}

impl ApiKey {
    pub fn new(key: String) -> (r: Self)
        ensures
            r@ == key@,
    {
        Self(key)
    }

    pub fn get(&self) -> (r: &str)
        ensures
            r@ == self@,
    {
        self.0.as_str()
    }
}

} // verus!
