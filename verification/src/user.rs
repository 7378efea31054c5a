use vstd::prelude::*;

verus! {

/// A person whom the bot talks to, and the device that shows their presence
/// once it is known.
#[derive(Debug)]
pub struct User {
    pub name: String,
    pub device_mac: Option<String>,
}

impl User {
    /// A user of whom only the name is known.
    pub fn new(name: String) -> (user: Self)
        ensures
            user.name == name,
            user.device_mac is None,
    {
        User { name, device_mac: None }
    }
}

} // verus!
