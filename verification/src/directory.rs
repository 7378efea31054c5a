use crate::identifier::{normalize, normalized};
use vstd::prelude::*;

verus! {

/// A person known to the bot: how to reach them and which device shows
/// their presence.
#[derive(Debug, PartialEq, Eq)]
pub struct User {
    pub name: String,
    pub phone_number: String,
    pub mac_address: String,
    /// When the device was last seen, in seconds since the epoch.
    pub last_seen: Option<i64>,
}

/// Whether `i` is the first place of a user with this telephone number.
pub open spec fn first_with_phone(users: Seq<User>, phone_number: Seq<char>, i: int) -> bool {
    &&& 0 <= i < users.len()
    &&& users[i].phone_number@ == phone_number
    &&& forall|j: int| 0 <= j < i ==> users[j].phone_number@ != phone_number
}

/// The place of the user with this telephone number, if there is one.
pub open spec fn place_of_phone(users: Seq<User>, phone_number: Seq<char>) -> Option<int> {
    if exists|i: int| first_with_phone(users, phone_number, i) {
        Some(choose|i: int| first_with_phone(users, phone_number, i))
    } else {
        None
    }
}

/// Whether `i` is the first place of a user with this device. A device is
/// known by its MAC address, in whatever case that is written.
pub open spec fn first_with_mac(users: Seq<User>, mac_address: Seq<char>, i: int) -> bool {
    &&& 0 <= i < users.len()
    &&& normalized(users[i].mac_address@) == normalized(mac_address)
    &&& forall|j: int|
        0 <= j < i ==> normalized(users[j].mac_address@) != normalized(mac_address)
}

/// No two users share a telephone number.
pub open spec fn distinct_phones(users: Seq<User>) -> bool {
    forall|i: int, j: int|
        0 <= i < users.len() && 0 <= j < users.len() && i != j ==> users[i].phone_number@
            != users[j].phone_number@
}

/// The users known to the bot, each under their telephone number.
#[derive(Debug)]
pub struct UserDb {
    users: Vec<User>,
}

impl UserDb {
    #[verifier::type_invariant]
    spec fn one_user_per_phone(self) -> bool {
        distinct_phones(self.users@)
    }

    /// The users, in the order in which their numbers were first added.
    pub closed spec fn entries(&self) -> Seq<User> {
        self.users@
    }

    /// A directory without users.
    pub fn new() -> (db: Self)
        ensures
            db.entries() == Seq::<User>::empty(),
    {
        UserDb { users: Vec::new() }
    }

    fn find_phone(&self, phone_number: &String) -> (place: Option<usize>)
        ensures
            match place {
                Some(i) => place_of_phone(self.entries(), phone_number@) == Some(i as int),
                None => place_of_phone(self.entries(), phone_number@) is None,
            },
            place matches Some(i) ==> i < self.entries().len() && self.entries()[i as int].phone_number@
                == phone_number@,
            place is None ==> forall|i: int|
                0 <= i < self.entries().len() ==> self.entries()[i].phone_number@
                    != phone_number@,
    {
        let mut i: usize = 0;
        while i < self.users.len()
            invariant
                i <= self.users.len(),
                forall|j: int| 0 <= j < i ==> self.users@[j].phone_number@ != phone_number@,
            decreases self.users.len() - i,
        {
            if self.users[i].phone_number == *phone_number {
                proof {
                    let users = self.entries();
                    assert(first_with_phone(users, phone_number@, i as int));
                    let chosen = choose|j: int| first_with_phone(users, phone_number@, j);
                    assert(chosen == i);
                }
                return Some(i);
            }
            i += 1;
        }
        None
    }

    /// Adds a user. A user already known under the same telephone number is
    /// replaced, in place; otherwise the user is added at the end. No two
    /// users of the directory share a telephone number, before or after.
    pub fn add_user(&mut self, user: User)
        ensures
            final(self).entries() == match place_of_phone(
                old(self).entries(),
                user.phone_number@,
            ) {
                Some(i) => old(self).entries().update(i, user),
                None => old(self).entries().push(user),
            },
            distinct_phones(final(self).entries()),
    {
        proof {
            use_type_invariant(&*self);
        }
        let place = self.find_phone(&user.phone_number);
        let mut taken = UserDb { users: Vec::new() };
        core::mem::swap(self, &mut taken);
        let mut users = taken.users;
        match place {
            Some(i) => {
                users.set(i, user);
            },
            None => {
                users.push(user);
            },
        }
        *self = UserDb { users };
    }

    /// The user with this telephone number.
    pub fn get_user_by_phone_number(&self, phone_number: &String) -> (found: Option<&User>)
        ensures
            match found {
                Some(user) => place_of_phone(self.entries(), phone_number@) matches Some(i)
                    && *user == self.entries()[i],
                None => place_of_phone(self.entries(), phone_number@) is None,
            },
            found matches Some(user) ==> user.phone_number@ == phone_number@,
            found is None ==> forall|i: int|
                0 <= i < self.entries().len() ==> self.entries()[i].phone_number@
                    != phone_number@,
    {
        match self.find_phone(phone_number) {
            Some(i) => Some(&self.users[i]),
            None => None,
        }
    }

    /// The user whose device has this MAC address, in whatever case it is
    /// written: the first one, where several share a device.
    pub fn get_user_by_mac_address(&self, mac_address: &String) -> (found: Option<&User>)
        ensures
            match found {
                Some(user) => exists|i: int|
                    first_with_mac(self.entries(), mac_address@, i) && *user == self.entries()[i],
                None => forall|i: int|
                    0 <= i < self.entries().len() ==> normalized(self.entries()[i].mac_address@)
                        != normalized(mac_address@),
            },
    {
        let wanted = normalize(mac_address.as_str());
        let mut i: usize = 0;
        while i < self.users.len()
            invariant
                i <= self.users.len(),
                wanted@ == normalized(mac_address@),
                forall|j: int|
                    0 <= j < i ==> normalized(self.users@[j].mac_address@) != normalized(
                        mac_address@,
                    ),
            decreases self.users.len() - i,
        {
            let held = normalize(self.users[i].mac_address.as_str());
            if held == wanted {
                assert(first_with_mac(self.entries(), mac_address@, i as int));
                return Some(&self.users[i]);
            }
            i += 1;
        }
        None
    }
}

} // verus!
