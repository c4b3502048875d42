//! A named party that may own zero or more accounts.

use vstd::prelude::*;

verus! {

/// Identity plus contact metadata. The id is assigned by the ledger and
/// never changes; the other fields are patched through [`Customer::update`].
/// No field is validated here: validation belongs to the form layer.
#[derive(Clone, Debug)]
pub struct Customer {
    pub id: u64,
    pub name: String,
    pub address: String,
    pub phone: String,
    pub email: String,
}

impl Customer {
    pub fn new(id: u64, name: String, address: String, phone: String, email: String) -> (r:
        Customer)
        ensures
            r.id == id,
            r.name@ == name@,
            r.address@ == address@,
            r.phone@ == phone@,
            r.email@ == email@,
    {
        Customer { id, name, address, phone, email }
    }

    /// Patches exactly the fields that are supplied; an absent field keeps
    /// its current value. The id cannot be patched.
    pub fn update(
        &mut self,
        name: Option<String>,
        address: Option<String>,
        phone: Option<String>,
        email: Option<String>,
    )
        ensures
            final(self).id == old(self).id,
            final(self).name@ == (match name {
                Some(n) => n@,
                None => old(self).name@,
            }),
            final(self).address@ == (match address {
                Some(a) => a@,
                None => old(self).address@,
            }),
            final(self).phone@ == (match phone {
                Some(p) => p@,
                None => old(self).phone@,
            }),
            final(self).email@ == (match email {
                Some(e) => e@,
                None => old(self).email@,
            }),
    {
        if let Some(name) = name {
            self.name = name;
        }
        if let Some(address) = address {
            self.address = address;
        }
        if let Some(phone) = phone {
            self.phone = phone;
        }
        if let Some(email) = email {
            self.email = email;
        }
    }
}

} // verus!
