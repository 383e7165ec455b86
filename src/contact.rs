use vstd::prelude::*;

verus! {

/// A contact record as the store keeps it.
#[derive(Clone, Debug, PartialEq, Eq)]
pub struct Contact {
    pub name: String,
    pub phone: String,
    pub image: String,
    pub user_id: String,
}

/// A sparse patch: a field that is `None` leaves the contact's field as it is,
/// a field that is `Some` (the empty string included) replaces it.
#[derive(Clone, Debug, PartialEq, Eq)]
pub struct UpdateContact {
    pub name: Option<String>,
    pub phone: Option<String>,
    pub image: Option<String>,
    pub user_id: Option<String>,
}

/// The value a field takes under a patch entry.
pub open spec fn patched(entry: Option<String>, current: String) -> String {
    match entry {
        Some(v) => v,
        None => current,
    }
}

/// The contact that results from applying `patch` to `c`, field by field.
pub open spec fn merged(c: Contact, patch: UpdateContact) -> Contact {
    Contact {
        name: patched(patch.name, c.name),
        phone: patched(patch.phone, c.phone),
        image: patched(patch.image, c.image),
        user_id: patched(patch.user_id, c.user_id),
    }
}

impl Contact {
    /// Applies a sparse patch in place.
    pub fn update(&mut self, update_contact: UpdateContact)
        ensures
            *final(self) == merged(*old(self), update_contact),
    {
        if let Some(name) = update_contact.name {
            self.name = name;
        }
        if let Some(phone) = update_contact.phone {
            self.phone = phone;
        }
        if let Some(image) = update_contact.image {
            self.image = image;
        }
        if let Some(user_id) = update_contact.user_id {
            self.user_id = user_id;
        }
    }
}

/// A patch that sets only the phone changes the phone and nothing else.
pub proof fn lemma_phone_only_patch(c: Contact, phone: String)
    ensures
        merged(c, UpdateContact { name: None, phone: Some(phone), image: None, user_id: None })
            == (Contact { phone: phone, ..c }),
{
}

} // verus!
