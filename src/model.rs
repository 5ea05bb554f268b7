use vstd::prelude::*;

verus! {

/// The mathematical value of a [`User`]: its four attributes as character sequences.
pub struct UserView {
    pub id: Seq<char>,
    pub first_name: Seq<char>,
    pub email: Seq<char>,
    pub phone: Seq<char>,
}

/// A stored user record. `id` is the document identifier within the collection.
#[derive(Debug, Clone)]
pub struct User {
    pub id: String,
    pub first_name: String,
    pub email: String,
    pub phone: String,
}

impl View for User {
    type V = UserView;

    open spec fn view(&self) -> UserView {
        UserView {
            id: self.id@,
            first_name: self.first_name@,
            email: self.email@,
            phone: self.phone@,
        }
    }
}

impl User {
    pub fn new(id: String, first_name: String, email: String, phone: String) -> (r: User)
        ensures
            r@ == (UserView { id: id@, first_name: first_name@, email: email@, phone: phone@ }),
    {
        User { id, first_name, email, phone }
    }

    /// A field-by-field copy of the record.
    pub fn copied(&self) -> (r: User)
        ensures
            r@ == self@,
    {
        User {
            id: self.id.clone(),
            first_name: self.first_name.clone(),
            email: self.email.clone(),
            phone: self.phone.clone(),
        }
    }

    /// Merges a partial update into the record: the fields the payload
    /// carries are replaced, all others (and the id) are kept.
    pub fn apply(&mut self, p: &UpdatePayload)
        ensures
            final(self)@ == merge(old(self)@, p@),
    {
        match &p.first_name {
            Some(v) => { self.first_name = v.clone(); },
            None => {},
        }
        match &p.email {
            Some(v) => { self.email = v.clone(); },
            None => {},
        }
        match &p.phone {
            Some(v) => { self.phone = v.clone(); },
            None => {},
        }
    }
}

/// The mathematical value of an [`UpdatePayload`].
pub struct PayloadView {
    pub first_name: Option<Seq<char>>,
    pub email: Option<Seq<char>>,
    pub phone: Option<Seq<char>>,
}

/// A partial update: a new value for each mutable field that changes.
/// The id is never a target of an update.
#[derive(Debug, Clone)]
pub struct UpdatePayload {
    pub first_name: Option<String>,
    pub email: Option<String>,
    pub phone: Option<String>,
}

pub open spec fn opt_view(o: Option<String>) -> Option<Seq<char>> {
    match o {
        Some(s) => Some(s@),
        None => None,
    }
}

impl View for UpdatePayload {
    type V = PayloadView;

    open spec fn view(&self) -> PayloadView {
        PayloadView {
            first_name: opt_view(self.first_name),
            email: opt_view(self.email),
            phone: opt_view(self.phone),
        }
    }
}

/// Field-level merge: each field the payload carries replaces the stored one.
pub open spec fn merge(u: UserView, p: PayloadView) -> UserView {
    UserView {
        id: u.id,
        first_name: match p.first_name {
            Some(v) => v,
            None => u.first_name,
        },
        email: match p.email {
            Some(v) => v,
            None => u.email,
        },
        phone: match p.phone {
            Some(v) => v,
            None => u.phone,
        },
    }
}

/// The names of the fields a payload carries, in declaration order: the
/// field mask of a merge write.
pub open spec fn payload_fields(p: PayloadView) -> Seq<Seq<char>> {
    let a = if p.first_name is Some { seq!["first_name"@] } else { Seq::empty() };
    let b = if p.email is Some { seq!["email"@] } else { Seq::empty() };
    let c = if p.phone is Some { seq!["phone"@] } else { Seq::empty() };
    a + b + c
}

impl UpdatePayload {
    /// A payload that changes nothing.
    pub fn empty() -> (r: UpdatePayload)
        ensures
            r@ == (PayloadView { first_name: None, email: None, phone: None }),
    {
        UpdatePayload { first_name: None, email: None, phone: None }
    }

    pub fn with_first_name(self, v: String) -> (r: UpdatePayload)
        ensures
            r@ == (PayloadView { first_name: Some(v@), ..self@ }),
    {
        UpdatePayload { first_name: Some(v), ..self }
    }

    pub fn with_email(self, v: String) -> (r: UpdatePayload)
        ensures
            r@ == (PayloadView { email: Some(v@), ..self@ }),
    {
        UpdatePayload { email: Some(v), ..self }
    }

    pub fn with_phone(self, v: String) -> (r: UpdatePayload)
        ensures
            r@ == (PayloadView { phone: Some(v@), ..self@ }),
    {
        UpdatePayload { phone: Some(v), ..self }
    }

    /// True when the payload carries no field at all.
    pub fn is_empty(&self) -> (r: bool)
        ensures
            r == (payload_fields(self@).len() == 0),
    {
        self.first_name.is_none() && self.email.is_none() && self.phone.is_none()
    }

    /// The field mask of the merge write that applies this payload.
    pub fn field_names(&self) -> (r: Vec<String>)
        ensures
            r@.map_values(|s: String| s@) == payload_fields(self@),
    {
        let mut r: Vec<String> = Vec::new();
        if self.first_name.is_some() {
            r.push(String::from_str("first_name"));
        }
        if self.email.is_some() {
            r.push(String::from_str("email"));
        }
        if self.phone.is_some() {
            r.push(String::from_str("phone"));
        }
        proof {
            reveal_strlit("first_name");
            reveal_strlit("email");
            reveal_strlit("phone");
            assert(r@.map_values(|s: String| s@) =~= payload_fields(self@));
        }
        r
    }
}

} // verus!
