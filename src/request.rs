use vstd::prelude::*;
use crate::error::{RequestError, RequestErrorView};
use crate::model::{PayloadView, UpdatePayload};

verus! {

/// The value of one member of a JSON request object, as far as updates
/// care: null, a string, or anything else.
#[derive(Debug, Clone)]
pub enum FieldValue {
    Null,
    Text(String),
    Other,
}

pub enum FieldValueView {
    Null,
    Text(Seq<char>),
    Other,
}

impl View for FieldValue {
    type V = FieldValueView;

    open spec fn view(&self) -> FieldValueView {
        match self {
            FieldValue::Null => FieldValueView::Null,
            FieldValue::Text(s) => FieldValueView::Text(s@),
            FieldValue::Other => FieldValueView::Other,
        }
    }
}

pub open spec fn entries_view(es: Seq<(String, FieldValue)>) -> Seq<(Seq<char>, FieldValueView)> {
    es.map_values(|e: (String, FieldValue)| (e.0@, e.1@))
}

/// The id an update body selects: the string value of its last `id` member.
pub open spec fn id_of(es: Seq<(Seq<char>, FieldValueView)>) -> Option<Seq<char>>
    decreases es.len(),
{
    if es.len() == 0 {
        None
    } else if es.last().0 == "id"@ {
        match es.last().1 {
            FieldValueView::Text(s) => Some(s),
            _ => None,
        }
    } else {
        id_of(es.drop_last())
    }
}

/// One member of an update body applied to the payload built so far: the
/// `id` member and null members are skipped, a record field takes a string
/// value, and anything else is refused.
pub open spec fn payload_step(
    acc: Result<PayloadView, RequestErrorView>,
    e: (Seq<char>, FieldValueView),
) -> Result<PayloadView, RequestErrorView> {
    match acc {
        Err(x) => Err(x),
        Ok(p) => if e.0 == "id"@ || e.1 is Null {
            Ok(p)
        } else if e.0 == "first_name"@ || e.0 == "email"@ || e.0 == "phone"@ {
            match e.1 {
                FieldValueView::Text(v) => if e.0 == "first_name"@ {
                    Ok(PayloadView { first_name: Some(v), ..p })
                } else if e.0 == "email"@ {
                    Ok(PayloadView { email: Some(v), ..p })
                } else {
                    Ok(PayloadView { phone: Some(v), ..p })
                },
                _ => Err(RequestErrorView::InvalidValue(e.0)),
            }
        } else {
            Err(RequestErrorView::UnknownField(e.0))
        },
    }
}

/// The payload of an update body: its members applied in order, the first
/// refused member deciding the error.
pub open spec fn payload_of(es: Seq<(Seq<char>, FieldValueView)>) -> Result<
    PayloadView,
    RequestErrorView,
>
    decreases es.len(),
{
    if es.len() == 0 {
        Ok(PayloadView { first_name: None, email: None, phone: None })
    } else {
        payload_step(payload_of(es.drop_last()), es.last())
    }
}

/// What an update body asks for: the id to select and the fields to merge.
/// A body without a string id is refused as such before anything else.
pub open spec fn update_request(es: Seq<(Seq<char>, FieldValueView)>) -> Result<
    (Seq<char>, PayloadView),
    RequestErrorView,
> {
    match id_of(es) {
        None => Err(RequestErrorView::MissingIdentifier),
        Some(id) => match payload_of(es) {
            Ok(p) => Ok((id, p)),
            Err(e) => Err(e),
        },
    }
}

fn same_text(a: &String, b: &str) -> (r: bool)
    ensures
        r == (a@ == b@),
{
    let lit = String::from_str(b);
    *a == lit
}

fn apply_member(p: UpdatePayload, key: &String, v: &FieldValue) -> (r: Result<
    UpdatePayload,
    RequestError,
>)
    ensures
        match r {
            Ok(q) => payload_step(Ok(p@), (key@, v@)) == Ok::<PayloadView, RequestErrorView>(q@),
            Err(e) => payload_step(Ok(p@), (key@, v@)) == Err::<PayloadView, RequestErrorView>(e@),
        },
{
    if same_text(key, "id") || matches!(v, FieldValue::Null) {
        return Ok(p);
    }
    let is_first = same_text(key, "first_name");
    let is_email = same_text(key, "email");
    let is_phone = same_text(key, "phone");
    if !(is_first || is_email || is_phone) {
        return Err(RequestError::UnknownField(key.clone()));
    }
    match v {
        FieldValue::Text(s) => {
            if is_first {
                Ok(p.with_first_name(s.clone()))
            } else if is_email {
                Ok(p.with_email(s.clone()))
            } else {
                Ok(p.with_phone(s.clone()))
            }
        },
        _ => Err(RequestError::InvalidValue(key.clone())),
    }
}

/// Reads an update body (the members of a JSON object, in order) into the
/// id it selects and the partial update it carries. Null members are
/// stripped; the id is only read, never a merge target.
pub fn parse_update(entries: &Vec<(String, FieldValue)>) -> (r: Result<
    (String, UpdatePayload),
    RequestError,
>)
    ensures
        match r {
            Ok((id, p)) => update_request(entries_view(entries@)) == Ok::<
                (Seq<char>, PayloadView),
                RequestErrorView,
            >((id@, p@)),
            Err(e) => update_request(entries_view(entries@)) == Err::<
                (Seq<char>, PayloadView),
                RequestErrorView,
            >(e@),
        },
{
    let ghost es = entries_view(entries@);
    let mut id: Option<String> = None;
    let mut acc: Result<UpdatePayload, RequestError> = Ok(UpdatePayload::empty());
    let mut i: usize = 0;
    while i < entries.len()
        invariant
            i <= entries@.len(),
            es == entries_view(entries@),
            es.len() == entries@.len(),
            id_of(es.subrange(0, i as int)) == match id {
                Some(s) => Some(s@),
                None => None::<Seq<char>>,
            },
            payload_of(es.subrange(0, i as int)) == match acc {
                Ok(q) => Ok::<PayloadView, RequestErrorView>(q@),
                Err(e) => Err::<PayloadView, RequestErrorView>(e@),
            },
        decreases entries@.len() - i,
    {
        let key = &entries[i].0;
        let v = &entries[i].1;
        proof {
            assert(es.subrange(0, i + 1).drop_last() =~= es.subrange(0, i as int));
            assert(es.subrange(0, i + 1).last() == (key@, v@));
        }
        if same_text(key, "id") {
            id = match v {
                FieldValue::Text(s) => Some(s.clone()),
                _ => None,
            };
        }
        acc = match acc {
            Ok(p) => apply_member(p, key, v),
            Err(e) => Err(e),
        };
        i = i + 1;
    }
    proof {
        assert(es.subrange(0, i as int) =~= es);
    }
    match id {
        None => Err(RequestError::MissingIdentifier),
        Some(s) => match acc {
            Ok(p) => Ok((s, p)),
            Err(e) => Err(e),
        },
    }
}

} // verus!
