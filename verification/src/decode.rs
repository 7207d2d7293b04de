//! Typed readings of decoded response bodies: the login response, item
//! lists, and the administrator flag of the account check.

use vstd::prelude::*;

use crate::json::{spec_member, Json};

verus! {

/// A successful login: the bearer token and the authenticated user's id.
pub struct LoginResponse {
    pub access_token: String,
    pub user_id: String,
}

/// What a login response body carries: its `AccessToken` and the `Id` of
/// its `User` object, when all three are present with the right shapes.
pub open spec fn spec_login_of(j: Json) -> Option<(Seq<char>, Seq<char>)> {
    match j {
        Json::Obj(m) => match spec_member(m@, "AccessToken"@) {
            Some(Json::Str(t)) => match spec_member(m@, "User"@) {
                Some(Json::Obj(u)) => match spec_member(u@, "Id"@) {
                    Some(Json::Str(id)) => Some((t@, id@)),
                    _ => None,
                },
                _ => None,
            },
            _ => None,
        },
        _ => None,
    }
}

/// Reads a login response body: the access token and the user id.
pub fn decode_login_response(j: &Json) -> (r: Option<LoginResponse>)
    ensures
        r is Some <==> spec_login_of(*j) is Some,
        r matches Some(l) ==> spec_login_of(*j) == Some((l.access_token@, l.user_id@)),
{
    let token = match j.get_member(&String::from_str("AccessToken")) {
        Some(t) => match t.as_str() {
            Some(s) => s.clone(),
            None => {
                return None;
            },
        },
        None => {
            return None;
        },
    };
    let user = match j.get_member(&String::from_str("User")) {
        Some(u) => u,
        None => {
            return None;
        },
    };
    match user.get_member(&String::from_str("Id")) {
        Some(idj) => match idj.as_str() {
            Some(s) => Some(LoginResponse { access_token: token, user_id: s.clone() }),
            None => None,
        },
        None => None,
    }
}

/// One entry of a served list, as the interface layer consumes it.
pub struct SimpleListItem {
    pub name: String,
    pub id: String,
}

/// A served list of items.
pub struct List {
    pub total_record_count: u64,
    pub items: Vec<SimpleListItem>,
}

/// The display name of a listed item; empty when absent.
pub open spec fn spec_name_of(e: Json) -> Seq<char> {
    match e {
        Json::Obj(m) => match spec_member(m@, "Name"@) {
            Some(Json::Str(s)) => s@,
            _ => Seq::empty(),
        },
        _ => Seq::empty(),
    }
}

/// The id of a listed item; empty when absent.
pub open spec fn spec_id_of(e: Json) -> Seq<char> {
    match e {
        Json::Obj(m) => match spec_member(m@, "Id"@) {
            Some(Json::Str(s)) => s@,
            _ => Seq::empty(),
        },
        _ => Seq::empty(),
    }
}

/// Name and id of each element, in served order.
pub open spec fn spec_items_of(elems: Seq<Json>) -> Seq<(Seq<char>, Seq<char>)> {
    Seq::new(elems.len(), |i: int| (spec_name_of(elems[i]), spec_id_of(elems[i])))
}

/// The `Items` array of a list body, when it has one.
pub open spec fn spec_list_of(j: Json) -> Option<Seq<(Seq<char>, Seq<char>)>> {
    match j {
        Json::Obj(m) => match spec_member(m@, "Items"@) {
            Some(Json::Arr(v)) => Some(spec_items_of(v@)),
            _ => None,
        },
        _ => None,
    }
}

/// The `TotalRecordCount` of a list body; 0 when absent or not a plain
/// unsigned decimal.
pub open spec fn spec_total_of(j: Json) -> nat {
    match j {
        Json::Obj(m) => match spec_member(m@, "TotalRecordCount"@) {
            Some(Json::Num(s)) => if crate::text::all_dec_digits(s@) && crate::text::dec_val(s@)
                <= u64::MAX {
                crate::text::dec_val(s@)
            } else {
                0
            },
            _ => 0,
        },
        _ => 0,
    }
}

fn item_of(e: &Json) -> (r: SimpleListItem)
    ensures
        r.name@ == spec_name_of(*e),
        r.id@ == spec_id_of(*e),
{
    let name = match e.get_member(&String::from_str("Name")) {
        Some(n) => match n.as_str() {
            Some(s) => s.clone(),
            None => String::new(),
        },
        None => String::new(),
    };
    let id = match e.get_member(&String::from_str("Id")) {
        Some(n) => match n.as_str() {
            Some(s) => s.clone(),
            None => String::new(),
        },
        None => String::new(),
    };
    SimpleListItem { name, id }
}

/// Reads a list body: every item's name and id in served order, and the
/// total record count. `None` when the body has no `Items` array.
pub fn decode_list(j: &Json) -> (r: Option<List>)
    ensures
        r is Some <==> spec_list_of(*j) is Some,
        r matches Some(l) ==> {
            &&& spec_list_of(*j) matches Some(its) && l.items@.len() == its.len() && (forall|
                i: int,
            |
                0 <= i < its.len() ==> (#[trigger] l.items@[i].name@, l.items@[i].id@) == its[i])
            &&& l.total_record_count == spec_total_of(*j)
        },
{
    let elems = match j.get_member(&String::from_str("Items")) {
        Some(v) => match v.as_array() {
            Some(a) => a,
            None => {
                return None;
            },
        },
        None => {
            return None;
        },
    };
    let total: u64 = match j.get_member(&String::from_str("TotalRecordCount")) {
        Some(t) => match t.as_u64() {
            Some(v) => v,
            None => 0,
        },
        None => 0,
    };
    let mut items: Vec<SimpleListItem> = Vec::new();
    let mut idx: usize = 0;
    while idx < elems.len()
        invariant
            idx <= elems@.len(),
            items@.len() == idx,
            forall|i: int|
                0 <= i < idx ==> (#[trigger] items@[i].name@, items@[i].id@) == (spec_name_of(
                    elems@[i],
                ), spec_id_of(elems@[i])),
        decreases elems@.len() - idx,
    {
        let it = item_of(&elems[idx]);
        items.push(it);
        idx = idx + 1;
    }
    Some(List { total_record_count: total, items })
}

/// Whether an account check body says the user is an administrator:
/// `Policy.IsAdministrator` is `true`; anything else, including a missing
/// or misshapen policy, counts as not an administrator.
pub open spec fn spec_is_admin_of(j: Json) -> bool {
    match j {
        Json::Obj(m) => match spec_member(m@, "Policy"@) {
            Some(Json::Obj(p)) => match spec_member(p@, "IsAdministrator"@) {
                Some(Json::Bool(b)) => b,
                _ => false,
            },
            _ => false,
        },
        _ => false,
    }
}

/// Reads the administrator flag of an account check body, defaulting to
/// not-an-administrator.
pub fn decode_is_admin(j: &Json) -> (r: bool)
    ensures
        r == spec_is_admin_of(*j),
{
    match j.get_member(&String::from_str("Policy")) {
        Some(p) => match p.get_member(&String::from_str("IsAdministrator")) {
            Some(b) => match b.as_bool() {
                Some(v) => v,
                None => false,
            },
            None => false,
        },
        None => false,
    }
}

} // verus!
