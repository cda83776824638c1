//! The server's resources as the client reads them, and the small values that
//! requests carry.

use vstd::prelude::*;
use crate::text::joined;

verus! {

/// A reference to a user inside another resource.
#[derive(Debug, Clone)]
pub struct User {
    pub id: u32,
    pub name: String,
    pub login: Option<String>,
}

/// The user that the API key belongs to.
#[derive(Debug, Clone)]
pub struct CurrentUser {
    pub id: u32,
    pub login: String,
    pub firstname: String,
    pub lastname: String,
    pub mail: Option<String>,
    pub admin: Option<bool>,
    pub created_on: Option<String>,
    pub last_login_on: Option<String>,
}

/// First and last name with a space between.
pub open spec fn full_name_of(first: Seq<char>, last: Seq<char>) -> Seq<char> {
    first + " "@ + last
}

impl CurrentUser {
    pub fn full_name(&self) -> (r: String)
        ensures
            r@ == full_name_of(self.firstname@, self.lastname@),
    {
        joined(joined(self.firstname.as_str(), " ").as_str(), self.lastname.as_str())
    }
}

/// The reply that carries the current user.
#[derive(Debug, Clone)]
pub struct CurrentUserResponse {
    pub user: CurrentUser,
}

/// The account states that a user listing can filter on.
#[derive(Debug, Clone, Copy, PartialEq, Eq, Structural)]
pub enum UserStatus {
    Active,
    Registered,
    Locked,
}

impl UserStatus {
    /// The number the API uses for the state: 1 active, 2 registered, 3 locked.
    pub fn as_api_value(&self) -> (r: u32)
        ensures
            r == match self {
                UserStatus::Active => 1u32,
                UserStatus::Registered => 2u32,
                UserStatus::Locked => 3u32,
            },
    {
        match self {
            UserStatus::Active => 1,
            UserStatus::Registered => 2,
            UserStatus::Locked => 3,
        }
    }
}

/// A user as the user listing gives it.
#[derive(Debug, Clone)]
pub struct UserDetails {
    pub id: u32,
    pub login: String,
    pub firstname: String,
    pub lastname: String,
    pub mail: Option<String>,
    pub created_on: Option<String>,
    pub last_login_on: Option<String>,
    pub status: Option<u32>,
}

/// The name shown for an account state number.
pub open spec fn status_name(status: Option<u32>) -> Seq<char> {
    match status {
        Some(1) => "Active"@,
        Some(2) => "Registered"@,
        Some(3) => "Locked"@,
        _ => "Unknown"@,
    }
}

impl UserDetails {
    pub fn full_name(&self) -> (r: String)
        ensures
            r@ == full_name_of(self.firstname@, self.lastname@),
    {
        joined(joined(self.firstname.as_str(), " ").as_str(), self.lastname.as_str())
    }

    pub fn status_display(&self) -> (r: &'static str)
        ensures
            r@ == status_name(self.status),
    {
        match self.status {
            Some(1) => "Active",
            Some(2) => "Registered",
            Some(3) => "Locked",
            _ => "Unknown",
        }
    }
}

/// A page of users.
#[derive(Debug, Clone)]
pub struct UserList {
    pub users: Vec<UserDetails>,
    pub total_count: Option<u32>,
    pub offset: Option<u32>,
    pub limit: Option<u32>,
}

#[derive(Debug, Clone)]
pub struct Tracker {
    pub id: u32,
    pub name: String,
}

#[derive(Debug, Clone)]
pub struct Status {
    pub id: u32,
    pub name: String,
    pub is_closed: Option<bool>,
}

#[derive(Debug, Clone)]
pub struct Priority {
    pub id: u32,
    pub name: String,
}

/// A reference to a project inside another resource.
#[derive(Debug, Clone)]
pub struct ProjectRef {
    pub id: u32,
    pub name: String,
}

#[derive(Debug, Clone)]
pub struct Project {
    pub id: u32,
    pub name: String,
    pub identifier: String,
    pub description: Option<String>,
    pub status: Option<u32>,
    pub is_public: Option<bool>,
    pub created_on: Option<String>,
    pub updated_on: Option<String>,
}

/// A page of projects.
#[derive(Debug, Clone)]
pub struct ProjectList {
    pub projects: Vec<Project>,
    pub total_count: Option<u32>,
    pub offset: Option<u32>,
    pub limit: Option<u32>,
}

/// The reply that carries one project.
#[derive(Debug, Clone)]
pub struct ProjectResponse {
    pub project: Project,
}

/// The issue a time entry is logged against.
#[derive(Debug, Clone, Copy, PartialEq, Eq, Structural)]
pub struct TimeEntryIssue {
    pub id: u32,
}

/// One hit of a text search: an ID and the kind of resource it is.
#[derive(Debug, Clone)]
pub struct SearchResult {
    pub id: u32,
    pub title: String,
    pub result_type: String,
    pub url: String,
    pub description: Option<String>,
    pub datetime: Option<String>,
}

/// A page of search hits.
#[derive(Debug, Clone)]
pub struct SearchResults {
    pub results: Vec<SearchResult>,
    pub total_count: Option<u32>,
    pub offset: Option<u32>,
    pub limit: Option<u32>,
}

/// A custom field value as a write request carries it.
#[derive(Debug, Clone)]
pub struct CustomFieldValue {
    pub id: u32,
    pub value: String,
}

impl CustomFieldValue {
    pub fn new(id: u32, value: String) -> (r: CustomFieldValue)
        ensures
            r.id == id,
            r.value == value,
    {
        CustomFieldValue { id, value }
    }

    /// One value for each `(id, value)` pair, in order.
    pub fn from_tuples(tuples: Vec<(u32, String)>) -> (r: Vec<CustomFieldValue>)
        ensures
            r@.len() == tuples@.len(),
            forall|i: int|
                0 <= i < r@.len() ==> (#[trigger] r@[i]).id == tuples@[i].0 && r@[i].value
                    == tuples@[i].1,
    {
        let mut out: Vec<CustomFieldValue> = Vec::new();
        let mut rest = tuples;
        let ghost all = rest@;
        let n = rest.len();
        let mut i: usize = 0;
        while rest.len() > 0
            invariant
                all.len() == n,
                i + rest@.len() == all.len(),
                rest@ == all.subrange(i as int, all.len() as int),
                out@.len() == i,
                forall|j: int|
                    0 <= j < i ==> (#[trigger] out@[j]).id == all[j].0 && out@[j].value == all[j].1,
            decreases rest@.len(),
        {
            let (id, value) = rest.remove(0);
            out.push(CustomFieldValue::new(id, value));
            i = i + 1;
        }
        out
    }
}

/// The result of deleting a time entry.
#[derive(Debug, Clone, Copy, PartialEq, Eq, Structural)]
pub struct TimeEntryDeleted {
    pub id: u32,
}

/// The result of updating an issue.
#[derive(Debug, Clone, Copy, PartialEq, Eq, Structural)]
pub struct IssueUpdated {
    pub id: u32,
}

/// One element of a multi-value custom field: a text, or any other JSON value
/// as its JSON text.
#[derive(Debug, Clone)]
pub enum FieldItem {
    Text(String),
    Json(String),
}

/// A custom field's value: null, a text, a number (as its JSON text), a
/// boolean, a list, or an object (as its JSON text).
#[derive(Debug, Clone)]
pub enum FieldValue {
    Null,
    Text(String),
    Number(String),
    Bool(bool),
    List(Vec<FieldItem>),
    Object(String),
}

pub open spec fn item_text(i: FieldItem) -> Seq<char> {
    match i {
        FieldItem::Text(s) => s@,
        FieldItem::Json(s) => s@,
    }
}

/// Items' texts joined by `, `.
pub open spec fn items_text(items: Seq<FieldItem>) -> Seq<char>
    decreases items.len(),
{
    if items.len() == 0 {
        Seq::empty()
    } else if items.len() == 1 {
        item_text(items[0])
    } else {
        items_text(items.drop_last()) + ", "@ + item_text(items.last())
    }
}

/// How a custom field value is shown: `-` for null, an empty text or an
/// empty list; `Yes` or `No` for a boolean; a list's items joined by `, `.
pub open spec fn field_display(v: FieldValue) -> Seq<char> {
    match v {
        FieldValue::Null => "-"@,
        FieldValue::Text(s) => if s@.len() == 0 {
            "-"@
        } else {
            s@
        },
        FieldValue::Number(n) => n@,
        FieldValue::Bool(b) => if b {
            "Yes"@
        } else {
            "No"@
        },
        FieldValue::List(items) => if items@.len() == 0 {
            "-"@
        } else {
            items_text(items@)
        },
        FieldValue::Object(j) => j@,
    }
}

/// The value as shown in a table.
pub fn display_value(v: &FieldValue) -> (r: String)
    ensures
        r@ == field_display(*v),
{
    match v {
        FieldValue::Null => String::from_str("-"),
        FieldValue::Text(s) => {
            if s.as_str().unicode_len() == 0 {
                String::from_str("-")
            } else {
                s.as_str().to_owned()
            }
        },
        FieldValue::Number(n) => n.as_str().to_owned(),
        FieldValue::Bool(b) => {
            if *b {
                String::from_str("Yes")
            } else {
                String::from_str("No")
            }
        },
        FieldValue::List(items) => {
            if items.len() == 0 {
                return String::from_str("-");
            }
            let mut out = String::new();
            let mut i: usize = 0;
            while i < items.len()
                invariant
                    i <= items@.len(),
                    out@ == items_text(items@.subrange(0, i as int)),
                decreases items@.len() - i,
            {
                assert(items@.subrange(0, i + 1).drop_last() == items@.subrange(0, i as int));
                if i > 0 {
                    out.append(", ");
                }
                match &items[i] {
                    FieldItem::Text(t) => out.append(t.as_str()),
                    FieldItem::Json(t) => out.append(t.as_str()),
                }
                i = i + 1;
            }
            assert(items@.subrange(0, i as int) == items@);
            out
        },
        FieldValue::Object(j) => j.as_str().to_owned(),
    }
}

} // verus!
