//! The user profile-set worker: decides which profile columns to update,
//! builds the update statement and its bind order, gates on validation, and
//! publishes the follow-up messages. The relational write itself and the
//! cache purge are the surrounding runtime's to perform, in the order the
//! plan lays down: write the backing store, purge the cache key, then
//! publish.
use vstd::prelude::*;

use crate::bus::{MessageBus, MsgView};
use crate::error::EngineError;
use crate::ids::{uuid_hyphenated, uuid_string};
use crate::tags::TagSet;
use crate::text::{join_chars, join_strings};
use vstd::string::StringExecFns;

verus! {

/// The JSON object `{"user_id": <id>}` as serde_json renders it: a function
/// of the id string alone.
pub uninterp spec fn user_id_event_properties(user_id: Seq<char>) -> Seq<char>;

/// Relies on serde_json::to_string over a one-entry string object: the
/// rendering is deterministic in the entry's value, and serializing string
/// data into the in-memory buffer cannot fail, so the call always succeeds.
#[verifier::external_body]
fn encode_user_id_properties(user_id: &String) -> (r: Option<String>)
    ensures
        r is Some,
        r matches Some(s) ==> s@ == user_id_event_properties(user_id@),
{
    let mut object = serde_json::Map::new();
    object.insert("user_id".to_owned(), serde_json::Value::String(user_id.clone()));
    serde_json::to_string(&serde_json::Value::Object(object)).ok()
}

/// One request to update a user's profile; absent fields are left untouched.
pub struct ProfileSetRequest {
    pub user_id: Option<u128>,
    pub display_name: Option<String>,
    pub account_number: Option<u32>,
    pub bio: Option<String>,
}

/// One finding of the external profile validator: the path of the offending
/// field.
pub struct ValidationIssue {
    pub path: Vec<String>,
}

impl View for ValidationIssue {
    type V = Seq<Seq<char>>;

    open spec fn view(&self) -> Seq<Seq<char>> {
        self.path@.map_values(|s: String| s@)
    }
}

/// The readable rendering of validation findings: each path joined with
/// dots, the findings joined with commas.
pub open spec fn issue_paths_text(issues: Seq<Seq<Seq<char>>>) -> Seq<char> {
    join_chars(issues.map_values(|p: Seq<Seq<char>>| join_chars(p, "."@)), ", "@)
}

/// Render the validator's findings as one readable string.
pub fn readable_issues(issues: &Vec<ValidationIssue>) -> (r: String)
    ensures
        r@ == issue_paths_text(issues@.map_values(|e: ValidationIssue| e@)),
{
    let n = issues.len();
    let mut rendered: Vec<String> = Vec::new();
    let mut i: usize = 0;
    while i < n
        invariant
            n == issues@.len(),
            0 <= i <= n,
            rendered@.len() == i,
            forall|k: int|
                0 <= k < i ==> (#[trigger] rendered@[k])@ == join_chars(issues@[k]@, "."@),
        decreases n - i,
    {
        let one = join_strings(&issues[i].path, ".");
        rendered.push(one);
        i += 1;
    }
    proof {
        let iv = issues@.map_values(|e: ValidationIssue| e@);
        assert(rendered@.map_values(|s: String| s@) =~= iv.map_values(
            |p: Seq<Seq<char>>| join_chars(p, "."@),
        ));
    }
    join_strings(&rendered, ", ")
}

/// Gate on the external validator's findings: pass exactly when there are
/// none, else a validation error carrying the readable findings.
pub fn validation_gate(issues: &Vec<ValidationIssue>) -> (r: Result<(), EngineError>)
    ensures
        r is Ok <==> issues@.len() == 0,
        r matches Err(e) ==> (e matches EngineError::Validation { message } && message@
            == issue_paths_text(issues@.map_values(|e: ValidationIssue| e@))),
{
    if issues.len() == 0 {
        Ok(())
    } else {
        Err(EngineError::Validation { message: readable_issues(issues) })
    }
}

/// The SET clause for the present fields, with bind positions assigned in
/// field order after the `$1` key.
pub open spec fn set_clause(dn: bool, an: bool, bio: bool) -> Seq<char> {
    if dn && an && bio {
        "display_name = $2,account_number = $3,bio = $4"@
    } else if dn && an {
        "display_name = $2,account_number = $3"@
    } else if dn && bio {
        "display_name = $2,bio = $3"@
    } else if an && bio {
        "account_number = $2,bio = $3"@
    } else if dn {
        "display_name = $2"@
    } else if an {
        "account_number = $2"@
    } else if bio {
        "bio = $2"@
    } else {
        Seq::empty()
    }
}

/// The whole update statement for the present fields.
pub open spec fn update_query(dn: bool, an: bool, bio: bool) -> Seq<char> {
    "UPDATE db_user.users SET "@ + set_clause(dn, an, bio) + " WHERE user_id = $1"@
}

/// Everything the runtime needs to apply one profile update, in order:
/// execute the statement with the binds, purge the cached user, then commit
/// the follow-up messages.
pub struct ProfileSetPlan {
    pub query: String,
    pub bind_user_id: u128,
    pub bind_display_name: Option<String>,
    pub bind_account_number: Option<i64>,
    pub bind_bio: Option<String>,
    pub purge_namespace: String,
    pub purge_key: u128,
}

/// Decide the update: reject a request without a user id or without any
/// field to set, else lay down the exact statement, bind order and purge.
/// The bio is bound exactly as handed in; any display formatting of the
/// biography is the host's to apply before it hands the request over.
pub fn profile_set_plan(req: &ProfileSetRequest) -> (r: Result<ProfileSetPlan, EngineError>)
    ensures
        r is Ok <==> (req.user_id is Some && (req.display_name is Some || req.account_number
            is Some || req.bio is Some)),
        r matches Err(e) ==> e is Validation,
        r matches Ok(p) ==> {
            &&& p.query@ == update_query(
                req.display_name is Some,
                req.account_number is Some,
                req.bio is Some,
            )
            &&& req.user_id == Some(p.bind_user_id)
            &&& p.bind_display_name == req.display_name
            &&& p.bind_account_number == (match req.account_number {
                Some(n) => Some(n as i64),
                None => None::<i64>,
            })
            &&& p.bind_bio == req.bio
            &&& p.purge_namespace@ == "user"@
            &&& p.purge_key == p.bind_user_id
        },
{
    let user_id = match req.user_id {
        Some(id) => id,
        None => {
            return Err(
                EngineError::Validation { message: "profile update without a user id".to_owned() },
            );
        },
    };
    let dn = req.display_name.is_some();
    let an = req.account_number.is_some();
    let bio = req.bio.is_some();
    if !dn && !an && !bio {
        return Err(
            EngineError::Validation { message: "no profile fields to update".to_owned() },
        );
    }
    let clause: &str = if dn && an && bio {
        "display_name = $2,account_number = $3,bio = $4"
    } else if dn && an {
        "display_name = $2,account_number = $3"
    } else if dn && bio {
        "display_name = $2,bio = $3"
    } else if an && bio {
        "account_number = $2,bio = $3"
    } else if dn {
        "display_name = $2"
    } else if an {
        "account_number = $2"
    } else {
        "bio = $2"
    };
    let query = "UPDATE db_user.users SET ".to_owned().concat(clause).concat(
        " WHERE user_id = $1",
    );
    let bind_display_name = match &req.display_name {
        Some(s) => Some(s.clone()),
        None => None,
    };
    let bind_account_number = match req.account_number {
        Some(n) => Some(n as i64),
        None => None,
    };
    let bind_bio = match &req.bio {
        Some(s) => Some(s.clone()),
        None => None,
    };
    Ok(
        ProfileSetPlan {
            query,
            bind_user_id: user_id,
            bind_display_name,
            bind_account_number,
            bind_bio,
            purge_namespace: "user".to_owned(),
            purge_key: user_id,
        },
    )
}

/// After the write succeeded and the cache key was purged: publish the
/// user-update notification, then the analytics event — always both, in
/// that order.
pub fn profile_set_commit(plan: &ProfileSetPlan, bus: &mut MessageBus, ray_id: u128, ts: i64)
    requires
        old(bus).wf(),
        old(bus)@.len() + 2 <= u64::MAX,
    ensures
        final(bus).wf(),
        final(bus)@ == old(bus)@.push(
            MsgView {
                seq: old(bus)@.len() as u64,
                ts: ts,
                ray_id: ray_id,
                message_name: "user.update"@,
                tags: Map::<Seq<char>, Seq<char>>::empty().insert(
                    "user_id"@,
                    uuid_hyphenated(plan.purge_key),
                ),
                body: ""@,
            },
        ).push(
            MsgView {
                seq: (old(bus)@.len() + 1) as u64,
                ts: ts,
                ray_id: ray_id,
                message_name: "analytics.event_create"@,
                tags: Map::<Seq<char>, Seq<char>>::empty().insert(
                    "name"@,
                    "user.profile_set"@,
                ),
                body: user_id_event_properties(uuid_hyphenated(plan.purge_key)),
            },
        ),
{
    let user_id_text = uuid_string(plan.purge_key);
    let mut update_tags = TagSet::new();
    update_tags.insert("user_id".to_owned(), user_id_text.clone());
    bus.publish("user.update".to_owned(), update_tags, "".to_owned(), ray_id, ts);
    let properties = encode_user_id_properties(&user_id_text).unwrap();
    let mut analytics_tags = TagSet::new();
    analytics_tags.insert("name".to_owned(), "user.profile_set".to_owned());
    bus.publish("analytics.event_create".to_owned(), analytics_tags, properties, ray_id, ts);
}

} // verus!
