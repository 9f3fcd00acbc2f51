//! The auth delegation step's data: the context sent to the auth backend,
//! its classified outcome, and the identity payload injected into the
//! outbound request as a single JSON header value.
use vstd::prelude::*;
use vstd::string::StringExecFns;

use crate::json::json_quoted;
use crate::json::spec_json_string;

verus! {

/// What the gateway sends along with one auth call.
pub struct AuthContext {
    pub session_token: String,
    pub user_agent: String,
    pub client_ip: String,
}

/// The authenticated identity as the auth backend reported it. Permissions
/// are kept as ordered (role, permission list) pairs, in the order the
/// reply was read.
pub struct AuthPayload {
    pub session_id: String,
    pub user_id: String,
    pub user_state: String,
    pub permissions: Vec<(String, Vec<String>)>,
}

/// One auth call's outcome, classified: an identity, a rejection with the
/// backend's user-facing reason, or any other failure with its detail.
pub enum AuthOutcome {
    Granted(AuthPayload),
    Unauthenticated(String),
    Failed(String),
}

/// A JSON array's inner text: the permission IDs as JSON strings, joined
/// with commas.
pub open spec fn spec_perm_list(perms: Seq<Seq<char>>) -> Seq<char>
    decreases perms.len(),
{
    if perms.len() == 0 {
        Seq::empty()
    } else if perms.len() == 1 {
        spec_json_string(perms[0])
    } else {
        spec_perm_list(perms.drop_last()) + ","@ + spec_json_string(perms.last())
    }
}

/// One role's entry inside the permissions object.
pub open spec fn spec_perm_entry(e: (Seq<char>, Seq<Seq<char>>)) -> Seq<char> {
    spec_json_string(e.0) + ":["@ + spec_perm_list(e.1) + "]"@
}

/// A JSON object's inner text: the role entries joined with commas, in the
/// order they were given.
pub open spec fn spec_perm_map(entries: Seq<(Seq<char>, Seq<Seq<char>>)>) -> Seq<char>
    decreases entries.len(),
{
    if entries.len() == 0 {
        Seq::empty()
    } else if entries.len() == 1 {
        spec_perm_entry(entries[0])
    } else {
        spec_perm_map(entries.drop_last()) + ","@ + spec_perm_entry(entries.last())
    }
}

/// The payload header value: one JSON object carrying the session ID, user
/// ID, user state and permissions exactly as the auth backend reported
/// them.
pub open spec fn spec_payload_json(
    session_id: Seq<char>,
    user_id: Seq<char>,
    user_state: Seq<char>,
    permissions: Seq<(Seq<char>, Seq<Seq<char>>)>,
) -> Seq<char> {
    "{\"session_id\":"@ + spec_json_string(session_id) + ",\"user_id\":"@ + spec_json_string(
        user_id,
    ) + ",\"user_state\":"@ + spec_json_string(user_state) + ",\"permissions\":{"@ + spec_perm_map(
        permissions,
    ) + "}}"@
}

fn append_perm_list(out: &mut String, perms: &Vec<String>)
    ensures
        final(out)@ == old(out)@ + spec_perm_list(perms.deep_view()),
{
    let mut i: usize = 0;
    while i < perms.len()
        invariant
            i <= perms@.len(),
            out@ == old(out)@ + spec_perm_list(perms.deep_view().subrange(0, i as int)),
        decreases perms@.len() - i,
    {
        let ghost pre = perms.deep_view().subrange(0, i as int);
        let ghost cur = perms.deep_view().subrange(0, i as int + 1);
        proof {
            assert(cur.drop_last() =~= pre);
            assert(cur.last() == perms.deep_view()[i as int]);
        }
        if i > 0 {
            out.append(",");
        }
        let quoted = json_quoted(perms[i].as_str());
        out.append(quoted.as_str());
        proof {
            assert(out@ =~= old(out)@ + spec_perm_list(cur));
        }
        i = i + 1;
    }
    proof {
        assert(perms.deep_view().subrange(0, perms@.len() as int) =~= perms.deep_view());
    }
}

fn append_perm_entry(out: &mut String, role: &String, perms: &Vec<String>)
    ensures
        final(out)@ == old(out)@ + spec_perm_entry((role@, perms.deep_view())),
{
    let quoted = json_quoted(role.as_str());
    out.append(quoted.as_str());
    out.append(":[");
    append_perm_list(out, perms);
    out.append("]");
    assert(out@ =~= old(out)@ + spec_perm_entry((role@, perms.deep_view())));
}

fn append_perm_map(out: &mut String, entries: &Vec<(String, Vec<String>)>)
    ensures
        final(out)@ == old(out)@ + spec_perm_map(entries.deep_view()),
{
    let mut i: usize = 0;
    while i < entries.len()
        invariant
            i <= entries@.len(),
            out@ == old(out)@ + spec_perm_map(entries.deep_view().subrange(0, i as int)),
        decreases entries@.len() - i,
    {
        let ghost pre = entries.deep_view().subrange(0, i as int);
        let ghost cur = entries.deep_view().subrange(0, i as int + 1);
        proof {
            assert(cur.drop_last() =~= pre);
            assert(cur.last() == entries.deep_view()[i as int]);
        }
        if i > 0 {
            out.append(",");
        }
        append_perm_entry(out, &entries[i].0, &entries[i].1);
        proof {
            let ghost ei = entries@[i as int];
            assert(entries.deep_view()[i as int] == (ei.0@, ei.1.deep_view()));
            assert(out@ =~= old(out)@ + spec_perm_map(cur));
        }
        i = i + 1;
    }
    proof {
        assert(entries.deep_view().subrange(0, entries@.len() as int) =~= entries.deep_view());
    }
}

/// Serializes the identity payload into the single header value carried to
/// the upstream. The header's deserialized content matches the backend's
/// reply exactly: same session ID, user ID, user state, and permissions.
pub fn payload_header_value(p: &AuthPayload) -> (r: String)
    ensures
        r@ == spec_payload_json(
            p.session_id@,
            p.user_id@,
            p.user_state@,
            p.permissions.deep_view(),
        ),
{
    let mut out: String = "{\"session_id\":".to_owned();
    let quoted_sid = json_quoted(p.session_id.as_str());
    out.append(quoted_sid.as_str());
    out.append(",\"user_id\":");
    let quoted_uid = json_quoted(p.user_id.as_str());
    out.append(quoted_uid.as_str());
    out.append(",\"user_state\":");
    let quoted_state = json_quoted(p.user_state.as_str());
    out.append(quoted_state.as_str());
    out.append(",\"permissions\":{");
    append_perm_map(&mut out, &p.permissions);
    out.append("}}");
    proof {
        assert(out@ =~= spec_payload_json(
            p.session_id@,
            p.user_id@,
            p.user_state@,
            p.permissions.deep_view(),
        ));
    }
    out
}

} // verus!
