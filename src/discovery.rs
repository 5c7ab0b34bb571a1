use vstd::prelude::*;
use vstd::string::StringExecFns;

use crate::json::{find_str_member, index_spec, str_member, take_index, Json};

verus! {

/// One check that the flake declares for the current platform.
#[derive(Debug)]
pub struct CheckTarget {
    /// The attribute name under `checks.<platform>`.
    pub key: String,
    /// The name of the derivation behind it.
    pub name: String,
}

/// Why the flake's outputs hold no usable set of checks.
#[derive(Debug)]
pub enum DiscoveryError {
    /// `checks.<platform>` is not an object; `found` is what stands there
    /// (`null` where it is missing).
    NotAMap { found: Json },
    /// The member `key` of `checks.<platform>` is not a derivation.
    NotADerivation { key: String, entry: Json },
}

/// What stands under `checks.<platform>` in a flake's outputs.
pub open spec fn checks_for(doc: Json, platform: Seq<char>) -> Json {
    index_spec(index_spec(doc, "checks"@), platform)
}

/// The name of a check entry: an object whose `type` is the string
/// `derivation` and whose `name` is a string.
pub open spec fn check_entry(v: Json) -> Option<Seq<char>> {
    match v {
        Json::Object(m) => if str_member(m@, "type"@) == Some("derivation"@) {
            str_member(m@, "name"@)
        } else {
            None
        },
        _ => None,
    }
}

/// `e` is the error that discovery gives for `doc` and `platform`: the value
/// under `checks.<platform>` where it is no object, else the first member
/// that is no derivation.
pub open spec fn discovery_error(doc: Json, platform: Seq<char>, e: DiscoveryError) -> bool {
    match checks_for(doc, platform) {
        Json::Object(m) => exists|i: int|
            0 <= i < m@.len() && check_entry(#[trigger] m@[i].1) is None && (forall|j: int|
                0 <= j < i ==> check_entry(#[trigger] m@[j].1) is Some) && e
                == DiscoveryError::NotADerivation { key: m@[i].0, entry: m@[i].1 },
        other => e == DiscoveryError::NotAMap { found: other },
    }
}

fn read_check_entry(v: &Json) -> (r: Option<String>)
    ensures
        match r {
            Some(n) => check_entry(*v) == Some(n@),
            None => check_entry(*v) is None,
        },
{
    let members = match v {
        Json::Object(m) => m,
        _ => {
            return None;
        },
    };
    let is_derivation = match find_str_member(members, &String::from_str("type")) {
        Some(t) => *t == String::from_str("derivation"),
        None => false,
    };
    if !is_derivation {
        return None;
    }
    match find_str_member(members, &String::from_str("name")) {
        Some(n) => Some(n.clone()),
        None => None,
    }
}

/// The checks that `doc`, a flake's outputs, declares for `platform`, in
/// the order of its members. One entry that is no derivation fails the
/// whole discovery, naming the first such entry.
pub fn discover(doc: Json, platform: &String) -> (r: Result<Vec<CheckTarget>, DiscoveryError>)
    ensures
        match checks_for(doc, platform@) {
            Json::Object(m) => match r {
                Ok(ts) => ts@.len() == m@.len() && forall|i: int|
                    0 <= i < m@.len() ==> #[trigger] ts@[i].key@ == m@[i].0@ && check_entry(m@[i].1)
                        == Some(ts@[i].name@),
                Err(e) => exists|i: int|
                    0 <= i < m@.len() && check_entry(#[trigger] m@[i].1) is None && (forall|j: int|
                        0 <= j < i ==> check_entry(#[trigger] m@[j].1) is Some) && e
                        == DiscoveryError::NotADerivation { key: m@[i].0, entry: m@[i].1 },
            },
            other => r == Err::<Vec<CheckTarget>, DiscoveryError>(DiscoveryError::NotAMap { found: other }),
        },
        r matches Err(e) ==> discovery_error(doc, platform@, e),
{
    let checks = take_index(doc, &String::from_str("checks"));
    let found = take_index(checks, platform);
    let mut members = match found {
        Json::Object(m) => m,
        other => {
            return Err(DiscoveryError::NotAMap { found: other });
        },
    };
    let ghost m = members@;
    let mut targets: Vec<CheckTarget> = Vec::new();
    let mut i: usize = 0;
    while i < members.len()
        invariant
            0 <= i <= members.len(),
            members@ == m,
            checks_for(doc, platform@) matches Json::Object(mm) && mm@ == m,
            targets@.len() == i,
            forall|j: int|
                0 <= j < i ==> #[trigger] targets@[j].key@ == m[j].0@ && check_entry(m[j].1) == Some(
                    targets@[j].name@,
                ),
        decreases members.len() - i,
    {
        match read_check_entry(&members[i].1) {
            Some(name) => {
                targets.push(CheckTarget { key: members[i].0.clone(), name });
            },
            None => {
                let (key, entry) = members.remove(i);
                assert forall|j: int| 0 <= j < i implies check_entry(#[trigger] m[j].1) is Some by {
                    assert(targets@[j].key@ == m[j].0@);
                }
                assert(key == m[i as int].0 && entry == m[i as int].1);
                assert(check_entry(m[i as int].1) is None);
                return Err(DiscoveryError::NotADerivation { key, entry });
            },
        }
        i = i + 1;
    }
    Ok(targets)
}

} // verus!
