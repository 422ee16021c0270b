//! File attributes: what a `setstat` request changes, and the owner and
//! group names that metadata answers carry.

use vstd::prelude::*;

use crate::sftp::Status;

verus! {

/// File attributes as the file-transfer protocol carries them; a field that
/// is `None` is absent.
pub struct FileAttrs {
    pub size: Option<u64>,
    pub uid: Option<u32>,
    pub user: Option<String>,
    pub gid: Option<u32>,
    pub group: Option<String>,
    pub permissions: Option<u32>,
    pub atime: Option<u32>,
    pub mtime: Option<u32>,
}

/// The metadata that a path has before a `setstat` request.
#[derive(PartialEq, Eq, Structural, Clone, Copy, Debug)]
pub struct CurrentMetadata {
    pub size: u64,
    pub uid: u32,
    pub gid: u32,
    pub mode: u32,
    pub atime: i64,
    pub mtime: i64,
}

/// An owner and group, by id.
#[derive(PartialEq, Eq, Structural, Clone, Copy, Debug)]
pub struct Owner {
    pub uid: u32,
    pub gid: u32,
}

/// Access and modification times, in seconds since the epoch.
#[derive(PartialEq, Eq, Structural, Clone, Copy, Debug)]
pub struct Times {
    pub atime: i64,
    pub mtime: i64,
}

/// The changes a `setstat` request comes to, applied in this order; a step
/// that is `None` is skipped.
#[derive(PartialEq, Eq, Structural, Clone, Copy, Debug)]
pub struct AttrPlan {
    /// Truncate or extend the file to this size.
    pub truncate: Option<u64>,
    /// Change owner and group to these ids.
    pub chown: Option<Owner>,
    /// Set these permission bits.
    pub chmod: Option<u32>,
    /// Set these access and modification times.
    pub utimes: Option<Times>,
}

/// The id asked for: an explicit id wins over a name, whose resolution is
/// `resolved` (`None` where no such name exists); with neither, the current
/// id stays. `None` when a name was given that resolves to nothing.
pub open spec fn target_id(
    explicit: Option<u32>,
    name: Option<String>,
    resolved: Option<u32>,
    current: u32,
) -> Option<u32> {
    match explicit {
        Some(id) => Some(id),
        None => match name {
            Some(_) => resolved,
            None => Some(current),
        },
    }
}

/// The step for a value: `None` when nothing was asked or the value is
/// already there.
pub open spec fn step<T>(asked: Option<T>, current: T) -> Option<T> {
    match asked {
        Some(v) => if v == current {
            None
        } else {
            Some(v)
        },
        None => None,
    }
}

/// The plan for `setstat`, given how the owner and group names resolved.
pub open spec fn spec_plan_setstat(
    attrs: FileAttrs,
    current: CurrentMetadata,
    user_uid: Option<u32>,
    group_gid: Option<u32>,
) -> Result<AttrPlan, Status> {
    let uid = target_id(attrs.uid, attrs.user, user_uid, current.uid);
    let gid = target_id(attrs.gid, attrs.group, group_gid, current.gid);
    if uid is None || gid is None {
        Err(Status::Failure)
    } else {
        let owner = Owner { uid: uid->0, gid: gid->0 };
        let atime = match attrs.atime {
            Some(t) => t as i64,
            None => current.atime,
        };
        let mtime = match attrs.mtime {
            Some(t) => t as i64,
            None => current.mtime,
        };
        Ok(
            AttrPlan {
                truncate: step(attrs.size, current.size),
                chown: if owner == (Owner { uid: current.uid, gid: current.gid }) {
                    None
                } else {
                    Some(owner)
                },
                chmod: step(attrs.permissions, current.mode),
                utimes: if atime == current.atime && mtime == current.mtime {
                    None
                } else {
                    Some(Times { atime, mtime })
                },
            },
        )
    }
}

/// Relies on `users::get_user_by_name`: the uid of the named user in the
/// system's user database, if there is one. The database may change.
#[verifier::external_body]
fn uid_of_user(name: &str) -> (r: Option<u32>) {
    users::get_user_by_name(name).map(|u| u.uid())
}

/// Relies on `users::get_group_by_name`: the gid of the named group in the
/// system's group database, if there is one. The database may change.
#[verifier::external_body]
fn gid_of_group(name: &str) -> (r: Option<u32>) {
    users::get_group_by_name(name).map(|g| g.gid())
}

/// Relies on `users::get_user_by_uid`: the name of the user with this uid,
/// if there is one, with any bytes that are not UTF-8 replaced.
#[verifier::external_body]
fn user_name_of(uid: u32) -> (r: Option<String>) {
    users::get_user_by_uid(uid).map(|u| u.name().to_string_lossy().to_string())
}

/// Relies on `users::get_group_by_gid`: the name of the group with this gid,
/// if there is one, with any bytes that are not UTF-8 replaced.
#[verifier::external_body]
fn group_name_of(gid: u32) -> (r: Option<String>) {
    users::get_group_by_gid(gid).map(|g| g.name().to_string_lossy().to_string())
}

fn target_id_of(explicit: Option<u32>, name: &Option<String>, resolved: Option<u32>, current: u32) -> (r:
    Option<u32>)
    ensures
        r == target_id(explicit, *name, resolved, current),
{
    match explicit {
        Some(id) => Some(id),
        None => match name {
            Some(_) => resolved,
            None => Some(current),
        },
    }
}

fn step_of(asked: Option<u64>, current: u64) -> (r: Option<u64>)
    ensures
        r == step(asked, current),
{
    match asked {
        Some(v) => if v == current {
            None
        } else {
            Some(v)
        },
        None => None,
    }
}

/// The plan for `setstat` on a path with the `current` metadata, where the
/// owner name resolved to `user_uid` and the group name to `group_gid` (each
/// looked at only when a name and no id was given). A name that resolves to
/// nothing fails the request.
pub fn plan_setstat(
    attrs: &FileAttrs,
    current: &CurrentMetadata,
    user_uid: Option<u32>,
    group_gid: Option<u32>,
) -> (r: Result<AttrPlan, Status>)
    ensures
        r == spec_plan_setstat(*attrs, *current, user_uid, group_gid),
{
    let uid = match target_id_of(attrs.uid, &attrs.user, user_uid, current.uid) {
        Some(u) => u,
        None => return Err(Status::Failure),
    };
    let gid = match target_id_of(attrs.gid, &attrs.group, group_gid, current.gid) {
        Some(g) => g,
        None => return Err(Status::Failure),
    };
    let chown = if uid == current.uid && gid == current.gid {
        None
    } else {
        Some(Owner { uid, gid })
    };
    let chmod = match attrs.permissions {
        Some(p) => if p == current.mode {
            None
        } else {
            Some(p)
        },
        None => None,
    };
    let atime: i64 = match attrs.atime {
        Some(t) => t as i64,
        None => current.atime,
    };
    let mtime: i64 = match attrs.mtime {
        Some(t) => t as i64,
        None => current.mtime,
    };
    let utimes = if atime == current.atime && mtime == current.mtime {
        None
    } else {
        Some(Times { atime, mtime })
    };
    Ok(AttrPlan { truncate: step_of(attrs.size, current.size), chown, chmod, utimes })
}

/// The plan for `setstat`, resolving the owner and group names in the
/// system's databases where they are needed. Whatever the databases say, the
/// plan is the one `plan_setstat` gives for some resolution of the names;
/// where no name needs resolving, it is fixed.
pub fn setstat_plan(attrs: &FileAttrs, current: &CurrentMetadata) -> (r: Result<AttrPlan, Status>)
    ensures
        exists|u: Option<u32>, g: Option<u32>| r == spec_plan_setstat(*attrs, *current, u, g),
        (attrs.uid is Some || attrs.user is None) && (attrs.gid is Some || attrs.group is None)
            ==> r == spec_plan_setstat(*attrs, *current, None, None),
{
    let user_uid = match (&attrs.uid, &attrs.user) {
        (None, Some(name)) => uid_of_user(name.as_str()),
        _ => None,
    };
    let group_gid = match (&attrs.gid, &attrs.group) {
        (None, Some(name)) => gid_of_group(name.as_str()),
        _ => None,
    };
    plan_setstat(attrs, current, user_uid, group_gid)
}

/// Metadata attributes with the names of their owner and group: `user` and
/// `group` are what the ids resolve to; a name stays as it was where there is
/// no id. Every other field stays.
pub open spec fn spec_fill_owner_names(
    attrs: FileAttrs,
    user: Option<String>,
    group: Option<String>,
) -> FileAttrs {
    FileAttrs {
        user: if attrs.uid is Some {
            user
        } else {
            attrs.user
        },
        group: if attrs.gid is Some {
            group
        } else {
            attrs.group
        },
        ..attrs
    }
}

/// Fills in the owner and group names of metadata attributes, given what
/// the owner id resolved to (`user`) and what the group id resolved to
/// (`group`); `None` where the id has no name.
pub fn fill_owner_names(attrs: FileAttrs, user: Option<String>, group: Option<String>) -> (r:
    FileAttrs)
    ensures
        r == spec_fill_owner_names(attrs, user, group),
{
    let user = if attrs.uid.is_some() {
        user
    } else {
        attrs.user
    };
    let group = if attrs.gid.is_some() {
        group
    } else {
        attrs.group
    };
    FileAttrs {
        size: attrs.size,
        uid: attrs.uid,
        user,
        gid: attrs.gid,
        group,
        permissions: attrs.permissions,
        atime: attrs.atime,
        mtime: attrs.mtime,
    }
}

/// Fills in the owner and group names of metadata attributes from their ids,
/// as the system's databases give them. Whatever the databases say, the
/// result is the one `fill_owner_names` gives for some names.
pub fn with_owner_names(attrs: FileAttrs) -> (r: FileAttrs)
    ensures
        exists|u: Option<String>, g: Option<String>| r == spec_fill_owner_names(attrs, u, g),
{
    let user = match attrs.uid {
        Some(uid) => user_name_of(uid),
        None => None,
    };
    let group = match attrs.gid {
        Some(gid) => group_name_of(gid),
        None => None,
    };
    fill_owner_names(attrs, user, group)
}

} // verus!
