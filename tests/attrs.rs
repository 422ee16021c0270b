use quickssh::attrs::{
    fill_owner_names, plan_setstat, setstat_plan, with_owner_names, AttrPlan, CurrentMetadata, FileAttrs, Owner, Times,
};
use quickssh::sftp::Status;

fn empty() -> FileAttrs {
    FileAttrs {
        size: None,
        uid: None,
        user: None,
        gid: None,
        group: None,
        permissions: None,
        atime: None,
        mtime: None,
    }
}

fn current() -> CurrentMetadata {
    CurrentMetadata { size: 10, uid: 1000, gid: 100, mode: 0o100644, atime: 50, mtime: 60 }
}

const NOTHING: AttrPlan = AttrPlan { truncate: None, chown: None, chmod: None, utimes: None };

#[test]
fn no_fields_change_nothing() {
    assert_eq!(plan_setstat(&empty(), &current(), None, None), Ok(NOTHING));
}

#[test]
fn values_already_there_are_skipped() {
    let mut a = empty();
    a.size = Some(10);
    a.uid = Some(1000);
    a.gid = Some(100);
    a.permissions = Some(0o100644);
    a.atime = Some(50);
    a.mtime = Some(60);
    assert_eq!(plan_setstat(&a, &current(), None, None), Ok(NOTHING));
}

#[test]
fn every_step_in_one_plan() {
    let mut a = empty();
    a.size = Some(0);
    a.uid = Some(0);
    a.permissions = Some(0o600);
    a.mtime = Some(99);
    assert_eq!(
        plan_setstat(&a, &current(), None, None),
        Ok(AttrPlan {
            truncate: Some(0),
            chown: Some(Owner { uid: 0, gid: 100 }),
            chmod: Some(0o600),
            utimes: Some(Times { atime: 50, mtime: 99 }),
        })
    );
}

#[test]
fn explicit_ids_win_over_names() {
    let mut a = empty();
    a.uid = Some(5);
    a.user = Some("nobody-here".to_string());
    a.gid = Some(6);
    a.group = Some("nobody-here".to_string());
    let plan = plan_setstat(&a, &current(), Some(77), Some(88)).unwrap();
    assert_eq!(plan.chown, Some(Owner { uid: 5, gid: 6 }));
}

#[test]
fn names_resolve_or_fail() {
    let mut a = empty();
    a.user = Some("bob".to_string());
    assert_eq!(
        plan_setstat(&a, &current(), Some(1001), None).unwrap().chown,
        Some(Owner { uid: 1001, gid: 100 })
    );
    assert_eq!(plan_setstat(&a, &current(), None, None), Err(Status::Failure));
    let mut g = empty();
    g.group = Some("staff".to_string());
    assert_eq!(plan_setstat(&g, &current(), None, None), Err(Status::Failure));
}

#[test]
fn setstat_resolves_names_in_the_system() {
    let mut a = empty();
    a.user = Some("root".to_string());
    a.group = Some("root".to_string());
    let plan = setstat_plan(&a, &current()).unwrap();
    assert_eq!(plan.chown, Some(Owner { uid: 0, gid: 0 }));
    let mut missing = empty();
    missing.user = Some("no-such-user-anywhere".to_string());
    assert_eq!(setstat_plan(&missing, &current()), Err(Status::Failure));
}

#[test]
fn owner_names_come_from_the_ids() {
    let mut a = empty();
    a.uid = Some(0);
    a.gid = Some(0);
    a.size = Some(3);
    let r = with_owner_names(a);
    assert_eq!(r.user, Some("root".to_string()));
    assert_eq!(r.group, Some("root".to_string()));
    assert_eq!(r.size, Some(3));
    assert_eq!(r.uid, Some(0));
}

#[test]
fn owner_names_fill_only_where_ids_are() {
    let mut a = empty();
    a.uid = Some(7);
    a.group = Some("kept".to_string());
    a.permissions = Some(0o644);
    let r = fill_owner_names(a, Some("u7".to_string()), Some("ignored".to_string()));
    assert_eq!(r.user, Some("u7".to_string()));
    assert_eq!(r.group, Some("kept".to_string()));
    assert_eq!(r.uid, Some(7));
    assert_eq!(r.gid, None);
    assert_eq!(r.permissions, Some(0o644));
    let mut b = empty();
    b.gid = Some(8);
    b.user = Some("stays".to_string());
    let r = fill_owner_names(b, None, None);
    assert_eq!(r.user, Some("stays".to_string()));
    assert_eq!(r.group, None);
}
