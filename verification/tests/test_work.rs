use libcgroup_rs::cursor::CursorStep;
use libcgroup_rs::error::{
    cg_convert_c_error, cg_get_error, cg_get_last_error_str, kind_of, CGroupError, StatusKind,
    C_EC_GROUP_EOF, C_EC_GROUP_NOT_ALLOWED, C_EC_GROUP_NOT_MOUNTED, C_GROUP_SUCCESS,
};
use libcgroup_rs::extend::{MountBuilder, PathProbe};
use libcgroup_rs::initialization::CGroupInitializer;
use libcgroup_rs::iterators::CGroupTaskIterator;
use libcgroup_rs::manipulation::CGroupBuilder;

#[test]
fn test_initialize() {
    // The subsystem answers "not mounted" first, and success after the mount.
    let mut answers = vec![C_GROUP_SUCCESS, C_EC_GROUP_NOT_MOUNTED];
    match CGroupInitializer::init(answers.pop().unwrap()) {
        Ok(_) => panic!("the first answer is a failure"),
        Err(e) if e.kind() == cg_get_error(C_EC_GROUP_NOT_MOUNTED).kind() => {
            let mut space = MountBuilder::new();
            space
                .set_target_path("/dev/shm/cgroups")
                .set_src_path("cgroup")
                .set_type_name("cgroup")
                .set_opts("cpu");

            assert_eq!(space.target_path(), "/dev/shm/cgroups");
            assert_eq!(space.src_path(), "cgroup");
            assert_eq!(space.fs_type(), "cgroup");
            assert_eq!(space.opts(), "cpu");
            assert_eq!(space.flags(), 0);
            if !space.target_exists(PathProbe::NotFound) {
                assert_eq!(space.mount(), Ok(()));
                assert_eq!(space.mounted(0), Ok(()));
            }
            assert_eq!(CGroupInitializer::init(answers.pop().unwrap()), Ok(()));
        }
        Err(e) => panic!("{:?}", e),
    }

    let point = CGroupInitializer::get_subsys_mount_point("cpu", 0, b"/dev/shm/cgroups\0");
    println!("Mount Point = {:?}", point);
    assert_eq!(point, Some("/dev/shm/cgroups".to_string()));
    assert_eq!(CGroupInitializer::get_subsys_mount_point("cpu", 50004, b"\0"), None);
    assert_eq!(CGroupInitializer::get_subsys_mount_point("c\0pu", 0, b"/x\0"), None);
    assert_eq!(CGroupInitializer::get_subsys_mount_point("cpu", C_EC_GROUP_EOF, b"/x\0"), None);
}

#[test]
fn test_create() {
    assert_eq!(CGroupInitializer::init(C_GROUP_SUCCESS), Ok(()));

    let container_name = "foo";
    let mut cg = CGroupBuilder::new(container_name, 0x1000).unwrap();

    let added = cg.add_controller("cpu", 0x2000).unwrap();
    println!("Add Controller = {:?}", added);
    let got = cg.get_controller("cpu", 0x2000).unwrap();
    println!("Get Controller = {:?}", got);
    assert_eq!(added.name(), "cpu");
    assert_eq!(got.name(), "cpu");
    assert!(cg.owns(&added));
    assert!(cg.owns(&got));
    assert_eq!(added.handle(&cg), Ok(0x2000));

    // Without the privilege the subsystem refuses the commit.
    match cg.create(C_EC_GROUP_NOT_ALLOWED) {
        Ok(_) => panic!("the commit was refused"),
        Err(e) if e.kind() == cg_get_error(C_EC_GROUP_NOT_ALLOWED).kind() => {
            println!("Only root! = use sudo ?");
            assert_eq!(e, CGroupError::Status { code: 50007 });
            assert_eq!(e.kind(), StatusKind::NotAllowed);
        }
        Err(e) => panic!("{:?}", e),
    }
    assert_eq!(cg.create(C_GROUP_SUCCESS), Ok(()));
}

#[test]
fn test_error() {
    println!("EC = {}", cg_convert_c_error(0));
    println!("EC Str = {}", cg_get_last_error_str(0, "ignored"));
    assert_eq!(cg_convert_c_error(0), 0);
    assert_eq!(cg_convert_c_error(50016), 50016);
    assert_eq!(cg_convert_c_error(-3), -3);
    assert_eq!(cg_get_last_error_str(0, "ignored"), "Success");
    assert_eq!(
        cg_get_last_error_str(50001, "Cgroup is not mounted"),
        "Cgroup is not mounted"
    );
    assert_eq!(kind_of(50001), StatusKind::NotMounted);
}

#[test]
fn test_create_container() {
    assert_eq!(CGroupInitializer::init(C_GROUP_SUCCESS), Ok(()));

    let container_name = "foo";
    let mut container = CGroupBuilder::new(container_name, 0x1000).unwrap();
    println!("Container = {:?}", container);

    let ctrl = container.add_controller("cpu", 0x2000).unwrap();
    println!("Controller = {:?}", ctrl);

    assert_eq!(ctrl.add_u64("cpu.cfs_quota_us", C_GROUP_SUCCESS), Ok(()));
    assert_eq!(ctrl.add_u64("cpu.cfs_period_us", C_GROUP_SUCCESS), Ok(()));

    assert_eq!(container.create(C_GROUP_SUCCESS), Ok(()));
}

/// Runs the whole scenario against the statuses that the subsystem gives:
/// one for the commit, and the end mark for the tasks of a group that no
/// task has joined.
fn scenario(commit_status: i32) -> Result<Vec<i32>, CGroupError> {
    CGroupInitializer::init(C_GROUP_SUCCESS)?;
    let mut group = CGroupBuilder::new("foo", 0x1000)?;
    let ctrl = group.add_controller("cpu", 0x2000)?;
    ctrl.add_u64("cpu.cfs_quota_us", C_GROUP_SUCCESS)?;
    ctrl.add_u64("cpu.cfs_period_us", C_GROUP_SUCCESS)?;
    group.create(commit_status)?;

    let mut ends = 0;
    let mut tasks = CGroupTaskIterator::from("foo", "cpu", 0x3000, C_EC_GROUP_EOF, 0)?;
    let mut pids = Vec::new();
    loop {
        match tasks.next() {
            CursorStep::Item { item, .. } => pids.push(item),
            CursorStep::End { teardown } => {
                if teardown == Some(0x3000) {
                    ends += 1;
                }
                break;
            }
        }
    }
    assert_eq!(ends, 1);
    assert_eq!(tasks.terminal_error(), None);
    assert_eq!(group.free(), Some(0x1000));
    Ok(pids)
}

#[test]
fn scenario_succeeds_with_privilege() {
    assert_eq!(scenario(C_GROUP_SUCCESS), Ok(vec![]));
}

#[test]
fn scenario_is_denied_without_privilege() {
    let denied = scenario(C_EC_GROUP_NOT_ALLOWED).unwrap_err();
    assert_eq!(denied, CGroupError::Status { code: C_EC_GROUP_NOT_ALLOWED });
    assert_eq!(denied.kind(), StatusKind::NotAllowed);
}
