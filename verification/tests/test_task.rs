use libcgroup_rs::error::{CGroupError, C_GROUP_SUCCESS};
use libcgroup_rs::initialization::CGroupInitializer;
use libcgroup_rs::manipulation::CGroupBuilder;

#[test]
fn test_task_shell() {
    assert_eq!(CGroupInitializer::init(C_GROUP_SUCCESS), Ok(()));

    let mut cg = CGroupBuilder::new("foo", 0x10).unwrap();
    let ctrl = cg.add_controller("cpu", 0x20).unwrap();
    assert!(!ctrl.is_null());
    assert!(!cg.is_null());
    assert_eq!(cg.handle(), Ok(0x10));
    assert_eq!(cg.name(), "foo");

    // A reply without a handle means that the controller was not created.
    assert_eq!(
        cg.add_controller("cpu", 0).err(),
        Some(CGroupError::Status { code: 50012 })
    );
    assert!(cg.owns(&ctrl));
}
