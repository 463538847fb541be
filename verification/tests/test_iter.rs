use libcgroup_rs::cursor::CursorStep;
use libcgroup_rs::error::{CGroupError, C_EC_GROUP_EOF, C_GROUP_SUCCESS};
use libcgroup_rs::initialization::CGroupInitializer;
use libcgroup_rs::iterators::{
    CGroupAllControllerIterator, CGroupControllerIterator, CGroupStatsIterator,
    CGroupTaskIterator, CGroupWalkIterator,
};
use libcgroup_rs::records::{
    cgroup_file_type, CGroupControllerData, CGroupFileInfo, CGroupMountPoint, CGroupStat,
};

/// A native enumeration that is played from a list: it counts its calls and
/// answers with the end mark once the list is used up.
struct Script<T: Clone> {
    records: Vec<T>,
    filler: T,
    at: usize,
    begins: u32,
    nexts: u32,
    ends: u32,
    ended_on: Vec<usize>,
}

const HANDLE: usize = 0x5eed;

impl<T: Clone> Script<T> {
    fn of(records: Vec<T>, filler: T) -> Self {
        Script { records, filler, at: 0, begins: 0, nexts: 0, ends: 0, ended_on: Vec::new() }
    }

    fn reply(&self) -> (i32, T) {
        match self.records.get(self.at) {
            Some(record) => (C_GROUP_SUCCESS, record.clone()),
            None => (C_EC_GROUP_EOF, self.filler.clone()),
        }
    }

    fn begin(&mut self) -> (usize, i32, T) {
        self.begins += 1;
        self.at = 0;
        let (status, record) = self.reply();
        (HANDLE, status, record)
    }

    fn next(&mut self, handle: usize) -> (i32, T) {
        assert_eq!(handle, HANDLE);
        assert_eq!(self.ends, 0);
        self.nexts += 1;
        self.at += 1;
        self.reply()
    }

    fn end(&mut self, handle: usize) {
        self.ends += 1;
        self.ended_on.push(handle);
    }
}

fn bytes(text: &str) -> Vec<u8> {
    let mut buffer = text.as_bytes().to_vec();
    buffer.push(0);
    buffer.extend_from_slice(b"left over");
    buffer
}

fn registry() -> Vec<CGroupControllerData> {
    vec![
        CGroupControllerData { name: bytes("cpuset"), hierarchy: 3, num_cgroups: 1, enabled: 1 },
        CGroupControllerData { name: bytes("cpu"), hierarchy: 2, num_cgroups: 64, enabled: 1 },
        CGroupControllerData { name: bytes("memory"), hierarchy: 0, num_cgroups: 1, enabled: 0 },
    ]
}

#[test]
fn test_all_ctrl() {
    assert_eq!(CGroupInitializer::init(C_GROUP_SUCCESS), Ok(()));

    let mut native = Script::of(registry(), CGroupControllerData::default());
    let (handle, status, first) = native.begin();
    let mut all_ctrl_iter = CGroupAllControllerIterator::from(handle, status, first).unwrap();

    println!("============== All Controller ===============");
    let mut names = Vec::new();
    loop {
        match all_ctrl_iter.next() {
            CursorStep::Item { item: info, handle } => {
                let (status, record) = native.next(handle);
                all_ctrl_iter.cg_next(status, record);
                println!("Name = {}", info.get_name());
                println!("Hierarchy = {}", info.get_hierarchy());
                println!("Num CGroups = {}", info.get_num_cgroups());
                println!("Enabled = {}", info.get_enabled());
                println!("--------------------------------------------");
                names.push((info.get_name(), info.get_hierarchy(), info.get_num_cgroups(), info.get_enabled()));
            }
            CursorStep::End { teardown } => {
                if let Some(handle) = teardown {
                    native.end(handle);
                }
                break;
            }
        }
    }
    println!("=============================================");

    assert_eq!(
        names,
        vec![
            ("cpuset".to_string(), 3, 1, 1),
            ("cpu".to_string(), 2, 64, 1),
            ("memory".to_string(), 0, 1, 0),
        ]
    );
    assert_eq!(native.ends, 1);
    assert_eq!(native.ended_on, vec![HANDLE]);
    assert_eq!(all_ctrl_iter.terminal_error(), None);
}

#[test]
fn test_ctrl() {
    assert_eq!(CGroupInitializer::init(C_GROUP_SUCCESS), Ok(()));

    println!("============== Controller ===============");
    let mounted = vec![
        CGroupMountPoint { name: bytes("cpu"), path: bytes("/sys/fs/cgroup/cpu") },
        CGroupMountPoint { name: bytes("memory"), path: bytes("/sys/fs/cgroup/memory") },
    ];
    let mut native = Script::of(mounted, CGroupMountPoint::default());
    let (handle, status, first) = native.begin();
    let mut ctrl_iter = CGroupControllerIterator::from(handle, status, first).unwrap();
    let mut seen = Vec::new();
    loop {
        match ctrl_iter.next() {
            CursorStep::Item { item: info, handle } => {
                let (status, record) = native.next(handle);
                ctrl_iter.cg_next(status, record);
                println!("Name = {}", info.get_name());
                println!("Path = {}", info.get_path());
                println!("--------------------------------------------");
                seen.push((info.get_name(), info.get_path()));
            }
            CursorStep::End { teardown } => {
                if let Some(handle) = teardown {
                    native.end(handle);
                }
                break;
            }
        }
    }
    println!("=============================================");

    assert_eq!(
        seen,
        vec![
            ("cpu".to_string(), "/sys/fs/cgroup/cpu".to_string()),
            ("memory".to_string(), "/sys/fs/cgroup/memory".to_string()),
        ]
    );
    assert_eq!(native.ends, 1);
}

#[test]
fn test_task() {
    assert_eq!(CGroupInitializer::init(C_GROUP_SUCCESS), Ok(()));

    println!("============== Task ===============");
    let mut native = Script::of(vec![1, 417, 9000], 0);
    let (handle, status, first) = native.begin();
    let mut task_iter = CGroupTaskIterator::from("foo", "cpu", handle, status, first).unwrap();
    assert_eq!(task_iter.cg_name(), "foo");
    assert_eq!(task_iter.ctrl_name(), "cpu");
    let mut pids = Vec::new();
    loop {
        match task_iter.next() {
            CursorStep::Item { item: info, handle } => {
                let (status, record) = native.next(handle);
                task_iter.cg_next(status, record);
                println!("PID = {}", info);
                println!("--------------------------------------------");
                pids.push(info);
            }
            CursorStep::End { teardown } => {
                if let Some(handle) = teardown {
                    native.end(handle);
                }
                break;
            }
        }
    }
    println!("=============================================");

    assert_eq!(pids, vec![1, 417, 9000]);
    assert_eq!(native.nexts, 3);
    assert_eq!(native.ends, 1);
}

#[test]
fn test_stat() {
    assert_eq!(CGroupInitializer::init(C_GROUP_SUCCESS), Ok(()));

    println!("============== Stats ===============");
    let stats = vec![
        CGroupStat { name: bytes("nr_periods"), value: bytes("12") },
        CGroupStat { name: bytes("nr_throttled"), value: bytes("0") },
    ];
    let mut native = Script::of(stats, CGroupStat::default());
    let (handle, status, first) = native.begin();
    let mut stat_iter =
        CGroupStatsIterator::from("cpu", "nr_periods", handle, status, first).unwrap();
    assert_eq!(stat_iter.ctrl_name(), "cpu");
    assert_eq!(stat_iter.path_name(), "nr_periods");
    let mut seen = Vec::new();
    loop {
        match stat_iter.next() {
            CursorStep::Item { item: info, handle } => {
                let (status, record) = native.next(handle);
                stat_iter.cg_next(status, record);
                println!("Name = {}", info.get_name());
                println!("Value = {}", info.get_value());
                println!("--------------------------------------------");
                seen.push((info.get_name(), info.get_value()));
            }
            CursorStep::End { teardown } => {
                if let Some(handle) = teardown {
                    native.end(handle);
                }
                break;
            }
        }
    }
    println!("=============================================");

    assert_eq!(
        seen,
        vec![
            ("nr_periods".to_string(), "12".to_string()),
            ("nr_throttled".to_string(), "0".to_string()),
        ]
    );
    assert_eq!(native.ends, 1);
}

fn node(kind: cgroup_file_type, path: &str, parent: &str, full_path: &str, depth: i16) -> (i32, CGroupFileInfo) {
    (
        0,
        CGroupFileInfo {
            c_type: kind,
            path: path.to_string(),
            parent: parent.to_string(),
            full_path: full_path.to_string(),
            depth,
        },
    )
}

#[test]
fn test_walk() {
    assert_eq!(CGroupInitializer::init(C_GROUP_SUCCESS), Ok(()));

    println!("============== Walk ===============");
    let tree = vec![
        node(cgroup_file_type::DIR, "cgroups", "", "/dev/shm/cgroups", 0),
        node(cgroup_file_type::DIR, "foo", "cgroups", "/dev/shm/cgroups/foo", 1),
    ];
    let mut native = Script::of(tree, (0, CGroupFileInfo::default()));
    let (handle, status, (level, info)) = native.begin();
    let mut walk_iter =
        CGroupWalkIterator::from("cpu", "/dev/shm/cgroups", 1, handle, status, level, info)
            .unwrap();
    println!("=============================================");

    assert_eq!(walk_iter.ctrl_name(), "cpu");
    assert_eq!(walk_iter.base_path(), "/dev/shm/cgroups");
    assert_eq!(walk_iter.depth(), 1);
    // The walk is given up before any pull: the context is closed all the same.
    assert_eq!(walk_iter.set_flags(3), Some((HANDLE, 3)));
    if let Some(handle) = walk_iter.cg_end() {
        native.end(handle);
    }
    assert_eq!(walk_iter.cg_end(), None);
    assert_eq!(walk_iter.set_flags(3), None);
    assert!(matches!(walk_iter.next(), CursorStep::End { teardown: None }));
    assert_eq!(native.ends, 1);
    assert_eq!(native.nexts, 0);
}

#[test]
fn walk_yields_nodes_in_order() {
    let tree = vec![
        node(cgroup_file_type::DIR, "cgroups", "", "/dev/shm/cgroups", 0),
        node(cgroup_file_type::FILE, "tasks", "cgroups", "/dev/shm/cgroups/tasks", 1),
        node(cgroup_file_type::OTHER, "odd", "cgroups", "/dev/shm/cgroups/odd", 1),
    ];
    let mut native = Script::of(tree, (0, CGroupFileInfo::default()));
    let (handle, status, (level, info)) = native.begin();
    let mut walk =
        CGroupWalkIterator::from("cpu", "/dev/shm/cgroups", 2, handle, status, level, info)
            .unwrap();
    let mut paths = Vec::new();
    loop {
        match walk.next() {
            CursorStep::Item { item: (_, info), handle } => {
                let (status, (level, record)) = native.next(handle);
                walk.cg_next(status, level, record);
                paths.push((info.c_type, info.full_path, info.depth));
            }
            CursorStep::End { teardown } => {
                if let Some(handle) = teardown {
                    native.end(handle);
                }
                break;
            }
        }
    }
    assert_eq!(
        paths,
        vec![
            (cgroup_file_type::DIR, "/dev/shm/cgroups".to_string(), 0),
            (cgroup_file_type::FILE, "/dev/shm/cgroups/tasks".to_string(), 1),
            (cgroup_file_type::OTHER, "/dev/shm/cgroups/odd".to_string(), 1),
        ]
    );
    assert_eq!(native.ends, 1);
}

#[test]
fn begin_failure_gives_no_enumeration() {
    assert_eq!(
        CGroupTaskIterator::from("foo", "cpu", 0, 50002, 0).err(),
        Some(CGroupError::Status { code: 50002 })
    );
    assert_eq!(
        CGroupStatsIterator::from("cpu", "x", 0, 50004, CGroupStat::default()).err(),
        Some(CGroupError::Status { code: 50004 })
    );
    assert_eq!(
        CGroupWalkIterator::from("cpu", "/x", 1, 0, 50001, 0, CGroupFileInfo::default()).err(),
        Some(CGroupError::Status { code: 50001 })
    );
    assert_eq!(
        CGroupControllerIterator::from(0, 50014, CGroupMountPoint::default()).err(),
        Some(CGroupError::Status { code: 50014 })
    );
    assert_eq!(
        CGroupAllControllerIterator::from(0, 50013, CGroupControllerData::default()).err(),
        Some(CGroupError::Status { code: 50013 })
    );
}

#[test]
fn nul_in_a_parameter_is_refused_before_the_status_counts() {
    assert_eq!(
        CGroupTaskIterator::from("fo\0o", "cpu", 1, 0, 5).err(),
        Some(CGroupError::InteriorNul)
    );
    assert_eq!(
        CGroupTaskIterator::from("foo", "c\0pu", 1, 50002, 5).err(),
        Some(CGroupError::InteriorNul)
    );
    assert_eq!(CGroupStatsIterator::new("cpu", "a\0").err(), Some(CGroupError::InteriorNul));
    assert_eq!(CGroupWalkIterator::new("\0", "/", 0).err(), Some(CGroupError::InteriorNul));
    assert!(CGroupWalkIterator::new("cpu", "/", 0).is_ok());
}

#[test]
fn registry_holds_a_consistent_entry() {
    let mut native = Script::of(registry(), CGroupControllerData::default());
    let (handle, status, first) = native.begin();
    let mut all = CGroupAllControllerIterator::from(handle, status, first).unwrap();
    let mut consistent = 0;
    loop {
        match all.next() {
            CursorStep::Item { item, handle } => {
                let (status, record) = native.next(handle);
                all.cg_next(status, record);
                if item.is_consistent() {
                    assert_eq!(item.get_hierarchy() as i64, item.hierarchy as i64);
                    assert_eq!(item.get_enabled() as i64, item.enabled as i64);
                    consistent += 1;
                }
            }
            CursorStep::End { teardown } => {
                if let Some(handle) = teardown {
                    native.end(handle);
                }
                break;
            }
        }
    }
    assert!(consistent >= 1);
    let odd = CGroupControllerData { name: bytes("x"), hierarchy: -1, num_cgroups: 0, enabled: 1 };
    assert!(!odd.is_consistent());
    assert_eq!(odd.get_hierarchy(), 4294967295);
    let off = CGroupControllerData { name: bytes("x"), hierarchy: 1, num_cgroups: -2, enabled: -1 };
    assert!(!off.is_consistent());
    assert_eq!(off.get_num_cgroups(), 4294967294);
    assert_eq!(off.get_enabled(), 4294967295);
}
