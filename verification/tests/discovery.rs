use gpiochip::gpio::Error;
use gpiochip::ioctl::{
    find_gpiochip, first_probe, gpiochip_path, next_action, Action, ChipInfo, Probe,
    LABEL_BUFSIZE, PATH_GPIOCHIP, REQ_GET_CHIP_INFO,
};
use std::cell::RefCell;
use std::io;

fn chip(label: &[u8], lines: u32) -> ChipInfo {
    let mut info = ChipInfo::zeroed();
    info.label[..label.len()].copy_from_slice(label);
    info.lines = lines;
    info
}

fn answered(label: &[u8], lines: u32) -> Probe {
    Probe::Queried { retval: 0, errno: 0, info: chip(label, lines) }
}

fn index_of(path: &str) -> usize {
    path.strip_prefix(PATH_GPIOCHIP).unwrap().parse().unwrap()
}

#[test]
fn candidate_paths() {
    assert_eq!(gpiochip_path(0), "/dev/gpiochip0");
    assert_eq!(gpiochip_path(9), "/dev/gpiochip9");
    assert_eq!(gpiochip_path(10), "/dev/gpiochip10");
    assert_eq!(gpiochip_path(255), "/dev/gpiochip255");
    for index in 0..=255u8 {
        assert_eq!(gpiochip_path(index), format!("{}{}", PATH_GPIOCHIP, index));
    }
}

#[test]
fn scan_starts_with_candidate_zero() {
    match first_probe() {
        Action::Probe { index, path, request } => {
            assert_eq!(index, 0);
            assert_eq!(path, "/dev/gpiochip0");
            assert_eq!(request, REQ_GET_CHIP_INFO);
        }
        other => panic!("unexpected action: {:?}", other),
    }
}

#[test]
fn denied_open_ends_the_scan_with_the_path() {
    let denied = io::Error::from(io::ErrorKind::PermissionDenied);
    match next_action(7, Probe::OpenFailed(denied)) {
        Action::Fail(Error::PermissionDenied(path)) => assert_eq!(path, "/dev/gpiochip7"),
        other => panic!("unexpected action: {:?}", other),
    }
    let denied = io::Error::from_raw_os_error(libc::EACCES);
    match next_action(0, Probe::OpenFailed(denied)) {
        Action::Fail(Error::PermissionDenied(path)) => assert_eq!(path, "/dev/gpiochip0"),
        other => panic!("unexpected action: {:?}", other),
    }
}

#[test]
fn other_open_failure_ends_the_scan_with_the_error() {
    let missing = io::Error::from_raw_os_error(libc::ENOENT);
    match next_action(4, Probe::OpenFailed(missing)) {
        Action::Fail(Error::Io(inner)) => {
            assert_eq!(inner.raw_os_error(), Some(libc::ENOENT));
            assert_eq!(inner.kind(), io::ErrorKind::NotFound);
        }
        other => panic!("unexpected action: {:?}", other),
    }
}

#[test]
fn failed_request_ends_the_scan_with_its_error_number() {
    let outcome = Probe::Queried { retval: -1, errno: libc::ENOTTY, info: ChipInfo::zeroed() };
    match next_action(2, outcome) {
        Action::Fail(Error::Io(inner)) => assert_eq!(inner.raw_os_error(), Some(libc::ENOTTY)),
        other => panic!("unexpected action: {:?}", other),
    }
    let outcome =
        Probe::Queried { retval: -1, errno: libc::EIO, info: chip(b"pinctrl-bcm2835", 54) };
    match next_action(2, outcome) {
        Action::Fail(Error::Io(inner)) => assert_eq!(inner.raw_os_error(), Some(libc::EIO)),
        other => panic!("unexpected action: {:?}", other),
    }
}

#[test]
fn matching_label_ends_the_scan_with_success() {
    assert!(matches!(next_action(0, answered(b"pinctrl-bcm2835", 54)), Action::Found(0)));
    assert!(matches!(next_action(4, answered(b"pinctrl-bcm2711", 58)), Action::Found(4)));
    assert!(matches!(next_action(255, answered(b"pinctrl-rp1", 54)), Action::Found(255)));
}

#[test]
fn other_chip_sends_the_scan_to_the_next_candidate() {
    match next_action(11, answered(b"raspberrypi-exp-gpio", 8)) {
        Action::Probe { index, path, request } => {
            assert_eq!(index, 12);
            assert_eq!(path, "/dev/gpiochip12");
            assert_eq!(request, 0x8044_B401);
        }
        other => panic!("unexpected action: {:?}", other),
    }
    assert!(matches!(
        next_action(254, answered(b"other-chip", 8)),
        Action::Probe { index: 255, .. }
    ));
}

#[test]
fn last_candidate_passed_over_ends_the_scan_with_no_such_file() {
    match next_action(255, answered(b"other-chip", 8)) {
        Action::Fail(Error::Io(inner)) => {
            assert_eq!(inner.raw_os_error(), Some(libc::ENOENT));
            assert_eq!(inner.kind(), io::ErrorKind::NotFound);
        }
        other => panic!("unexpected action: {:?}", other),
    }
}

#[test]
fn discovery_stops_at_the_first_match() {
    let asked: RefCell<Vec<String>> = RefCell::new(Vec::new());
    let result = find_gpiochip(|path: String, request: u32| {
        assert_eq!(request, REQ_GET_CHIP_INFO);
        let index = index_of(&path);
        asked.borrow_mut().push(path);
        if index == 3 || index == 5 {
            answered(b"pinctrl-bcm2835", 54)
        } else {
            answered(b"other-chip", 8)
        }
    });
    assert!(matches!(result, Ok(3)));
    assert_eq!(
        *asked.borrow(),
        vec!["/dev/gpiochip0", "/dev/gpiochip1", "/dev/gpiochip2", "/dev/gpiochip3"]
    );
}

#[test]
fn discovery_stops_at_the_first_denial() {
    let asked: RefCell<Vec<String>> = RefCell::new(Vec::new());
    let result = find_gpiochip(|path: String, _request: u32| {
        let index = index_of(&path);
        asked.borrow_mut().push(path);
        if index == 2 {
            Probe::OpenFailed(io::Error::from_raw_os_error(libc::EACCES))
        } else if index == 4 {
            answered(b"pinctrl-bcm2835", 54)
        } else {
            answered(b"other-chip", 8)
        }
    });
    match result {
        Err(Error::PermissionDenied(path)) => assert_eq!(path, "/dev/gpiochip2"),
        other => panic!("unexpected result: {:?}", other),
    }
    assert_eq!(*asked.borrow(), vec!["/dev/gpiochip0", "/dev/gpiochip1", "/dev/gpiochip2"]);
}

#[test]
fn discovery_stops_at_the_first_open_failure() {
    let asked: RefCell<Vec<String>> = RefCell::new(Vec::new());
    let result = find_gpiochip(|path: String, _request: u32| {
        asked.borrow_mut().push(path);
        Probe::OpenFailed(io::Error::from_raw_os_error(libc::ENOENT))
    });
    match result {
        Err(Error::Io(inner)) => assert_eq!(inner.raw_os_error(), Some(libc::ENOENT)),
        other => panic!("unexpected result: {:?}", other),
    }
    assert_eq!(*asked.borrow(), vec!["/dev/gpiochip0"]);
}

#[test]
fn discovery_stops_at_a_failed_request() {
    let asked: RefCell<Vec<String>> = RefCell::new(Vec::new());
    let result = find_gpiochip(|path: String, _request: u32| {
        let index = index_of(&path);
        asked.borrow_mut().push(path);
        if index == 1 {
            Probe::Queried { retval: -1, errno: libc::ENODEV, info: ChipInfo::zeroed() }
        } else {
            answered(b"other-chip", 8)
        }
    });
    match result {
        Err(Error::Io(inner)) => assert_eq!(inner.raw_os_error(), Some(libc::ENODEV)),
        other => panic!("unexpected result: {:?}", other),
    }
    assert_eq!(asked.borrow().len(), 2);
}

#[test]
fn discovery_without_a_match_visits_every_candidate() {
    let asked: RefCell<Vec<String>> = RefCell::new(Vec::new());
    let result = find_gpiochip(|path: String, _request: u32| {
        asked.borrow_mut().push(path);
        answered(b"other-chip", 8)
    });
    match result {
        Err(Error::Io(inner)) => {
            assert_eq!(inner.raw_os_error(), Some(libc::ENOENT));
            assert_eq!(inner.kind(), io::ErrorKind::NotFound);
        }
        other => panic!("unexpected result: {:?}", other),
    }
    let asked = asked.borrow();
    assert_eq!(asked.len(), 256);
    for (index, path) in asked.iter().enumerate() {
        assert_eq!(*path, format!("/dev/gpiochip{}", index));
    }
}

#[test]
fn discovery_finds_the_last_candidate() {
    let count: RefCell<usize> = RefCell::new(0);
    let result = find_gpiochip(|path: String, _request: u32| {
        *count.borrow_mut() += 1;
        if index_of(&path) == 255 {
            answered(b"pinctrl-rp1", 54)
        } else {
            answered(b"other-chip", 8)
        }
    });
    assert!(matches!(result, Ok(255)));
    assert_eq!(*count.borrow(), 256);
}

#[test]
fn discovery_end_to_end() {
    let mut labelled = [0u8; LABEL_BUFSIZE];
    labelled[..15].copy_from_slice(b"pinctrl-bcm2835");
    let nodes = vec![chip(b"other-chip", 8), ChipInfo { lines: 54, label: labelled, ..ChipInfo::zeroed() }];
    let opened: RefCell<Vec<usize>> = RefCell::new(Vec::new());
    let result = find_gpiochip(|path: String, _request: u32| {
        let index = index_of(&path);
        opened.borrow_mut().push(index);
        match nodes.get(index) {
            Some(info) => Probe::Queried { retval: 0, errno: 0, info: *info },
            None => Probe::OpenFailed(io::Error::from_raw_os_error(libc::ENOENT)),
        }
    });
    let found = match result {
        Ok(index) => index,
        Err(error) => panic!("unexpected error: {:?}", error),
    };
    assert_eq!(found, 1);
    assert_eq!(*opened.borrow(), vec![0, 1]);
    let info = ChipInfo::new(0, 0, nodes[usize::from(found)]).unwrap();
    assert_eq!(info.lines, 54);
    assert_eq!(info.label(), "pinctrl-bcm2835");
}

#[test]
fn discovery_matches_a_label_with_bytes_behind_the_name() {
    let opened: RefCell<Vec<usize>> = RefCell::new(Vec::new());
    let result = find_gpiochip(|path: String, _request: u32| {
        let index = index_of(&path);
        opened.borrow_mut().push(index);
        match index {
            0 => answered(b"other-chip", 8),
            1 => answered(b"pinctrl-bcm2835-aux", 54),
            _ => Probe::OpenFailed(io::Error::from_raw_os_error(libc::ENOENT)),
        }
    });
    assert!(matches!(result, Ok(1)));
    assert_eq!(*opened.borrow(), vec![0, 1]);
}

#[test]
fn label_with_bytes_behind_the_name_ends_the_scan_with_success() {
    assert!(matches!(next_action(1, answered(b"pinctrl-bcm2835-aux", 54)), Action::Found(1)));
    assert!(matches!(next_action(9, answered(b"pinctrl-rp1-gpio", 54)), Action::Found(9)));
    let full = [b'p'; LABEL_BUFSIZE];
    let mut label = full;
    label[..15].copy_from_slice(b"pinctrl-bcm2711");
    let info = ChipInfo { label, ..ChipInfo::zeroed() };
    let outcome = Probe::Queried { retval: 0, errno: 0, info };
    assert!(matches!(next_action(0, outcome), Action::Found(0)));
}

#[test]
fn driving_the_scan_by_hand() {
    let mut action = first_probe();
    let mut visited = Vec::new();
    let found = loop {
        match action {
            Action::Probe { index, path, request } => {
                assert_eq!(path, format!("/dev/gpiochip{}", index));
                assert_eq!(request, REQ_GET_CHIP_INFO);
                visited.push(index);
                let outcome =
                    if index == 6 { answered(b"pinctrl-bcm2711", 58) } else { answered(b"", 0) };
                action = next_action(index, outcome);
            }
            Action::Found(index) => break index,
            Action::Fail(error) => panic!("unexpected error: {:?}", error),
        }
    };
    assert_eq!(found, 6);
    assert_eq!(visited, vec![0, 1, 2, 3, 4, 5, 6]);
}
