use xenstore::error::XsError;
use xenstore::smol::{XsSmol, XsWatchPoll, XsWindowsWatch};
use xenstore::tokio::{XsOpening, XsTokio};

/// A device with a single node.
#[derive(Debug)]
struct Device(u32);

impl Device {
    fn directory(&self, path: &str) -> Result<Vec<Box<str>>, String> {
        Ok(vec![format!("{path}/{}", self.0).into()])
    }

    fn read(&self, path: &str) -> Result<Box<str>, String> {
        if path == "/a" {
            Ok("value".into())
        } else {
            Err(format!("no {path}"))
        }
    }

    fn write(&self, path: &str, data: &str) -> Result<(), String> {
        Err(format!("{path} is not {data}"))
    }

    fn rm(&self, path: &str) -> Result<(), String> {
        if path == "/a" {
            Ok(())
        } else {
            Err(format!("no {path}"))
        }
    }
}

fn smol() -> XsSmol<'static, Device> {
    XsSmol::new(Ok::<Device, String>(Device(1))).unwrap()
}

#[test]
fn smol_answers_as_its_device() {
    let xs = smol();
    assert_eq!(xs.directory("/a", Device::directory), Ok(vec!["/a/1".into()]));
    assert_eq!(xs.read("/a", Device::read), Ok("value".into()));
    assert_eq!(xs.read("/b", Device::read), Err("no /b".to_string()));
    assert_eq!(xs.write("/a", "x", Device::write), Err("/a is not x".to_string()));
    assert_eq!(xs.rm("/a", Device::rm), Ok(()));
    assert_eq!(xs.rm("/b", Device::rm), Err("no /b".to_string()));
}

#[test]
fn smol_asks_its_device_once() {
    let xs = smol();
    let mut asked: Vec<String> = Vec::new();
    let r = xs.write("/a", "x", |device: &Device, path: &str, data: &str| {
        asked.push(format!("{} {path} {data}", device.0));
        Ok::<(), ()>(())
    });
    assert_eq!(r, Ok(()));
    assert_eq!(asked, vec!["1 /a x".to_string()]);
}

#[test]
fn smol_needs_a_device() {
    let failed: Result<XsSmol<'static, Device>, &str> = XsSmol::new(Err("closed"));
    assert_eq!(failed.err(), Some("closed"));
}

#[test]
fn clones_share_the_device() {
    let xs = smol();
    let other = xs.clone();
    assert!(std::ptr::eq(xs.device(), other.device()));
}

#[test]
fn permissions_are_not_supported() {
    let xs = smol();
    assert_eq!(xs.get_perms::<u8>("/a"), Err(XsError::Unsupported));
    assert_eq!(xs.set_perms("/a", &[1u8]), Err(XsError::Unsupported));
}

#[test]
fn watch_is_made_of_its_parts() {
    let watch = smol()
        .watch(
            "/a",
            |device: &Device| Ok::<Device, String>(Device(device.0 + 1)),
            |device: &Device, path: &str| Ok((format!("{path} on {}", device.0), 7u8)),
            |event: String| Ok(event + "!"),
        )
        .unwrap();
    assert_eq!(watch.device.0, 2);
    assert_eq!(watch.waitable, "/a on 1!");
    assert_eq!(watch.context, 7);
    assert_eq!(&*watch.path, "/a");
}

#[test]
fn first_failure_ends_a_watch() {
    let fail = |clone: bool, make: bool, wait: bool| {
        smol()
            .watch(
                "/a",
                |_: &Device| if clone { Ok(Device(2)) } else { Err("clone") },
                |_: &Device, _: &str| if make { Ok(((), ())) } else { Err("make") },
                |_: ()| if wait { Ok(()) } else { Err("wait") },
            )
            .err()
    };
    assert_eq!(fail(false, false, false), Some("clone"));
    assert_eq!(fail(true, false, false), Some("make"));
    assert_eq!(fail(true, true, false), Some("wait"));
    assert_eq!(fail(true, true, true), None);
}

#[test]
fn watch_reports_its_path_and_resets_the_event() {
    let watch = XsWindowsWatch { device: (), waitable: 3u8, context: (), path: "/a".into() };
    let mut reset = None;
    let polled = watch.poll_next(Some(Ok::<(), ()>(())), |waitable: &u8| reset = Some(*waitable));
    assert_eq!(polled, XsWatchPoll::Changed("/a".into()));
    assert_eq!(reset, Some(3));
}

#[test]
fn idle_or_failed_watch_resets_nothing() {
    let watch = XsWindowsWatch { device: (), waitable: 3u8, context: (), path: "/a".into() };
    let polled = watch.poll_next(None::<Result<(), ()>>, |_: &u8| panic!("reset"));
    assert_eq!(polled, XsWatchPoll::Pending);
    let polled = watch.poll_next(Some(Err::<(), ()>(())), |_: &u8| panic!("reset"));
    assert_eq!(polled, XsWatchPoll::Ended);
}

#[test]
fn watch_is_destroyed_by_its_context() {
    let watch = XsWindowsWatch { device: 1u8, waitable: (), context: 7u8, path: "/a".into() };
    let mut destroyed = None;
    let result = watch.destroy(|device: &u8, context: u8| {
        destroyed = Some((*device, context));
        Err::<(), &str>("gone")
    });
    assert_eq!(result, Err("gone"));
    assert_eq!(destroyed, Some((1, 7)));
}

#[test]
fn socket_comes_first() {
    let opening = XsOpening::start(None);
    assert_eq!(opening, XsOpening::Connect("/run/xenstored/socket".to_string()));
    assert_eq!(opening.next(true), XsOpening::Launch);
}

#[test]
fn environment_names_the_socket() {
    let opening = XsOpening::start(Some("/tmp/xs".to_string()));
    assert_eq!(opening, XsOpening::Connect("/tmp/xs".to_string()));
}

#[test]
fn device_stands_in_for_the_socket() {
    let opening = XsOpening::start(None).next(false);
    assert_eq!(opening, XsOpening::OpenDevice);
    assert_eq!(opening.next(true), XsOpening::Launch);
    assert_eq!(opening.next(false), XsOpening::Fail);
    assert_eq!(opening.next(false).next(true), XsOpening::Fail);
    assert_eq!(opening.next(true).next(false), XsOpening::Launch);
}

#[test]
fn tokio_interface_holds_its_client() {
    let xs = XsTokio::new(Ok::<String, ()>("client".to_string())).unwrap();
    assert_eq!(xs.client(), "client");
    assert_eq!(xs.clone().client(), "client");
    assert_eq!(XsTokio::<String>::new(Err("dead")).err(), Some("dead"));
}
