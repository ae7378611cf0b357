use httpsys_server::listener::check_status;
use httpsys_server::listener::BindingInfo;
use httpsys_server::listener::HttpInitializer;
use httpsys_server::listener::ServerSession;
use httpsys_server::listener::UrlGroup;
use httpsys_server::listener::BINDING_PRESENT;
use httpsys_server::listener::HTTP_API_VERSION_MAJOR;
use httpsys_server::listener::HTTP_API_VERSION_MINOR;
use httpsys_server::listener::HTTP_INITIALIZE_FLAGS;
use httpsys_server::listener::ROUTE_ID_BASE;
use httpsys_server::queue::RequestQueue;
use httpsys_server::queue::CLOSED_HANDLE;
use httpsys_server::queue::NEXT_AVAILABLE_REQUEST;
use httpsys_server::status::IoError;

fn group() -> UrlGroup {
    let session = ServerSession::new(0, 7).unwrap();
    UrlGroup::new(&session, 0, 11).unwrap()
}

#[test]
fn constants_of_the_kernel_interface() {
    assert_eq!(HTTP_API_VERSION_MAJOR, 2);
    assert_eq!(HTTP_API_VERSION_MINOR, 0);
    assert_eq!(
        HTTP_INITIALIZE_FLAGS,
        (windows::Win32::Networking::HttpServer::HTTP_INITIALIZE_SERVER
            | windows::Win32::Networking::HttpServer::HTTP_INITIALIZE_CONFIG)
            .0
    );
    assert_eq!(ROUTE_ID_BASE, 1000);
    assert_eq!(BINDING_PRESENT, 1);
    assert_eq!(NEXT_AVAILABLE_REQUEST, 0);
    assert_eq!(CLOSED_HANDLE, 0);
}

#[test]
fn status_zero_is_success() {
    assert_eq!(check_status(0), Ok(()));
}

#[test]
fn other_status_is_error_with_code() {
    assert_eq!(check_status(5), Err(IoError { code: 5 }));
    assert_eq!(check_status(u32::MAX), Err(IoError { code: u32::MAX }));
}

#[test]
fn initializer_runs_after_success() {
    let init = HttpInitializer::default(0).ok().unwrap();
    assert!(init.is_running());
}

#[test]
fn initializer_fails_with_status() {
    assert_eq!(HttpInitializer::default(87).err(), Some(IoError { code: 87 }));
}

#[test]
fn initializer_terminates_once() {
    let mut init = HttpInitializer::default(0).ok().unwrap();
    assert!(init.terminate());
    assert!(!init.is_running());
    assert!(!init.terminate());
    assert!(!init.is_running());
}

#[test]
fn session_keeps_its_id() {
    let session = ServerSession::new(0, 0xFF00_0000_0000_0001).ok().unwrap();
    assert_eq!(session.id(), 0xFF00_0000_0000_0001);
}

#[test]
fn session_fails_with_status() {
    assert_eq!(ServerSession::new(8, 3).err(), Some(IoError { code: 8 }));
}

#[test]
fn group_starts_empty_and_unbound() {
    let group = group();
    assert_eq!(group.id(), 11);
    assert_eq!(group.session_id(), 7);
    assert_eq!(group.route_count(), 0);
    assert_eq!(group.binding(), None);
    assert_eq!(group.prefix_of(1000), None);
}

#[test]
fn group_fails_with_status() {
    let session = ServerSession::new(0, 7).ok().unwrap();
    assert_eq!(UrlGroup::new(&session, 1450, 11).err(), Some(IoError { code: 1450 }));
}

#[test]
fn route_ids_start_at_base_and_increase_by_one() {
    let mut group = group();
    assert_eq!(group.add_url("http://localhost:8080/test".to_string()), Some(1000));
    assert_eq!(group.add_url("http://localhost:8080/kill".to_string()), Some(1001));
    assert_eq!(group.add_url("http://localhost:8080/third".to_string()), Some(1002));
    assert_eq!(group.route_count(), 3);
}

#[test]
fn nth_route_has_id_base_plus_n_minus_one() {
    let mut group = group();
    for n in 1..=50u64 {
        let id = group.add_url(format!("http://localhost/{}", n)).unwrap();
        assert_eq!(id, 1000 + n - 1);
        assert_ne!(id, 0);
    }
}

#[test]
fn prefix_of_finds_registered_routes_only() {
    let mut group = group();
    group.add_url("http://localhost:8080/test".to_string());
    group.add_url("http://localhost:8080/kill".to_string());
    assert_eq!(group.prefix_of(1000), Some("http://localhost:8080/test"));
    assert_eq!(group.prefix_of(1001), Some("http://localhost:8080/kill"));
    assert_eq!(group.prefix_of(1002), None);
    assert_eq!(group.prefix_of(999), None);
    assert_eq!(group.prefix_of(0), None);
    assert_eq!(group.prefix_of(u64::MAX), None);
}

#[test]
fn same_prefix_twice_gets_two_ids() {
    let mut group = group();
    assert_eq!(group.add_url("http://localhost/a".to_string()), Some(1000));
    assert_eq!(group.add_url("http://localhost/a".to_string()), Some(1001));
}

#[test]
fn binding_is_recorded_on_success() {
    let mut group = group();
    let info = BindingInfo { flags: 1, request_queue_handle: 0x44 };
    assert_eq!(group.set_binding_info(&info, 0), Ok(()));
    assert_eq!(group.binding(), Some(0x44));
}

#[test]
fn binding_failure_leaves_group_unbound() {
    let mut group = group();
    let info = BindingInfo { flags: 1, request_queue_handle: 0x44 };
    assert_eq!(group.set_binding_info(&info, 87), Err(IoError { code: 87 }));
    assert_eq!(group.binding(), None);
}

#[test]
fn queue_keeps_its_handle() {
    let queue = RequestQueue::new(0, 0x1234).ok().unwrap();
    assert_eq!(queue.handle(), 0x1234);
    assert!(queue.is_open());
}

#[test]
fn queue_fails_with_status() {
    assert_eq!(RequestQueue::new(5, 0x1234).err(), Some(IoError { code: 5 }));
    assert_eq!(RequestQueue::new(5, 0).err(), Some(IoError { code: 5 }));
}

#[test]
fn queue_without_usable_handle_is_an_error() {
    assert_eq!(RequestQueue::new(0, 0).err(), Some(IoError { code: 6 }));
    assert_eq!(RequestQueue::new(0, -1).err(), Some(IoError { code: 6 }));
}

#[test]
fn binding_info_names_the_queue() {
    let queue = RequestQueue::new(0, 0x1234).ok().unwrap();
    assert_eq!(queue.binding_info(), BindingInfo { flags: 1, request_queue_handle: 0x1234 });
}

#[test]
fn bind_url_group_records_the_queue_in_the_group() {
    let queue = RequestQueue::new(0, 0x1234).ok().unwrap();
    let mut group = group();
    assert_eq!(queue.bind_url_group(&mut group, 0), Ok(()));
    assert_eq!(group.binding(), Some(0x1234));
}

#[test]
fn bind_url_group_fails_with_status() {
    let queue = RequestQueue::new(0, 0x1234).ok().unwrap();
    let mut group = group();
    assert_eq!(queue.bind_url_group(&mut group, 1168), Err(IoError { code: 1168 }));
    assert_eq!(group.binding(), None);
}

#[test]
fn close_releases_the_handle_once() {
    let mut queue = RequestQueue::new(0, 0x1234).ok().unwrap();
    assert_eq!(queue.close(), Some(0x1234));
    assert!(!queue.is_open());
    assert_eq!(queue.handle(), 0);
}

#[test]
fn close_twice_is_a_no_op() {
    let mut queue = RequestQueue::new(0, 0x1234).ok().unwrap();
    assert_eq!(queue.close(), Some(0x1234));
    assert_eq!(queue.close(), None);
    assert_eq!(queue.close(), None);
    assert_eq!(queue.handle(), 0);
    assert!(!queue.is_open());
}
