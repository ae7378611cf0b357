use httpsys_server::plot::plot_ranges;
use httpsys_server::plot::size_unit;
use httpsys_server::plot::Measurement;
use httpsys_server::plot::PlotRanges;
use httpsys_server::plot::SizeUnit;
use httpsys_server::plot::KB;
use httpsys_server::plot::MB;
use httpsys_server::util::generate_random_payload;
use httpsys_server::util::measurement_stops;
use httpsys_server::util::statistics_are_due;
use httpsys_server::util::MAX_ITERATIONS;
use httpsys_server::util::MIN_ITERATIONS;
use httpsys_server::util::WARM_UP_RUNS;
use httpsys_server::util::payload_sizes;
use httpsys_server::util::ServerExe;
use httpsys_server::util::INITIAL_PAYLOAD_SIZE;
use httpsys_server::util::PORT_RANGE_END;
use httpsys_server::util::PORT_RANGE_START;
use httpsys_server::util::TARGET_PAYLOAD_SIZE;

fn point(latency: u64, payload_size: u64) -> Measurement<'static> {
    Measurement { name: "Request", latency, payload_size }
}

#[test]
fn payload_has_requested_length() {
    assert_eq!(generate_random_payload(0).len(), 0);
    assert_eq!(generate_random_payload(1).len(), 1);
    assert_eq!(generate_random_payload(1024).len(), 1024);
}

#[test]
fn payload_is_alphanumeric() {
    let payload = generate_random_payload(4096);
    assert_eq!(payload.chars().count(), 4096);
    assert!(payload.chars().all(|c| c.is_ascii_alphanumeric()));
}

#[test]
fn payloads_differ() {
    assert_ne!(generate_random_payload(64), generate_random_payload(64));
}

#[test]
fn port_is_within_range() {
    assert_eq!(PORT_RANGE_START, 3333);
    assert_eq!(PORT_RANGE_END, 9999);
    let mut seen = std::collections::BTreeSet::new();
    for _ in 0..200 {
        let exe = ServerExe::on_random_port();
        assert!(exe.port >= 3333);
        assert!(exe.port < 9999);
        seen.insert(exe.port);
    }
    assert!(seen.len() > 1);
}

#[test]
fn request_url_has_port_and_path() {
    let exe = ServerExe { port: 4567 };
    assert_eq!(exe.format_req_url("/test/"), Some("http://localhost:4567/test/".to_string()));
    assert_eq!(exe.format_req_url("kill"), Some("http://localhost:4567/kill".to_string()));
    assert_eq!(exe.format_req_url(""), Some("http://localhost:4567/".to_string()));
}

#[test]
fn request_url_omits_default_port() {
    let exe = ServerExe { port: 80 };
    assert_eq!(exe.format_req_url("/test/"), Some("http://localhost/test/".to_string()));
}

#[test]
fn request_url_escapes_the_path() {
    let exe = ServerExe { port: 3333 };
    assert_eq!(exe.format_req_url("/a b"), Some("http://localhost:3333/a%20b".to_string()));
}

#[test]
fn request_url_agrees_with_url_type() {
    let exe = ServerExe { port: 9998 };
    let mut url = reqwest::Url::parse("http://localhost/").unwrap();
    url.set_port(Some(9998)).unwrap();
    url.set_path("/test/");
    assert_eq!(exe.format_req_url("/test/"), Some(url.as_str().to_string()));
}

#[test]
fn payload_schedule_grows_by_a_quarter() {
    let sizes = payload_sizes();
    assert_eq!(INITIAL_PAYLOAD_SIZE, 1024);
    assert_eq!(TARGET_PAYLOAD_SIZE, 8 * 1024 * 1024);
    assert_eq!(sizes[0], 1024);
    assert_eq!(sizes[1], 1280);
    assert_eq!(sizes[2], 1600);
    assert_eq!(sizes[3], 2000);
    for pair in sizes.windows(2) {
        assert_eq!(pair[1], pair[0] + pair[0] / 4);
    }
    let last = *sizes.last().unwrap();
    assert!(last <= 8 * 1024 * 1024);
    assert!(last + last / 4 > 8 * 1024 * 1024);
    assert_eq!(sizes.len(), 41);
}

#[test]
fn size_units() {
    assert_eq!(KB, 1024);
    assert_eq!(MB, 1024 * 1024);
    assert_eq!(size_unit(0), SizeUnit::Bytes);
    assert_eq!(size_unit(1023), SizeUnit::Bytes);
    assert_eq!(size_unit(1024), SizeUnit::Kilobytes);
    assert_eq!(size_unit(1024 * 1024 - 1), SizeUnit::Kilobytes);
    assert_eq!(size_unit(1024 * 1024), SizeUnit::Megabytes);
    assert_eq!(size_unit(u64::MAX), SizeUnit::Megabytes);
}

#[test]
fn plot_ranges_of_nothing() {
    assert_eq!(plot_ranges(&Vec::new()), None);
}

#[test]
fn plot_ranges_of_one_point() {
    let records = vec![point(500, 1024)];
    assert_eq!(
        plot_ranges(&records),
        Some(PlotRanges { x_start: 1, x_end: 1024, y_start: 500, y_end: 500 })
    );
}

#[test]
fn plot_ranges_pad_by_a_tenth() {
    let records = vec![point(2000, 1024), point(1000, 1280), point(3000, 4096), point(1500, 2048)];
    assert_eq!(
        plot_ranges(&records),
        Some(PlotRanges { x_start: 1, x_end: 4096, y_start: 800, y_end: 3200 })
    );
}

#[test]
fn plot_ranges_padding_is_at_most_the_minimum() {
    let records = vec![point(5, 10), point(1005, 20)];
    assert_eq!(
        plot_ranges(&records),
        Some(PlotRanges { x_start: 1, x_end: 20, y_start: 0, y_end: 1010 })
    );
}

#[test]
fn plot_ranges_padding_rounds_down() {
    let records = vec![point(100, 10), point(119, 20)];
    assert_eq!(
        plot_ranges(&records),
        Some(PlotRanges { x_start: 1, x_end: 20, y_start: 99, y_end: 120 })
    );
}

#[test]
fn plot_ranges_beyond_64_bits() {
    let records = vec![point(u64::MAX - 100, 1), point(u64::MAX, 2)];
    assert_eq!(plot_ranges(&records), None);
    let records = vec![point(u64::MAX, 1)];
    assert_eq!(
        plot_ranges(&records),
        Some(PlotRanges { x_start: 1, x_end: 1, y_start: u64::MAX, y_end: u64::MAX })
    );
}

#[test]
fn measurement_constants() {
    assert_eq!(WARM_UP_RUNS, 5);
    assert_eq!(MIN_ITERATIONS, 10);
    assert_eq!(MAX_ITERATIONS, 200);
}

#[test]
fn statistics_are_due_from_the_tenth_index() {
    assert!(!statistics_are_due(0));
    assert!(!statistics_are_due(9));
    assert!(statistics_are_due(10));
    assert!(statistics_are_due(199));
}

#[test]
fn measurement_stops_only_when_due_retained_and_stable() {
    assert!(measurement_stops(10, 11, true));
    assert!(measurement_stops(199, 200, true));
    assert!(!measurement_stops(9, 11, true));
    assert!(!measurement_stops(10, 10, true));
    assert!(!measurement_stops(10, 11, false));
    assert!(!measurement_stops(0, 0, false));
}

#[test]
fn request_url_keeps_a_long_path() {
    let exe = ServerExe { port: 4567 };
    let path = format!("/{}", "a".repeat(100_000));
    let url = exe.format_req_url(&path).unwrap();
    assert_eq!(url, format!("http://localhost:4567{}", path));
}
