use telemetry_chart::chart::{Chart, Command, Msg, Props, State, CAPACITY};
use telemetry_chart::record::{Payload, TempField, SCHEMA};

fn reading(schema: &str, device: &str, time: &str, temp: f64) -> Msg<f64> {
    Msg::Data(Ok(Payload {
        schema: Some(schema.to_string()),
        device: Some(device.to_string()),
        time: Some(time.to_string()),
        temp: TempField::Number(temp),
    }))
}

fn connected() -> Chart<f64> {
    let mut c: Chart<f64> = Chart::create(Props { url: "ws://localhost/events".to_string() });
    let u = c.update(Msg::Connect);
    assert!(matches!(u.command, Command::Open(ref url) if url == "ws://localhost/events"));
    assert_eq!(c.state, State::Connecting);
    c.update(Msg::Opened);
    assert_eq!(c.state, State::Connected);
    c
}

#[test]
fn connect_then_open() {
    let c = connected();
    assert!(c.socket_open);
    assert_eq!(c.total_received, 0);
}

#[test]
fn accepted_reading_is_drawn() {
    let mut c = connected();
    let u = c.update(reading(SCHEMA, "a", "2021-01-01T00:00:00Z", 20.0));
    assert!(u.render);
    match u.command {
        Command::Draw(d) => {
            assert_eq!(d.series.len(), 1);
            assert_eq!(d.series[0].label, "a");
            assert_eq!(d.series[0].points[0].1, 20.0);
            let (first, last) = d.time_extent.unwrap();
            assert_eq!(first.secs, 1609459200);
            assert_eq!(last.secs, 1609459200);
        }
        _ => panic!("expected a dataset to draw"),
    }
    assert_eq!(c.total_received, 1);
}

#[test]
fn other_schema_leaves_buffers_unchanged() {
    let mut c = connected();
    c.update(reading(SCHEMA, "a", "2021-01-01T00:00:00Z", 20.0));
    let u = c.update(reading("urn:other", "a", "2021-01-01T00:00:01Z", 30.0));
    assert!(matches!(u.command, Command::Nothing));
    assert_eq!(c.total_received, 1);
    let d = c.store.project();
    assert_eq!(d.series.len(), 1);
    assert_eq!(d.series[0].points.len(), 1);
    let u = c.update(reading("urn:other", "b", "2021-01-01T00:00:01Z", 30.0));
    assert!(matches!(u.command, Command::Nothing));
    assert_eq!(c.store.project().series.len(), 1);
}

#[test]
fn rejected_value_still_counts_the_message() {
    let mut c = connected();
    let u = c.update(Msg::Data(Ok(Payload {
        schema: Some(SCHEMA.to_string()),
        device: Some("a".to_string()),
        time: Some("2021-01-01T00:00:00Z".to_string()),
        temp: TempField::Other,
    })));
    assert!(matches!(u.command, Command::Nothing));
    assert_eq!(c.total_received, 1);
    assert!(c.store.is_empty());
}

#[test]
fn session_caps_each_device() {
    let mut c = connected();
    for i in 0..(CAPACITY + 20) {
        let time = format!("2021-01-01T00:{:02}:{:02}Z", i / 60, i % 60);
        c.update(reading(SCHEMA, "a", &time, i as f64));
    }
    let d = c.store.project();
    assert_eq!(d.series[0].points.len(), CAPACITY);
    assert_eq!(d.series[0].points[0].1, 20.0);
    assert_eq!(d.series[0].points[CAPACITY - 1].1, (CAPACITY + 19) as f64);
}

#[test]
fn delivery_failure_changes_nothing() {
    let mut c = connected();
    let u = c.update(Msg::Data(Err("broken pipe".to_string())));
    assert!(u.render);
    assert!(matches!(u.command, Command::Nothing));
    assert_eq!(c.state, State::Connected);
}

#[test]
fn reconnect_resets_everything() {
    let mut c = connected();
    c.update(reading(SCHEMA, "a", "2021-01-01T00:00:00Z", 20.0));
    let u = c.update(Msg::Closed);
    assert!(matches!(u.command, Command::Open(_)));
    assert_eq!(c.state, State::Connecting);
    assert!(!c.socket_open);
    assert_eq!(c.total_received, 0);
    assert!(c.store.is_empty());
    let u = c.update(Msg::UpdateGraph);
    assert!(!u.render);
    assert!(matches!(u.command, Command::Nothing));
}

#[test]
fn disconnect_closes() {
    let mut c = connected();
    let u = c.update(Msg::Disconnect);
    assert!(matches!(u.command, Command::Close));
    assert_eq!(c.state, State::Disconnected);
    let u = c.update(Msg::Closed);
    assert!(matches!(u.command, Command::Nothing));
    assert_eq!(c.state, State::Disconnected);
}

#[test]
fn failed_open_disconnects() {
    let mut c: Chart<f64> = Chart::create(Props { url: "ws://nowhere".to_string() });
    c.update(Msg::Connect);
    let u = c.update(Msg::OpenFailed);
    assert!(matches!(u.command, Command::Nothing));
    assert_eq!(c.state, State::Disconnected);
}

#[test]
fn late_open_is_closed_again() {
    let mut c: Chart<f64> = Chart::create(Props { url: "ws://late".to_string() });
    c.update(Msg::Connect);
    c.update(Msg::Disconnect);
    let u = c.update(Msg::Opened);
    assert!(matches!(u.command, Command::Close));
    assert_eq!(c.state, State::Disconnected);
}

#[test]
fn url_update_and_ignore() {
    let mut c: Chart<f64> = Chart::create(Props { url: "ws://a".to_string() });
    let u = c.update(Msg::UpdateUrl("ws://b".to_string()));
    assert!(u.render);
    assert_eq!(c.props.url, "ws://b");
    let u = c.update(Msg::Ignore);
    assert!(!u.render);
    let u = c.update(Msg::Connect);
    assert!(matches!(u.command, Command::Open(ref url) if url == "ws://b"));
}

#[test]
fn update_graph_draws_outer_extent() {
    let mut c = connected();
    c.update(reading(SCHEMA, "a", "2021-01-01T00:00:00Z", 1.0));
    c.update(reading(SCHEMA, "b", "2021-01-01T00:00:10Z", 2.0));
    c.update(reading(SCHEMA, "a", "2021-01-01T00:00:30Z", 3.0));
    c.update(reading(SCHEMA, "b", "2021-01-01T00:00:50Z", 4.0));
    let u = c.update(Msg::UpdateGraph);
    assert!(u.render);
    match u.command {
        Command::Draw(d) => {
            let (first, last) = d.time_extent.unwrap();
            assert_eq!(first.secs, 1609459200);
            assert_eq!(last.secs, 1609459250);
            assert_eq!(d.series[1].color, 1);
        }
        _ => panic!("expected a dataset to draw"),
    }
}
