use serde_json::Value;
use turbod::server::{DaemonRequest, DaemonResponse, DaemonServer};

#[test]
fn the_printed_status_object_reparses_to_the_servers_record() {
    let mut server = DaemonServer::new(
        1000,
        "/data/logs/repo-turbo.log".to_string(),
        "/repo/.turbo/turbod.pid".to_string(),
        "/repo/.turbo/turbod.sock".to_string(),
    );
    let record = match server.dispatch(&DaemonRequest::Status { json: true }, 750) {
        DaemonResponse::Status(record) => record,
        DaemonResponse::Ack => panic!("status must answer with the record"),
    };

    // The JSON object printed for the record, built field by field as
    // the presentation layer does.
    let mut object = serde_json::Map::new();
    object.insert("uptime_ms".to_string(), Value::from(record.uptime_ms));
    object.insert("log_file".to_string(), Value::from(record.log_file.as_str()));
    object.insert("pid_file".to_string(), Value::from(record.pid_file.as_str()));
    object.insert("sock_file".to_string(), Value::from(record.sock_file.as_str()));
    let printed = serde_json::to_string_pretty(&Value::Object(object)).unwrap();

    // Re-parsing the printed text yields exactly the record's values.
    let parsed: Value = serde_json::from_str(&printed).unwrap();
    assert_eq!(parsed["uptime_ms"].as_u64().unwrap(), record.uptime_ms);
    assert_eq!(parsed["log_file"].as_str().unwrap(), record.log_file);
    assert_eq!(parsed["pid_file"].as_str().unwrap(), record.pid_file);
    assert_eq!(parsed["sock_file"].as_str().unwrap(), record.sock_file);
}
