use eutopic_api::config::{Config, ConfigVars};
use eutopic_api::queue::{
    delete_account_request_queue_settings, delete_request_delay_ms, delete_request_publication,
    new_user_publication, new_user_queue_settings, DeleteAccountRequest, NewUser, QueueRoute,
};

fn config() -> Config {
    Config::new(ConfigVars {
        port: "1".to_string(),
        postgres_uri: "pg".to_string(),
        firebase_api_key: "fk".to_string(),
        cors_origin: "*".to_string(),
        rabbitmq_uri: "amqp://mq".to_string(),
        exchange_name: "new_user".to_string(),
        queue_name: "new_user_q".to_string(),
        routing_key: "new_user.new".to_string(),
        retry_ttl: "60000".to_string(),
        enc_key: "00112233445566778899aabbccddeeff00112233445566778899aabbccddeeff".to_string(),
        account_deletion_delay_days: "14".to_string(),
    })
}

#[test]
fn messages_are_length_prefixed_utf8() {
    assert_eq!(NewUser { sol_address: "abc".to_string() }.encode(), vec![3, 0, 0, 0, 97, 98, 99]);
    assert_eq!(DeleteAccountRequest { uid: "é".to_string() }.encode(), vec![2, 0, 0, 0, 0xc3, 0xa9]);
    assert_eq!(DeleteAccountRequest { uid: String::new() }.encode(), vec![0, 0, 0, 0]);
    let long = "x".repeat(300);
    let bytes = NewUser { sol_address: long.clone() }.encode();
    assert_eq!(&bytes[..4], &[44, 1, 0, 0]);
    assert_eq!(&bytes[4..], long.as_bytes());
}

#[test]
fn deletion_requests_wait_fourteen_days() {
    assert_eq!(delete_request_delay_ms(), Some(1_209_600_000));
}

#[test]
fn queue_settings_follow_the_configuration() {
    let c = config();
    let new_user = new_user_queue_settings(&c);
    assert_eq!(new_user.rabbitmq_uri, "amqp://mq");
    assert_eq!(new_user.exchange_name, "new_user");
    assert_eq!(new_user.queue_name, "new_user_q");
    assert_eq!(new_user.routing_key, "new_user.new");
    assert_eq!(new_user.retry_ttl, 60000);
    assert_eq!(new_user.delay_ms, None);
    let delete = delete_account_request_queue_settings(&c);
    assert_eq!(delete.rabbitmq_uri, "amqp://mq");
    assert_eq!(delete.exchange_name, "delete_account_request");
    assert_eq!(delete.queue_name, "delete_account_request");
    assert_eq!(delete.routing_key, "delete_account_request.new");
    assert_eq!(delete.retry_ttl, 60000);
    assert_eq!(delete.delay_ms, Some(1_209_600_000));
    let route = delete.route();
    assert_eq!(route.exchange_name, "delete_account_request");
    assert_eq!(route.routing_key, "delete_account_request.new");
}

#[test]
fn publications_carry_route_and_payload() {
    let route = QueueRoute { exchange_name: "ex".to_string(), routing_key: "rk".to_string() };
    let p = new_user_publication(&route, "So1".to_string());
    assert_eq!(p.exchange_name, "ex");
    assert_eq!(p.routing_key, "rk");
    assert_eq!(p.payload, vec![3, 0, 0, 0, b'S', b'o', b'1']);
    let d = delete_request_publication(&route, "uid7".to_string());
    assert_eq!(d.payload, vec![4, 0, 0, 0, b'u', b'i', b'd', b'7']);
}
