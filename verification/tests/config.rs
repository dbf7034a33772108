use eutopic_api::config::{decode_hex, parse_i64, parse_u32, parse_u64, split_to_strings, Config, ConfigVars};

#[test]
fn unsigned_numbers_parse_as_std_does() {
    assert_eq!(parse_u64("8080"), Some(8080));
    assert_eq!(parse_u64("+5"), Some(5));
    assert_eq!(parse_u64("0007"), Some(7));
    assert_eq!(parse_u64("18446744073709551615"), Some(u64::MAX));
    for s in ["", "+", "-5", "-0", " 1", "1 ", "1_000", "12a", "18446744073709551616", "٣"] {
        assert_eq!(parse_u64(s), None, "{:?}", s);
        assert_eq!(parse_u64(s), s.parse::<u64>().ok(), "{:?}", s);
    }
    assert_eq!(parse_u32("4294967295"), Some(u32::MAX));
    assert_eq!(parse_u32("4294967296"), None);
}

#[test]
fn signed_numbers_parse_as_std_does() {
    for s in [
        "0", "-0", "+0", "14", "-14", "9223372036854775807", "-9223372036854775808",
        "9223372036854775808", "-9223372036854775809", "", "-", "+", "--1", "+-1", "1e3",
    ] {
        assert_eq!(parse_i64(s), s.parse::<i64>().ok(), "{:?}", s);
    }
    assert_eq!(parse_i64("-9223372036854775808"), Some(i64::MIN));
}

#[test]
fn split_keeps_every_piece() {
    assert_eq!(split_to_strings("a,b", ','), vec!["a", "b"]);
    assert_eq!(split_to_strings("", ','), vec![""]);
    assert_eq!(split_to_strings("a,,b,", ','), vec!["a", "", "b", ""]);
    assert_eq!(split_to_strings("https://x.io", ','), vec!["https://x.io"]);
    assert_eq!(split_to_strings("é,ü", ','), vec!["é", "ü"]);
}

#[test]
fn split_then_join_gives_the_text_back() {
    for s in ["", ",", "a", "a,b,c", ",x,", "http://a.io,http://b.io"] {
        let pieces = split_to_strings(s, ',');
        assert_eq!(pieces.join(","), s);
        assert!(pieces.iter().all(|p| !p.contains(',')));
        let std_pieces: Vec<String> = s.split(",").map(|v| v.to_owned()).collect();
        assert_eq!(pieces, std_pieces);
    }
}

/// The key line of the example in the README.
const README_KEY: &str = "EBF6A062A9DE7B4FCE764BCE671CC14AA064EB57AA69E9E5135241F501A14B50";

#[test]
fn hex_text_decodes_to_bytes() {
    assert_eq!(decode_hex(""), Some(vec![]));
    assert_eq!(decode_hex("00ff10Aa"), Some(vec![0x00, 0xff, 0x10, 0xaa]));
    assert_eq!(decode_hex("abc"), None);
    assert_eq!(decode_hex("zz"), None);
    assert_eq!(decode_hex("0g"), None);
    assert_eq!(decode_hex(" 0"), None);
    let key = decode_hex(README_KEY).unwrap();
    assert_eq!(key.len(), 32);
    let hex: String = key.iter().map(|b| format!("{:02X}", b)).collect();
    assert_eq!(hex, README_KEY);
}

fn vars() -> ConfigVars {
    ConfigVars {
        port: "8080".to_string(),
        postgres_uri: "postgres://db".to_string(),
        firebase_api_key: "key".to_string(),
        cors_origin: "http://a.io,http://b.io".to_string(),
        rabbitmq_uri: "amqp://mq".to_string(),
        exchange_name: "ex".to_string(),
        queue_name: "q".to_string(),
        routing_key: "rk".to_string(),
        retry_ttl: "3000".to_string(),
        enc_key: README_KEY.to_string(),
        account_deletion_delay_days: "-3".to_string(),
    }
}

#[test]
fn config_reads_every_setting() {
    let c = Config::new(vars());
    assert_eq!(c.port, 8080);
    assert_eq!(c.postgres_uri, "postgres://db");
    assert_eq!(c.firebase_auth_key, "key");
    assert_eq!(c.cors_origin, vec!["http://a.io", "http://b.io"]);
    assert_eq!(c.rabbitmq_uri, "amqp://mq");
    assert_eq!(c.exchange_name, "ex");
    assert_eq!(c.queue_name, "q");
    assert_eq!(c.routing_key, "rk");
    assert_eq!(c.retry_ttl, 3000);
    assert_eq!(c.enc_key.len(), 32);
    assert_eq!(&c.enc_key[..4], &[0xEB, 0xF6, 0xA0, 0x62]);
    assert_eq!(&c.enc_key[28..], &[0x01, 0xA1, 0x4B, 0x50]);
    assert_eq!(c.account_deletion_delay_days, -3);
}
